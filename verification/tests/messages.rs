use backend_supervisor::error::{PathFailure, SupervisorError};

#[test]
fn message_of_unknown_executable() {
    let error = SupervisorError::PathResolution(PathFailure::ExecutableUnknown(
        "No such file or directory (os error 2)".to_string(),
    ));
    assert_eq!(
        error.message(),
        "Failed to get executable path: No such file or directory (os error 2)"
    );
}

#[test]
fn message_of_missing_parent() {
    let error = SupervisorError::PathResolution(PathFailure::NoParentDirectory);
    assert_eq!(error.message(), "Failed to get app directory");
}

#[test]
fn message_of_spawn_failure() {
    let error = SupervisorError::Spawn("Permission denied (os error 13)".to_string());
    assert_eq!(error.message(), "Failed to start backend: Permission denied (os error 13)");
}

#[test]
fn message_of_termination_failure() {
    let error = SupervisorError::Termination("invalid argument".to_string());
    assert_eq!(error.message(), "Failed to stop backend: invalid argument");
}

#[test]
fn message_with_empty_cause() {
    assert_eq!(SupervisorError::Spawn(String::new()).message(), "Failed to start backend: ");
}
