//! What can go wrong in an operation, and how it is described to the user.

use vstd::prelude::*;

verus! {

/// Why the backend executable could not be located.
#[derive(Debug, PartialEq, Eq)]
pub enum PathFailure {
    /// The system could not say where the running executable is; the text is
    /// the system's description of the failure.
    ExecutableUnknown(String),
    /// The running executable's path names no directory that holds it.
    NoParentDirectory,
}

/// The failure of a start or stop operation.
#[derive(Debug, PartialEq, Eq)]
pub enum SupervisorError {
    /// The install directory could not be determined.
    PathResolution(PathFailure),
    /// The system refused to create the process; the text is its description.
    Spawn(String),
    /// The system refused to kill the process; the text is its description.
    Termination(String),
}

impl SupervisorError {
    /// The sentence shown to the user for this error.
    pub open spec fn message_text(self) -> Seq<char> {
        match self {
            SupervisorError::PathResolution(PathFailure::ExecutableUnknown(cause)) => {
                "Failed to get executable path: "@ + cause@
            },
            SupervisorError::PathResolution(PathFailure::NoParentDirectory) => {
                "Failed to get app directory"@
            },
            SupervisorError::Spawn(cause) => "Failed to start backend: "@ + cause@,
            SupervisorError::Termination(cause) => "Failed to stop backend: "@ + cause@,
        }
    }

    /// Describes the error in one sentence, the system's own words last.
    pub fn message(&self) -> (text: String)
        ensures
            text@ == self.message_text(),
    {
        match self {
            SupervisorError::PathResolution(PathFailure::ExecutableUnknown(cause)) => {
                "Failed to get executable path: ".to_owned().concat(cause.as_str())
            },
            SupervisorError::PathResolution(PathFailure::NoParentDirectory) => {
                "Failed to get app directory".to_owned()
            },
            SupervisorError::Spawn(cause) => {
                "Failed to start backend: ".to_owned().concat(cause.as_str())
            },
            SupervisorError::Termination(cause) => {
                "Failed to stop backend: ".to_owned().concat(cause.as_str())
            },
        }
    }
}

} // verus!
