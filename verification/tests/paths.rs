use backend_supervisor::error::PathFailure;
use backend_supervisor::path::{backend_path, join, parent_dir, resolve_backend_path};
use backend_supervisor::platform::Platform;

fn some(text: &str) -> Option<String> {
    Some(text.to_string())
}

#[test]
fn target_os_windows_is_windows() {
    assert_eq!(Platform::for_target_os("windows"), Platform::Windows);
}

#[test]
fn target_os_others_are_other() {
    assert_eq!(Platform::for_target_os("linux"), Platform::Other);
    assert_eq!(Platform::for_target_os("macos"), Platform::Other);
    assert_eq!(Platform::for_target_os("Windows"), Platform::Other);
    assert_eq!(Platform::for_target_os("windows "), Platform::Other);
    assert_eq!(Platform::for_target_os(""), Platform::Other);
}

#[test]
fn target_os_is_compared_whole() {
    assert_eq!(Platform::for_target_os("window"), Platform::Other);
    assert_eq!(Platform::for_target_os("windowsx"), Platform::Other);
    assert_eq!(Platform::for_target_os("wíndows"), Platform::Other);
    assert_eq!(Platform::for_target_os("swodniw"), Platform::Other);
}

#[test]
fn separators_by_platform() {
    assert_eq!(Platform::Other.separator_str(), "/");
    assert_eq!(Platform::Windows.separator_str(), "\\");
    assert!(Platform::Other.is_separator('/'));
    assert!(!Platform::Other.is_separator('\\'));
    assert!(Platform::Windows.is_separator('/'));
    assert!(Platform::Windows.is_separator('\\'));
    assert!(!Platform::Windows.is_separator(':'));
}

#[test]
fn backend_file_name_by_platform() {
    assert_eq!(Platform::Other.backend_file_name(), "backend");
    assert_eq!(Platform::Windows.backend_file_name(), "backend.exe");
}

#[test]
fn parent_of_absolute_path() {
    assert_eq!(parent_dir("/opt/app/bin/shell", Platform::Other), some("/opt/app/bin"));
    assert_eq!(parent_dir("/opt/app", Platform::Other), some("/opt"));
}

#[test]
fn parent_directly_under_root_is_root() {
    assert_eq!(parent_dir("/shell", Platform::Other), some("/"));
    assert_eq!(parent_dir("//shell", Platform::Other), some("/"));
}

#[test]
fn parent_of_single_component_is_empty() {
    assert_eq!(parent_dir("shell", Platform::Other), some(""));
    assert_eq!(parent_dir("shell/", Platform::Other), some(""));
}

#[test]
fn root_and_empty_have_no_parent() {
    assert_eq!(parent_dir("", Platform::Other), None);
    assert_eq!(parent_dir("/", Platform::Other), None);
    assert_eq!(parent_dir("///", Platform::Other), None);
    assert_eq!(parent_dir("\\", Platform::Windows), None);
}

#[test]
fn parent_ignores_repeated_and_trailing_separators() {
    assert_eq!(parent_dir("/opt/app/shell/", Platform::Other), some("/opt/app"));
    assert_eq!(parent_dir("/opt/app//shell", Platform::Other), some("/opt/app"));
    assert_eq!(parent_dir("/opt/app///shell//", Platform::Other), some("/opt/app"));
}

#[test]
fn parent_on_windows_takes_both_separators() {
    assert_eq!(
        parent_dir("C:\\Program Files\\Shell\\shell.exe", Platform::Windows),
        some("C:\\Program Files\\Shell")
    );
    assert_eq!(parent_dir("C:/Apps/Shell/shell.exe", Platform::Windows), some("C:/Apps/Shell"));
    assert_eq!(parent_dir("C:\\Apps/shell.exe", Platform::Windows), some("C:\\Apps"));
}

#[test]
fn backslash_is_no_separator_elsewhere() {
    assert_eq!(parent_dir("/opt/a\\b", Platform::Other), some("/opt"));
    assert_eq!(parent_dir("a\\b", Platform::Other), some(""));
}

#[test]
fn parent_counts_characters_not_bytes() {
    assert_eq!(parent_dir("/héllo/wörld/app", Platform::Other), some("/héllo/wörld"));
    assert_eq!(parent_dir("/日本/アプリ", Platform::Other), some("/日本"));
}

#[test]
fn join_puts_one_separator() {
    assert_eq!(join("/opt/app", "resources", Platform::Other), "/opt/app/resources");
    assert_eq!(join("C:\\App", "resources", Platform::Windows), "C:\\App\\resources");
}

#[test]
fn join_keeps_a_separator_that_is_there() {
    assert_eq!(join("/opt/app/", "resources", Platform::Other), "/opt/app/resources");
    assert_eq!(join("/", "resources", Platform::Other), "/resources");
    assert_eq!(join("C:\\App\\", "resources", Platform::Windows), "C:\\App\\resources");
    assert_eq!(join("C:/App/", "resources", Platform::Windows), "C:/App/resources");
}

#[test]
fn join_to_empty_directory_is_the_name() {
    assert_eq!(join("", "resources", Platform::Other), "resources");
    assert_eq!(join("", "resources", Platform::Windows), "resources");
}

#[test]
fn join_after_backslash_on_other_platform_adds_slash() {
    assert_eq!(join("dir\\", "x", Platform::Other), "dir\\/x");
}

#[test]
fn backend_path_on_other_platforms() {
    assert_eq!(backend_path("/opt/app", Platform::Other), "/opt/app/resources/backend");
    assert_eq!(backend_path("/", Platform::Other), "/resources/backend");
    assert_eq!(backend_path("", Platform::Other), "resources/backend");
}

#[test]
fn backend_path_on_windows() {
    assert_eq!(
        backend_path("C:\\Program Files\\Shell", Platform::Windows),
        "C:\\Program Files\\Shell\\resources\\backend.exe"
    );
    assert_eq!(backend_path("", Platform::Windows), "resources\\backend.exe");
}

#[test]
fn resolve_beside_the_executable() {
    assert_eq!(
        resolve_backend_path(Ok("/opt/app/shell".to_string()), Platform::Other),
        Ok("/opt/app/resources/backend".to_string())
    );
    assert_eq!(
        resolve_backend_path(Ok("C:\\Shell\\shell.exe".to_string()), Platform::Windows),
        Ok("C:\\Shell\\resources\\backend.exe".to_string())
    );
}

#[test]
fn resolve_differs_from_the_executable_path() {
    let exe = "/opt/app/shell".to_string();
    let found = resolve_backend_path(Ok(exe.clone()), Platform::Other).unwrap();
    assert_ne!(found, exe);
}

#[test]
fn resolve_fails_without_executable_path() {
    assert_eq!(
        resolve_backend_path(Err("permission denied".to_string()), Platform::Other),
        Err(PathFailure::ExecutableUnknown("permission denied".to_string()))
    );
}

#[test]
fn resolve_fails_without_parent_directory() {
    assert_eq!(
        resolve_backend_path(Ok("/".to_string()), Platform::Other),
        Err(PathFailure::NoParentDirectory)
    );
    assert_eq!(
        resolve_backend_path(Ok("".to_string()), Platform::Windows),
        Err(PathFailure::NoParentDirectory)
    );
}

#[test]
fn resolve_relative_executable() {
    assert_eq!(
        resolve_backend_path(Ok("shell".to_string()), Platform::Other),
        Ok("resources/backend".to_string())
    );
}
