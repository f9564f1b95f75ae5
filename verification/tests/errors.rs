use subprocess::errors::{ErrorCategory, OsError, OsErrorKind, SubprocessError};

#[test]
fn test_subprocess_error_from_io_error_not_found() {
    let io_err = OsError::new(OsErrorKind::NotFound, "No such file or directory (os error 2)");
    let sub_err = SubprocessError::from_io_error(io_err, "nonexistent_cmd");
    match sub_err {
        SubprocessError::CommandNotFound(cmd) => {
            assert_eq!(cmd, "nonexistent_cmd");
        }
        _ => panic!("Expected CommandNotFound error"),
    }
}

#[test]
fn test_subprocess_error_from_io_error_permission_denied() {
    let io_err = OsError::new(OsErrorKind::PermissionDenied, "Permission denied (os error 13)");
    let sub_err = SubprocessError::from_io_error(io_err, "restricted_cmd");
    match sub_err {
        SubprocessError::PermissionDenied(cmd) => {
            assert_eq!(cmd, "restricted_cmd");
        }
        _ => panic!("Expected PermissionDenied error"),
    }
}

#[test]
fn test_subprocess_error_from_io_error_other() {
    let io_err = OsError::new(OsErrorKind::Other, "Some generic IO error");
    let sub_err = SubprocessError::from_io_error(io_err, "some_cmd");
    match sub_err {
        SubprocessError::IoError(msg) => {
            assert!(msg.contains("some_cmd"));
            assert!(msg.contains("Some generic IO error"));
        }
        _ => panic!("Expected IoError"),
    }
}

#[test]
fn test_subprocess_error_to_string_command_not_found() {
    let err = SubprocessError::CommandNotFound("nonexistent_cmd".to_string());
    let msg: String = err.into();
    assert_eq!(msg, "Command not found: nonexistent_cmd");
}

#[test]
fn test_subprocess_error_to_string_execution_failed() {
    let err = SubprocessError::ExecutionFailed(
        "ls: cannot access 'nonexistent': No such file or directory\n".to_string(),
    );
    let msg: String = err.into();
    assert_eq!(
        msg,
        "Execution failed: ls: cannot access 'nonexistent': No such file or directory\n"
    );
}

#[test]
fn test_subprocess_error_to_string_invalid_arguments() {
    let err = SubprocessError::InvalidArguments("Empty command list".to_string());
    let msg: String = err.into();
    assert_eq!(msg, "Invalid arguments: Empty command list");
}

#[test]
fn test_subprocess_error_to_string_permission_denied() {
    let err = SubprocessError::PermissionDenied("restricted_file".to_string());
    let msg: String = err.into();
    assert_eq!(msg, "Permission denied: restricted_file");
}

#[test]
fn test_subprocess_error_to_string_output_capture_error() {
    let err = SubprocessError::OutputCaptureError("Failed to read output".to_string());
    let msg: String = err.into();
    assert_eq!(msg, "Output capture error: Failed to read output");
}

#[test]
fn test_subprocess_error_display() {
    let error1 = SubprocessError::InvalidArguments("test message".to_string());
    assert_eq!(error1.to_string(), "Invalid arguments: test message");

    let error2 = SubprocessError::CommandNotFound("test_cmd".to_string());
    assert_eq!(error2.to_string(), "Command not found: test_cmd");

    let error3 = SubprocessError::PermissionDenied("test_cmd".to_string());
    assert_eq!(error3.to_string(), "Permission denied: test_cmd");

    let error4 = SubprocessError::ExecutionFailed("test failure".to_string());
    assert_eq!(error4.to_string(), "Execution failed: test failure");

    let error5 = SubprocessError::OutputCaptureError("capture failed".to_string());
    assert_eq!(error5.to_string(), "Output capture error: capture failed");
}

#[test]
fn test_subprocess_error_from_string() {
    let error = SubprocessError::CommandNotFound("test_cmd".to_string());
    let error_string: String = error.into();
    assert_eq!(error_string, "Command not found: test_cmd");
}

#[test]
fn test_subprocess_error_from_io_error() {
    let not_found_error = OsError::new(OsErrorKind::NotFound, "file not found");
    let subprocess_error = SubprocessError::from_io_error(not_found_error, "test_command");
    match subprocess_error {
        SubprocessError::CommandNotFound(cmd) => assert_eq!(cmd, "test_command"),
        _ => panic!("Expected CommandNotFound error"),
    }

    let permission_error = OsError::new(OsErrorKind::PermissionDenied, "permission denied");
    let subprocess_error = SubprocessError::from_io_error(permission_error, "test_command");
    match subprocess_error {
        SubprocessError::PermissionDenied(cmd) => assert_eq!(cmd, "test_command"),
        _ => panic!("Expected PermissionDenied error"),
    }

    let other_error = OsError::new(OsErrorKind::Other, "other error");
    let subprocess_error = SubprocessError::from_io_error(other_error, "test_command");
    match subprocess_error {
        SubprocessError::IoError(msg) => {
            assert!(msg.contains("test_command"));
            assert!(msg.contains("other error"));
        }
        _ => panic!("Expected IoError"),
    }
}

#[test]
fn other_failure_keeps_command_and_message_in_order() {
    let error = SubprocessError::from_io_error(
        OsError::new(OsErrorKind::Other, "Argument list too long (os error 7)"),
        "tar",
    );
    assert_eq!(
        error,
        SubprocessError::IoError("tar: Argument list too long (os error 7)".to_string())
    );
    assert_eq!(error.to_string(), "I/O Error: tar: Argument list too long (os error 7)");
}

#[test]
fn each_variant_has_its_category() {
    let text = "x".to_string();
    assert_eq!(
        SubprocessError::InvalidArguments(text.clone()).category(),
        ErrorCategory::InvalidArguments
    );
    assert_eq!(
        SubprocessError::CommandNotFound(text.clone()).category(),
        ErrorCategory::CommandNotFound
    );
    assert_eq!(
        SubprocessError::PermissionDenied(text.clone()).category(),
        ErrorCategory::PermissionDenied
    );
    assert_eq!(
        SubprocessError::ExecutionFailed(text.clone()).category(),
        ErrorCategory::ExecutionFailed
    );
    assert_eq!(SubprocessError::IoError(text.clone()).category(), ErrorCategory::IoError);
    assert_eq!(
        SubprocessError::OutputCaptureError(text).category(),
        ErrorCategory::OutputCaptureError
    );
}

#[test]
fn display_strings_of_different_failures_differ() {
    let a = SubprocessError::IoError("x".to_string()).to_string();
    let b = SubprocessError::InvalidArguments("x".to_string()).to_string();
    let c = SubprocessError::InvalidArguments("y".to_string()).to_string();
    assert_ne!(a, b);
    assert_ne!(b, c);
}

#[test]
fn empty_detail_leaves_label_and_separator() {
    assert_eq!(SubprocessError::CommandNotFound(String::new()).to_string(), "Command not found: ");
}
