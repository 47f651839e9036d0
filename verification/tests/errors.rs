use cross_exec::{OsError, ReplacementError, exec_failure};

#[test]
fn exec_path_failure_is_a_launch_failure() {
    let os = OsError {
        code: Some(2),
        message: String::from("no such file or directory"),
    };
    let err = exec_failure(os.clone());
    assert!(matches!(err, ReplacementError::LaunchFailed { .. }));
    assert_eq!(err.os(), &os);
    assert_eq!(err.os().code, Some(2));
    // the error came back instead of the process being replaced: the caller
    // can execute further statements
    let still_running = true;
    assert!(still_running);
}

#[test]
fn context_names_the_failed_step() {
    let os = OsError {
        code: None,
        message: String::from("unknown"),
    };
    let handler = ReplacementError::HandlerInstallationFailed { os: os.clone() };
    let launch = ReplacementError::LaunchFailed { os: os.clone() };
    let wait = ReplacementError::StatusRetrievalFailed { os };
    assert_eq!(handler.context(), "failed to set interrupt handler");
    assert_eq!(launch.context(), "failed to launch the program");
    assert_eq!(wait.context(), "failed to read the child's exit status");
}

#[test]
fn os_error_is_kept_whole() {
    let os = OsError {
        code: Some(13),
        message: String::from("permission denied"),
    };
    let err = ReplacementError::LaunchFailed { os: os.clone() };
    assert_eq!(err.os().code, Some(13));
    assert_eq!(err.os().message, "permission denied");
    assert_eq!(err.os(), &os);
}
