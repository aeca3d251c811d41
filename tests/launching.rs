use zed2native_ide::{launch_command, launch_outcome, Ide, LaunchError, RunReport};

#[test]
fn xcode_command_line() {
    let c = launch_command(Ide::Xcode, "App/ViewController.swift", 42);
    assert_eq!(c.ide, Ide::Xcode);
    assert_eq!(c.program, "xed");
    assert_eq!(c.args, vec!["-l", "42", "App/ViewController.swift"]);
}

#[test]
fn android_studio_command_line() {
    let c = launch_command(Ide::AndroidStudio, "app/src/Main.kt", 10);
    assert_eq!(c.ide, Ide::AndroidStudio);
    assert_eq!(c.program, "studio");
    assert_eq!(c.args, vec!["--line", "10", "app/src/Main.kt"]);
}

#[test]
fn exit_code_zero_is_success() {
    let r = launch_outcome(Ide::Xcode, RunReport::Finished { exit_code: Some(0), stderr: String::new() });
    assert_eq!(r, Ok(()));
}

#[test]
fn nonzero_exit_is_process_failed_with_stderr() {
    let r = launch_outcome(
        Ide::Xcode,
        RunReport::Finished { exit_code: Some(1), stderr: "file not found".to_string() },
    );
    let e = r.unwrap_err();
    assert_eq!(
        e,
        LaunchError::ProcessFailed { program: "xed".to_string(), stderr: "file not found".to_string() }
    );
    assert_eq!(e.message(), "xed failed: file not found");
    assert!(e.message().contains("file not found"));
}

#[test]
fn signal_ended_process_is_process_failed() {
    let r = launch_outcome(
        Ide::AndroidStudio,
        RunReport::Finished { exit_code: None, stderr: "killed".to_string() },
    );
    assert_eq!(
        r,
        Err(LaunchError::ProcessFailed { program: "studio".to_string(), stderr: "killed".to_string() })
    );
}

#[test]
fn unstartable_process_is_spawn_failed_with_os_error() {
    let r = launch_outcome(
        Ide::AndroidStudio,
        RunReport::NotStarted { os_error: "No such file or directory (os error 2)".to_string() },
    );
    let e = r.unwrap_err();
    assert_eq!(
        e,
        LaunchError::SpawnFailed {
            program: "studio".to_string(),
            os_error: "No such file or directory (os error 2)".to_string()
        }
    );
    assert_eq!(e.message(), "Failed to execute studio: No such file or directory (os error 2)");
}
