use desktop_shell::capture::{
    capture_invocation, capture_result, ProcessOutput, CAPTURE_PROGRAM, FAILURE_LEAD,
    FAILURE_MARK, OUTPUT_PATH,
};

fn ended_with(exit_code: Option<i32>, stderr: &str) -> ProcessOutput {
    ProcessOutput { exit_code, stdout: Vec::new(), stderr: stderr.as_bytes().to_vec() }
}

#[test]
fn invocation_is_the_fixed_command_line() {
    let invocation = capture_invocation();
    assert_eq!(invocation.program, "import");
    assert_eq!(invocation.args, vec!["-window", "root", "-silent", "/tmp/screenshot.png"]);
}

#[test]
fn invocation_is_the_same_at_every_call() {
    let first = capture_invocation();
    let second = capture_invocation();
    assert_eq!(first.program, second.program);
    assert_eq!(first.args, second.args);
    assert_eq!(first.program, CAPTURE_PROGRAM);
}

#[test]
fn invocation_ends_with_the_output_path() {
    let invocation = capture_invocation();
    assert_eq!(invocation.args.len(), 4);
    assert_eq!(invocation.args[3], OUTPUT_PATH);
    assert_eq!(OUTPUT_PATH, "/tmp/screenshot.png");
}

#[test]
fn clean_exit_reports_the_output_path() {
    assert_eq!(capture_result(Ok(ended_with(Some(0), ""))), Ok("/tmp/screenshot.png".to_string()));
}

#[test]
fn failed_exit_still_reports_the_output_path() {
    let output = ended_with(Some(1), "import: unable to open X server `'");
    assert_eq!(capture_result(Ok(output)), Ok("/tmp/screenshot.png".to_string()));
}

#[test]
fn exit_code_makes_no_difference() {
    let codes = [Some(0), Some(1), Some(2), Some(127), Some(-1), Some(i32::MIN), Some(i32::MAX), None];
    for code in codes {
        let output = ProcessOutput { exit_code: code, stdout: vec![0, 159, 146, 150], stderr: vec![b'x'; 64] };
        assert_eq!(capture_result(Ok(output)), Ok(OUTPUT_PATH.to_string()));
    }
}

#[test]
fn reported_path_is_the_path_given_to_the_tool() {
    let invocation = capture_invocation();
    let path = capture_result(Ok(ended_with(Some(0), ""))).unwrap();
    assert_eq!(Some(&path), invocation.args.last());
}

#[test]
fn missing_executable_reports_the_reason() {
    let reason = "No such file or directory (os error 2)".to_string();
    assert_eq!(
        capture_result(Err(reason)),
        Err("Failed to capture screenshot: No such file or directory (os error 2)".to_string())
    );
}

#[test]
fn failure_holds_the_mark() {
    let reasons = ["No such file or directory (os error 2)", "Permission denied (os error 13)", "", "\u{1f980}\n"];
    for reason in reasons {
        let message = capture_result(Err(reason.to_string())).unwrap_err();
        assert!(message.contains("Failed to capture screenshot:"));
        assert!(message.starts_with(FAILURE_MARK));
        assert_eq!(message, format!("{}{}", FAILURE_LEAD, reason));
        assert_eq!(&message[30..], reason);
    }
}

#[test]
fn empty_reason_leaves_the_lead() {
    assert_eq!(capture_result(Err(String::new())), Err("Failed to capture screenshot: ".to_string()));
    assert_eq!(FAILURE_LEAD, "Failed to capture screenshot: ");
    assert_eq!(FAILURE_MARK, "Failed to capture screenshot:");
}

#[test]
fn two_runs_report_the_same_path() {
    let first = capture_result(Ok(ended_with(Some(0), "")));
    let second = capture_result(Ok(ended_with(Some(0), "")));
    assert_eq!(first, Ok(OUTPUT_PATH.to_string()));
    assert_eq!(first, second);
}
