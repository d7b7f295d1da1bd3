use qwen_session::decode::StreamSummary;
use qwen_session::outcome::{
    classify_round_end, describe_exit_code, dispatch_outcome, emit_stream_error,
    read_failure_event, spawn_failure_message, ExitReport, SpawnFailure, StreamErrorKind,
};

fn summary(any: bool) -> StreamSummary {
    StreamSummary { emitted_any_chunk: any, emitted_partial_chunk: false, emitted_full_message: any }
}

fn exited(success: bool, code: Option<i32>) -> Result<ExitReport, String> {
    Ok(ExitReport { success, code })
}

#[test]
fn success_with_chunks_is_no_error() {
    assert_eq!(classify_round_end(3, Ok(summary(true)), exited(true, Some(0)), "noise"), None);
}

#[test]
fn success_without_chunks_is_empty_output() {
    let error = classify_round_end(4, Ok(summary(false)), exited(true, Some(0)), "  \n")
        .expect("one error");
    assert_eq!(error.round_id, 4);
    assert_eq!(error.kind, StreamErrorKind::EmptyOutput);
    assert_eq!(error.kind.label(), "empty_output");
    assert_eq!(error.message, "qwen completed without output");
}

#[test]
fn empty_output_carries_stderr() {
    let error = classify_round_end(4, Ok(summary(false)), exited(true, Some(0)), "\n not logged in \n")
        .expect("one error");
    assert_eq!(error.kind, StreamErrorKind::EmptyOutput);
    assert_eq!(error.message, "qwen completed without stdout. stderr: not logged in");
}

#[test]
fn exit_code_two_is_command_failed() {
    let error = classify_round_end(9, Ok(summary(true)), exited(false, Some(2)), "").expect("one error");
    assert_eq!(error.round_id, 9);
    assert_eq!(error.kind.label(), "command_failed");
    assert_eq!(error.message, "qwen exited with non-zero status: 2");
    assert!(error.message.contains("2"));
}

#[test]
fn command_failed_carries_stderr() {
    let error = classify_round_end(9, Ok(summary(false)), exited(false, Some(127)), " not found\n")
        .expect("one error");
    assert_eq!(error.kind, StreamErrorKind::CommandFailed);
    assert_eq!(error.message, "qwen exited with non-zero status: 127, stderr: not found");
}

#[test]
fn signal_is_reported_in_words() {
    let error = classify_round_end(1, Ok(summary(true)), exited(false, None), "").expect("one error");
    assert_eq!(error.message, "qwen exited with non-zero status: terminated by signal");
}

#[test]
fn wait_failure_is_wait_error() {
    let error = classify_round_end(5, Ok(summary(true)), Err("no child".to_string()), "ignored")
        .expect("one error");
    assert_eq!(error.kind.label(), "wait_error");
    assert_eq!(error.message, "failed waiting qwen process: no child");
}

#[test]
fn read_failure_comes_first() {
    let error = classify_round_end(6, Err("broken pipe".to_string()), exited(true, Some(0)), "x")
        .expect("one error");
    assert_eq!(error.kind.label(), "read_error");
    assert_eq!(error.message, "failed reading qwen headless stdout: broken pipe");
    let other = classify_round_end(6, Err("e".to_string()), Err("w".to_string()), "").expect("one error");
    assert_eq!(other.kind, StreamErrorKind::ReadError);
}

#[test]
fn exit_codes_are_written_in_decimal() {
    assert_eq!(describe_exit_code(Some(0)), "0");
    assert_eq!(describe_exit_code(Some(7)), "7");
    assert_eq!(describe_exit_code(Some(10)), "10");
    assert_eq!(describe_exit_code(Some(255)), "255");
    assert_eq!(describe_exit_code(Some(-1)), "-1");
    assert_eq!(describe_exit_code(Some(i32::MAX)), "2147483647");
    assert_eq!(describe_exit_code(Some(i32::MIN)), "-2147483648");
    assert_eq!(describe_exit_code(None), "terminated by signal");
}

#[test]
fn kinds_have_their_labels() {
    assert_eq!(StreamErrorKind::ReadError.label(), "read_error");
    assert_eq!(StreamErrorKind::EmptyOutput.label(), "empty_output");
    assert_eq!(StreamErrorKind::CommandFailed.label(), "command_failed");
    assert_eq!(StreamErrorKind::WaitError.label(), "wait_error");
}

#[test]
fn error_event_holds_what_it_was_given() {
    let event = emit_stream_error(8, StreamErrorKind::WaitError, "m".to_string());
    assert_eq!(event.round_id, 8);
    assert_eq!(event.kind, StreamErrorKind::WaitError);
    assert_eq!(event.message, "m");
}

#[test]
fn spawn_failures_have_their_messages() {
    assert_eq!(
        spawn_failure_message(&SpawnFailure::Start("No such file or directory".to_string())),
        "failed to start qwen headless process: No such file or directory"
    );
    assert_eq!(spawn_failure_message(&SpawnFailure::StdoutUnavailable), "failed to capture qwen stdout");
    assert_eq!(spawn_failure_message(&SpawnFailure::StderrUnavailable), "failed to capture qwen stderr");
    assert_eq!(dispatch_outcome(Ok(())), Ok(()));
    assert_eq!(
        dispatch_outcome(Err(SpawnFailure::StderrUnavailable)),
        Err("failed to capture qwen stderr".to_string())
    );
}

#[test]
fn failed_read_is_reported_without_the_exit_status() {
    let event = read_failure_event(6, "broken pipe");
    assert_eq!(event.round_id, 6);
    assert_eq!(event.kind, StreamErrorKind::ReadError);
    assert_eq!(event.kind.label(), "read_error");
    assert_eq!(event.message, "failed reading qwen headless stdout: broken pipe");
    for wait in [exited(true, Some(0)), exited(false, Some(2)), exited(false, None), Err("w".to_string())] {
        let classified = classify_round_end(6, Err("broken pipe".to_string()), wait, "noise");
        assert_eq!(classified, Some(read_failure_event(6, "broken pipe")));
    }
    assert_eq!(read_failure_event(0, "").message, "failed reading qwen headless stdout: ");
}
