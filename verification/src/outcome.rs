//! How a round ended: from what the decoder saw, how the process exited and
//! what it wrote to standard error, to the one error event of the round, if
//! there is one.

use vstd::prelude::*;
use vstd::string::StringExecFns;
use crate::decode::{
    lemma_any_chunk_flag_counts_chunks, stream_chunks, stream_summary, StreamSummary,
};
use crate::text::{decimal_string, decimal_text, trim_str, trimmed};

verus! {

/// The kinds of error that end a round.
#[derive(Clone, Copy, Debug, PartialEq, Eq)]
pub enum StreamErrorKind {
    /// Reading the process's output failed.
    ReadError,
    /// The process succeeded and no chunk was produced.
    EmptyOutput,
    /// The process did not succeed.
    CommandFailed,
    /// The exit status could not be had.
    WaitError,
}

impl StreamErrorKind {
    /// The name under which the kind is reported.
    pub open spec fn label_text(self) -> Seq<char> {
        match self {
            StreamErrorKind::ReadError => "read_error"@,
            StreamErrorKind::EmptyOutput => "empty_output"@,
            StreamErrorKind::CommandFailed => "command_failed"@,
            StreamErrorKind::WaitError => "wait_error"@,
        }
    }

    /// The name under which the kind is reported.
    pub fn label(&self) -> (r: &'static str)
        ensures
            r@ == self.label_text(),
    {
        match self {
            StreamErrorKind::ReadError => "read_error",
            StreamErrorKind::EmptyOutput => "empty_output",
            StreamErrorKind::CommandFailed => "command_failed",
            StreamErrorKind::WaitError => "wait_error",
        }
    }
}

/// How a process exited: whether it succeeded, and its exit code where it has
/// one (a process that a signal ended has none).
#[derive(Clone, Copy, Debug, PartialEq, Eq)]
pub struct ExitReport {
    pub success: bool,
    pub code: Option<i32>,
}

/// The error event of a round.
#[derive(Debug, PartialEq, Eq)]
pub struct StreamErrorPayload {
    pub round_id: u64,
    pub kind: StreamErrorKind,
    pub message: String,
}

/// The mathematical value of a [`StreamErrorPayload`].
pub ghost struct StreamErrorView {
    pub round_id: u64,
    pub kind: StreamErrorKind,
    pub message: Seq<char>,
}

impl View for StreamErrorPayload {
    type V = StreamErrorView;

    open spec fn view(&self) -> StreamErrorView {
        StreamErrorView { round_id: self.round_id, kind: self.kind, message: self.message@ }
    }
}

/// The view of an optional error event.
pub open spec fn opt_error_view(o: Option<StreamErrorPayload>) -> Option<StreamErrorView> {
    match o {
        Some(e) => Some(e@),
        None => None,
    }
}

/// The exit code as it is reported.
pub open spec fn exit_code_text(code: Option<i32>) -> Seq<char> {
    match code {
        Some(c) => decimal_text(c as int),
        None => "terminated by signal"@,
    }
}

/// The message for a process that succeeded without a chunk.
pub open spec fn empty_output_message(stderr_output: Seq<char>) -> Seq<char> {
    if trimmed(stderr_output).len() == 0 {
        "qwen completed without output"@
    } else {
        "qwen completed without stdout. stderr: "@ + trimmed(stderr_output)
    }
}

/// The message for a process that did not succeed.
pub open spec fn command_failed_message(code: Option<i32>, stderr_output: Seq<char>) -> Seq<char> {
    if trimmed(stderr_output).len() == 0 {
        "qwen exited with non-zero status: "@ + exit_code_text(code)
    } else {
        "qwen exited with non-zero status: "@ + exit_code_text(code) + ", stderr: "@ + trimmed(
            stderr_output,
        )
    }
}

/// What was decoded, or the reason why reading stopped, with strings by
/// their text.
pub open spec fn stream_view(stream: Result<StreamSummary, String>) -> Result<
    StreamSummary,
    Seq<char>,
> {
    match stream {
        Ok(summary) => Ok(summary),
        Err(reason) => Err(reason@),
    }
}

/// How the process exited, or the reason why that is not known, with strings
/// by their text.
pub open spec fn wait_view(wait: Result<ExitReport, String>) -> Result<ExitReport, Seq<char>> {
    match wait {
        Ok(status) => Ok(status),
        Err(reason) => Err(reason@),
    }
}

/// The message for output that could not be read.
pub open spec fn read_failure_text(reason: Seq<char>) -> Seq<char> {
    "failed reading qwen headless stdout: "@ + reason
}

/// The error event of the round `round_id` whose output could not be read.
pub open spec fn read_failure(round_id: u64, reason: Seq<char>) -> StreamErrorView {
    StreamErrorView {
        round_id,
        kind: StreamErrorKind::ReadError,
        message: read_failure_text(reason),
    }
}

/// The error that ends a round, by kind and message; `None` for a round that
/// ended well. A failed read comes first; then the exit status decides.
pub open spec fn round_end_error(
    stream: Result<StreamSummary, Seq<char>>,
    wait: Result<ExitReport, Seq<char>>,
    stderr_output: Seq<char>,
) -> Option<(StreamErrorKind, Seq<char>)> {
    match stream {
        Err(reason) => Some((StreamErrorKind::ReadError, read_failure_text(reason))),
        Ok(summary) => match wait {
            Ok(status) => if status.success {
                if summary.emitted_any_chunk {
                    None
                } else {
                    Some((StreamErrorKind::EmptyOutput, empty_output_message(stderr_output)))
                }
            } else {
                Some(
                    (
                        StreamErrorKind::CommandFailed,
                        command_failed_message(status.code, stderr_output),
                    ),
                )
            },
            Err(reason) => Some(
                (StreamErrorKind::WaitError, "failed waiting qwen process: "@ + reason),
            ),
        },
    }
}

/// The error event for the round `round_id`.
pub open spec fn round_end_event(
    round_id: u64,
    stream: Result<StreamSummary, Seq<char>>,
    wait: Result<ExitReport, Seq<char>>,
    stderr_output: Seq<char>,
) -> Option<StreamErrorView> {
    match round_end_error(stream, wait, stderr_output) {
        Some((kind, message)) => Some(StreamErrorView { round_id, kind, message }),
        None => None,
    }
}

/// A round ends with at most one error, and with none exactly if its output
/// was read, the process succeeded and a chunk was produced.
pub proof fn lemma_round_ends_well_only_with_output(
    round_id: u64,
    stream: Result<StreamSummary, Seq<char>>,
    wait: Result<ExitReport, Seq<char>>,
    stderr_output: Seq<char>,
)
    ensures
        round_end_event(round_id, stream, wait, stderr_output) is None <==> {
            &&& stream matches Ok(summary)
            &&& summary.emitted_any_chunk
            &&& wait matches Ok(status)
            &&& status.success
        },
        round_end_event(round_id, stream, wait, stderr_output) matches Some(event)
            ==> event.round_id == round_id,
{
}

/// Output that could not be read ends its round with the error `read_error`
/// and with no other, whatever the exit status is and whatever the process
/// wrote to standard error.
pub proof fn lemma_failed_read_is_read_error(
    round_id: u64,
    reason: Seq<char>,
    wait: Result<ExitReport, Seq<char>>,
    stderr_output: Seq<char>,
)
    ensures
        round_end_event(round_id, Err(reason), wait, stderr_output) == Some(
            read_failure(round_id, reason),
        ),
        read_failure(round_id, reason).kind.label_text() == "read_error"@,
{
}

/// A process that succeeds after output lines that gave no chunk ends its
/// round with the error `empty_output`.
pub proof fn lemma_success_without_chunks_is_empty_output(
    round_id: u64,
    lines: Seq<Seq<char>>,
    code: Option<i32>,
    stderr_output: Seq<char>,
)
    requires
        stream_chunks(lines).len() == 0,
    ensures
        round_end_event(
            round_id,
            Ok(stream_summary(lines)),
            Ok(ExitReport { success: true, code }),
            stderr_output,
        ) == Some(
            StreamErrorView {
                round_id,
                kind: StreamErrorKind::EmptyOutput,
                message: empty_output_message(stderr_output),
            },
        ),
{
    lemma_any_chunk_flag_counts_chunks(lines);
}

/// A process that exits without success ends its round with the error
/// `command_failed`, whatever it wrote, and the message names the exit code
/// in decimal right after its opening words.
pub proof fn lemma_failed_exit_names_its_code(
    round_id: u64,
    summary: StreamSummary,
    code: i32,
    stderr_output: Seq<char>,
)
    ensures
        ({
            let event = round_end_event(
                round_id,
                Ok(summary),
                Ok(ExitReport { success: false, code: Some(code) }),
                stderr_output,
            );
            let opening = "qwen exited with non-zero status: "@ + decimal_text(code as int);
            &&& event matches Some(e)
            &&& e.round_id == round_id
            &&& e.kind == StreamErrorKind::CommandFailed
            &&& opening.is_prefix_of(e.message)
        }),
{
    let opening = "qwen exited with non-zero status: "@ + decimal_text(code as int);
    let message = command_failed_message(Some(code), stderr_output);
    if trimmed(stderr_output).len() == 0 {
        assert(message == opening);
    } else {
        assert(message == opening + (", stderr: "@ + trimmed(stderr_output)));
    }
}

/// Why a round could not be dispatched.
#[derive(Debug, PartialEq, Eq)]
pub enum SpawnFailure {
    /// The process could not be started; the reason is that of the system.
    Start(String),
    /// The process runs, and its standard output cannot be read.
    StdoutUnavailable,
    /// The process runs, and its standard error cannot be read.
    StderrUnavailable,
}

/// The mathematical value of a [`SpawnFailure`].
pub ghost enum SpawnFailureView {
    Start(Seq<char>),
    StdoutUnavailable,
    StderrUnavailable,
}

impl View for SpawnFailure {
    type V = SpawnFailureView;

    open spec fn view(&self) -> SpawnFailureView {
        match self {
            SpawnFailure::Start(reason) => SpawnFailureView::Start(reason@),
            SpawnFailure::StdoutUnavailable => SpawnFailureView::StdoutUnavailable,
            SpawnFailure::StderrUnavailable => SpawnFailureView::StderrUnavailable,
        }
    }
}

/// The error that a send returns for `failure`.
pub open spec fn spawn_failure_text(failure: SpawnFailureView) -> Seq<char> {
    match failure {
        SpawnFailureView::Start(reason) => "failed to start qwen headless process: "@ + reason,
        SpawnFailureView::StdoutUnavailable => "failed to capture qwen stdout"@,
        SpawnFailureView::StderrUnavailable => "failed to capture qwen stderr"@,
    }
}

/// How a dispatch ended, with a failure by its message.
pub open spec fn dispatch_result(spawned: Result<(), SpawnFailure>) -> Result<(), Seq<char>> {
    match spawned {
        Ok(_) => Ok(()),
        Err(failure) => Err(spawn_failure_text(failure@)),
    }
}

/// The error that a send returns for `failure`.
pub fn spawn_failure_message(failure: &SpawnFailure) -> (r: String)
    ensures
        r@ == spawn_failure_text(failure@),
{
    match failure {
        SpawnFailure::Start(reason) => "failed to start qwen headless process: ".to_owned().concat(
            reason.as_str(),
        ),
        SpawnFailure::StdoutUnavailable => "failed to capture qwen stdout".to_owned(),
        SpawnFailure::StderrUnavailable => "failed to capture qwen stderr".to_owned(),
    }
}

/// How the dispatch of a round ended, as the manager takes it: a failure
/// becomes its message.
pub fn dispatch_outcome(spawned: Result<(), SpawnFailure>) -> (r: Result<(), String>)
    ensures
        crate::manager::dispatch_view(r) == dispatch_result(spawned),
{
    match spawned {
        Ok(_) => Ok(()),
        Err(failure) => Err(spawn_failure_message(&failure)),
    }
}

/// The exit code as it is reported: the number, or that a signal ended the
/// process.
pub fn describe_exit_code(code: Option<i32>) -> (r: String)
    ensures
        r@ == exit_code_text(code),
{
    match code {
        Some(c) => decimal_string(c),
        None => "terminated by signal".to_owned(),
    }
}

/// Builds the error event of a round.
pub fn emit_stream_error(round_id: u64, kind: StreamErrorKind, message: String) -> (r:
    StreamErrorPayload)
    ensures
        r@ == (StreamErrorView { round_id, kind, message: message@ }),
{
    StreamErrorPayload { round_id, kind, message }
}

/// The error event of the round `round_id` whose output could not be read,
/// where `reason` says why. It needs nothing else: whatever the exit status
/// and the standard error output turn out to be, this is the one error of the
/// round, so it can be delivered at once.
pub fn read_failure_event(round_id: u64, reason: &str) -> (r: StreamErrorPayload)
    ensures
        r@ == read_failure(round_id, reason@),
        forall|wait: Result<ExitReport, Seq<char>>, stderr_output: Seq<char>|
            #[trigger] round_end_event(round_id, Err(reason@), wait, stderr_output) == Some(r@),
{
    let message = "failed reading qwen headless stdout: ".to_owned().concat(reason);
    emit_stream_error(round_id, StreamErrorKind::ReadError, message)
}

/// Decides how the round `round_id` ended. `stream` is the decoder's summary,
/// or the reason why reading the output failed; `wait` is the exit status, or
/// the reason why it could not be had; `stderr_output` is what the process
/// wrote to standard error.
///
/// A failed read is reported whatever the exit status. A process that
/// succeeded is an error only if no chunk was produced. One that did not
/// succeed is reported with its exit code. The standard error output, trimmed,
/// is added to the message where it is not empty.
pub fn classify_round_end(
    round_id: u64,
    stream: Result<StreamSummary, String>,
    wait: Result<ExitReport, String>,
    stderr_output: &str,
) -> (r: Option<StreamErrorPayload>)
    ensures
        opt_error_view(r) == round_end_event(
            round_id,
            stream_view(stream),
            wait_view(wait),
            stderr_output@,
        ),
{
    let summary = match stream {
        Ok(summary) => summary,
        Err(reason) => {
            return Some(read_failure_event(round_id, reason.as_str()));
        },
    };
    let detail = trim_str(stderr_output);
    match wait {
        Ok(status) => {
            if status.success {
                if summary.emitted_any_chunk {
                    None
                } else {
                    let message = if detail.is_empty() {
                        "qwen completed without output".to_owned()
                    } else {
                        "qwen completed without stdout. stderr: ".to_owned().concat(detail)
                    };
                    Some(emit_stream_error(round_id, StreamErrorKind::EmptyOutput, message))
                }
            } else {
                let code_text = describe_exit_code(status.code);
                let head = "qwen exited with non-zero status: ".to_owned().concat(
                    code_text.as_str(),
                );
                let message = if detail.is_empty() {
                    head
                } else {
                    head.concat(", stderr: ").concat(detail)
                };
                Some(emit_stream_error(round_id, StreamErrorKind::CommandFailed, message))
            }
        },
        Err(reason) => {
            let message = "failed waiting qwen process: ".to_owned().concat(reason.as_str());
            Some(emit_stream_error(round_id, StreamErrorKind::WaitError, message))
        },
    }
}

} // verus!
