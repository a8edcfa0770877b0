//! How a finished, or never started, backend process becomes an envelope.

use vstd::prelude::*;
use vstd::utf8::{decode_utf8, valid_utf8};
use crate::envelope::{EnvelopeView, PythonResult};
use crate::text::append_text;

verus! {

/// What precedes the operating system's words when the interpreter could
/// not be started.
pub const SPAWN_FAILURE_PREFIX: &'static str = "Failed to execute Python script: ";

/// The text that `String::from_utf8_lossy` makes of `bytes`: the decoded
/// text, with U+FFFD in place of each malformed sequence.
pub uninterp spec fn lossy_text(bytes: Seq<u8>) -> Seq<char>;

/// Decodes `bytes` with `String::from_utf8_lossy`. The contract names the
/// result, and says that well-formed UTF-8 decodes to the text it encodes.
#[verifier::external_body]
pub(crate) fn decode_lossy(bytes: &Vec<u8>) -> (text: String)
    ensures
        text@ == lossy_text(bytes@),
        valid_utf8(bytes@) ==> text@ == decode_utf8(bytes@),
{
    String::from_utf8_lossy(bytes).into_owned()
}

/// What a backend process left behind when it ended.
#[derive(Debug, Clone, PartialEq, Eq)]
pub struct ProcessOutput {
    /// The exit code; `None` where the process ended without one.
    pub exit_code: Option<i32>,
    /// Everything written to standard output.
    pub stdout: Vec<u8>,
    /// Everything written to standard error.
    pub stderr: Vec<u8>,
}

/// How an attempt to run the backend ended.
#[derive(Debug, Clone, PartialEq, Eq)]
pub enum Completion {
    /// The process ran and ended.
    Exited(ProcessOutput),
    /// The process could not be started; the text is the operating
    /// system's description of why.
    SpawnFailed(String),
}

/// Mathematical content of a [`Completion`].
pub enum CompletionView {
    Exited { exit_code: Option<i32>, stdout: Seq<u8>, stderr: Seq<u8> },
    SpawnFailed { os_error: Seq<char> },
}

impl View for Completion {
    type V = CompletionView;

    open spec fn view(&self) -> CompletionView {
        match self {
            Completion::Exited(output) => CompletionView::Exited {
                exit_code: output.exit_code,
                stdout: output.stdout@,
                stderr: output.stderr@,
            },
            Completion::SpawnFailed(os_error) => CompletionView::SpawnFailed {
                os_error: os_error@,
            },
        }
    }
}

/// Whether the process ran and ended with exit code zero.
pub open spec fn ended_well(completion: CompletionView) -> bool {
    match completion {
        CompletionView::Exited { exit_code, .. } => exit_code == Some(0i32),
        CompletionView::SpawnFailed { .. } => false,
    }
}

/// The envelope for a completion. Exit code zero is success and carries
/// standard output; any other end of the process is a failure and carries
/// standard error; a process that never started is a failure that carries
/// the operating system's words.
pub open spec fn classified(completion: CompletionView) -> EnvelopeView {
    match completion {
        CompletionView::Exited { exit_code, stdout, stderr } => {
            if ended_well(completion) {
                EnvelopeView::succeeded(lossy_text(stdout))
            } else {
                EnvelopeView::failed(lossy_text(stderr))
            }
        },
        CompletionView::SpawnFailed { os_error } => EnvelopeView::failed(
            SPAWN_FAILURE_PREFIX@ + os_error,
        ),
    }
}

/// The text that a process wrote on the stream its envelope carries, where
/// the process ran and that stream holds well-formed UTF-8: standard
/// output after exit code zero, standard error after any other end.
pub open spec fn faithful_text(completion: CompletionView) -> Option<Seq<char>> {
    match completion {
        CompletionView::Exited { exit_code, stdout, stderr } => {
            let carried = if ended_well(completion) {
                stdout
            } else {
                stderr
            };
            if valid_utf8(carried) {
                Some(decode_utf8(carried))
            } else {
                None
            }
        },
        CompletionView::SpawnFailed { .. } => None,
    }
}

/// Turns the end of a backend run into the envelope its caller receives.
/// Well-formed UTF-8 on the carried stream arrives as the text it encodes.
pub fn classify(completion: Completion) -> (r: PythonResult)
    ensures
        r@ == classified(completion@),
        r@.well_formed(),
        r@.success == ended_well(completion@),
        faithful_text(completion@) matches Some(text) ==> (if r@.success {
            r@.data == Some(text)
        } else {
            r@.error == Some(text)
        }),
{
    match completion {
        Completion::Exited(output) => {
            let zero = match output.exit_code {
                Some(code) => code == 0,
                None => false,
            };
            if zero {
                PythonResult::succeeded(decode_lossy(&output.stdout))
            } else {
                PythonResult::failed(decode_lossy(&output.stderr))
            }
        },
        Completion::SpawnFailed(os_error) => PythonResult::failed(
            append_text(SPAWN_FAILURE_PREFIX, os_error.as_str()),
        ),
    }
}

} // verus!
