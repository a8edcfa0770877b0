//! The uniform outcome that every operation hands back to its caller.

use vstd::prelude::*;

verus! {

/// Outcome of one bridge operation: a success flag, the payload of a
/// successful run, and the message of a failed one.
#[derive(Debug, Clone, PartialEq, Eq)]
pub struct PythonResult {
    pub success: bool,
    pub data: Option<String>,
    pub error: Option<String>,
}

/// Mathematical content of a [`PythonResult`].
pub struct EnvelopeView {
    pub success: bool,
    pub data: Option<Seq<char>>,
    pub error: Option<Seq<char>>,
}

impl View for PythonResult {
    type V = EnvelopeView;

    open spec fn view(&self) -> EnvelopeView {
        EnvelopeView {
            success: self.success,
            data: match self.data {
                Some(s) => Some(s@),
                None => None,
            },
            error: match self.error {
                Some(s) => Some(s@),
                None => None,
            },
        }
    }
}

impl EnvelopeView {
    /// A successful envelope carries a payload and no error; a failed one
    /// carries an error and no payload.
    pub open spec fn well_formed(self) -> bool {
        if self.success {
            self.data is Some && self.error is None
        } else {
            self.data is None && self.error is Some
        }
    }

    /// The envelope of a run that produced `payload`.
    pub open spec fn succeeded(payload: Seq<char>) -> EnvelopeView {
        EnvelopeView { success: true, data: Some(payload), error: None }
    }

    /// The envelope of a run that failed with `message`.
    pub open spec fn failed(message: Seq<char>) -> EnvelopeView {
        EnvelopeView { success: false, data: None, error: Some(message) }
    }
}

impl PythonResult {
    /// Builds the envelope of a successful run.
    pub fn succeeded(payload: String) -> (r: PythonResult)
        ensures
            r@ == EnvelopeView::succeeded(payload@),
            r@.well_formed(),
    {
        PythonResult { success: true, data: Some(payload), error: None }
    }

    /// Builds the envelope of a failed run.
    pub fn failed(message: String) -> (r: PythonResult)
        ensures
            r@ == EnvelopeView::failed(message@),
            r@.well_formed(),
    {
        PythonResult { success: false, data: None, error: Some(message) }
    }
}

/// Builds a failed envelope that carries `error_message`.
pub fn create_error_result(error_message: &str) -> (r: PythonResult)
    ensures
        r@ == EnvelopeView::failed(error_message@),
        r@.well_formed(),
{
    PythonResult::failed(error_message.to_owned())
}

/// Size and modification time of a file, both as plain integers.
#[derive(Debug, Clone, Copy, PartialEq, Eq)]
pub struct FileInfo {
    /// Length in bytes.
    pub size: u64,
    /// Seconds between the Unix epoch and the last modification.
    pub modified: u64,
}

} // verus!
