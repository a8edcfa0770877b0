//! Operations whose input travels through a transient file: the input is
//! written to a file, the file's name is handed to the backend as a token,
//! and the file is removed once the backend has run, however it ended.
//!
//! The caller names the file. Two operations in flight must not share a
//! name, so a caller that serves them side by side names each file afresh.

use vstd::prelude::*;
use crate::command::{call, Invocation, InvocationView};
use crate::envelope::{EnvelopeView, PythonResult};
use crate::outcome::CompletionView;
use crate::session::{bridged, lemma_call_ends_well_formed};

verus! {

/// Script that builds splines and cross sections.
pub const GEOMETRY_TOOLS_SCRIPT: &'static str = "geometry_tools.py";

/// An operation that awaits the writing of its transient file.
#[derive(Debug, Clone, PartialEq, Eq)]
pub struct TransientJob {
    /// Name of the file to write.
    pub file_name: String,
    /// What to write into it.
    pub contents: String,
    /// The request to make once the file is written.
    pub invocation: Invocation,
}

/// Mathematical content of a [`TransientJob`].
pub struct TransientJobView {
    pub file_name: Seq<char>,
    pub contents: Seq<char>,
    pub invocation: InvocationView,
}

impl View for TransientJob {
    type V = TransientJobView;

    open spec fn view(&self) -> TransientJobView {
        TransientJobView {
            file_name: self.file_name@,
            contents: self.contents@,
            invocation: self.invocation@,
        }
    }
}

/// An operation whose transient file is on disk: the request to make, and
/// the file that is owed a removal afterwards.
#[derive(Debug, Clone, PartialEq, Eq)]
pub struct Staged {
    /// The request to make.
    pub invocation: Invocation,
    /// The file to remove once the request has been served.
    pub file_name: String,
}

/// Mathematical content of a [`Staged`].
pub struct StagedView {
    pub invocation: InvocationView,
    pub file_name: Seq<char>,
}

impl View for Staged {
    type V = StagedView;

    open spec fn view(&self) -> StagedView {
        StagedView { invocation: self.invocation@, file_name: self.file_name@ }
    }
}

/// The last thing an operation with a transient file asks for: remove this
/// file, ignore whether that worked, and hand this result back.
#[derive(Debug, Clone, PartialEq, Eq)]
pub struct Cleanup {
    /// The file to remove.
    pub file_name: String,
    /// The result of the operation.
    pub result: PythonResult,
}

/// The job that writes `contents` to `file_name` and then asks the
/// geometry script for `mode` on that file, with `extra` tokens after it.
pub open spec fn geometry_job(
    mode: Seq<char>,
    file_name: Seq<char>,
    contents: Seq<char>,
    extra: Seq<Seq<char>>,
) -> TransientJobView {
    TransientJobView {
        file_name,
        contents,
        invocation: call(GEOMETRY_TOOLS_SCRIPT@, seq![mode, file_name] + extra),
    }
}

/// Starts the building of a spline through the points in `points_json`,
/// which travel through the file `file_name`.
pub fn create_spline_from_points(points_json: String, file_name: String) -> (job: TransientJob)
    ensures
        job@ == geometry_job("spline"@, file_name@, points_json@, Seq::empty()),
{
    let args = vec!["spline".to_owned(), file_name.clone()];
    assert(args.deep_view() =~= seq!["spline"@, file_name@] + Seq::<Seq<char>>::empty());
    TransientJob {
        file_name,
        contents: points_json,
        invocation: Invocation::new(GEOMETRY_TOOLS_SCRIPT, args),
    }
}

/// Starts the generation of cross sections along the axis in `axis_json`,
/// `spacing` apart and `width` wide; both numbers come as decimal text.
/// The axis travels through the file `file_name`.
pub fn generate_cross_sections(
    axis_json: String,
    spacing: String,
    width: String,
    file_name: String,
) -> (job: TransientJob)
    ensures
        job@ == geometry_job("sections"@, file_name@, axis_json@, seq![spacing@, width@]),
{
    let args = vec!["sections".to_owned(), file_name.clone(), spacing, width];
    assert(args.deep_view() =~= seq!["sections"@, file_name@] + seq![spacing@, width@]);
    TransientJob {
        file_name,
        contents: axis_json,
        invocation: Invocation::new(GEOMETRY_TOOLS_SCRIPT, args),
    }
}

impl TransientJob {
    /// Continues after the attempt to write the transient file.
    /// `write_error` is the operating system's description of why the
    /// write failed, or `None` where it worked. A failed write ends the
    /// operation in a failed envelope that carries that description; no
    /// request is made and no file is owed a removal.
    pub fn written(self, write_error: Option<String>) -> (next: Result<Staged, PythonResult>)
        ensures
            match write_error {
                Some(message) => next matches Err(r) && r@ == EnvelopeView::failed(message@),
                None => next matches Ok(staged) && staged@ == (StagedView {
                    invocation: self@.invocation,
                    file_name: self@.file_name,
                }),
            },
            next matches Err(r) ==> r@.well_formed(),
    {
        match write_error {
            Some(message) => Err(PythonResult::failed(message)),
            None => Ok(Staged { invocation: self.invocation, file_name: self.file_name }),
        }
    }
}

impl Staged {
    /// Continues after the backend has served the request. Whatever
    /// `result` says, success or failure, the transient file is owed its
    /// removal, and the result is handed back unchanged.
    pub fn served(self, result: PythonResult) -> (cleanup: Cleanup)
        ensures
            cleanup.file_name@ == self@.file_name,
            cleanup.result == result,
    {
        Cleanup { file_name: self.file_name, result }
    }
}

/// The envelope of a whole operation with a transient file: the failed
/// write where the file could not be written, else that of the backend
/// call for the job's request.
pub open spec fn staged_result(
    job: TransientJobView,
    write_error: Option<Seq<char>>,
    working_dir: Seq<char>,
    disk: spec_fn(Seq<char>) -> bool,
    completion: CompletionView,
) -> EnvelopeView {
    match write_error {
        Some(message) => EnvelopeView::failed(message),
        None => bridged(working_dir, job.invocation, disk, completion),
    }
}

/// The backend is told the name of the file that was written: it is the
/// second token of a geometry job, whatever the name is. And the operation
/// ends in an envelope with exactly one of payload and error, whether or
/// not the file could be written.
pub proof fn lemma_transient_ends_well_formed(
    mode: Seq<char>,
    file_name: Seq<char>,
    contents: Seq<char>,
    extra: Seq<Seq<char>>,
    write_error: Option<Seq<char>>,
    working_dir: Seq<char>,
    disk: spec_fn(Seq<char>) -> bool,
    completion: CompletionView,
)
    ensures
        geometry_job(mode, file_name, contents, extra).invocation.args[1] == file_name,
        geometry_job(mode, file_name, contents, extra).contents == contents,
        staged_result(
            geometry_job(mode, file_name, contents, extra),
            write_error,
            working_dir,
            disk,
            completion,
        ).well_formed(),
{
    lemma_call_ends_well_formed(
        working_dir,
        geometry_job(mode, file_name, contents, extra).invocation,
        disk,
        completion,
    );
}

} // verus!
