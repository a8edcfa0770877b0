//! One backend call, step by step. The session decides; its caller looks
//! at the disk and starts the process. Each step is either a question
//! (does this path exist?), the command line to start, or the envelope of
//! a call that ended before any process was started.

use vstd::prelude::*;
use crate::command::{
    backend_command, build_backend_command, CommandLine, CommandLineView, Invocation,
    InvocationView,
};
use crate::envelope::{EnvelopeView, PythonResult};
use crate::locator::{
    beside, candidate_beside, candidate_fallback, candidate_here, fallback, here, located,
};
use crate::outcome::{
    classified, classify, ended_well, faithful_text, Completion, CompletionView,
};
use crate::paths::{join_path, joined_path, quote_path, quoted_path};
use crate::text::append_text;

verus! {

/// What precedes the quoted path when the backend directory is missing.
pub const BACKEND_MISSING_PREFIX: &'static str = "Python backend directory not found: ";

/// What precedes the quoted path when the script is missing.
pub const SCRIPT_MISSING_PREFIX: &'static str = "Python script not found: ";

/// The most questions a session asks before it settles.
pub const MAX_PROBES: usize = 4;

/// The error text for a backend directory that is not there.
pub open spec fn backend_missing_message(backend: Seq<char>) -> Seq<char> {
    BACKEND_MISSING_PREFIX@ + quoted_path(backend)
}

/// The error text for a script that is not there.
pub open spec fn script_missing_message(script_path: Seq<char>) -> Seq<char> {
    SCRIPT_MISSING_PREFIX@ + quoted_path(script_path)
}

/// Which question a session is waiting on.
enum Stage {
    /// Whether the candidate under the working directory exists.
    Here,
    /// Whether the candidate under the parent directory exists.
    Beside,
    /// Whether the chosen backend directory exists.
    Backend,
    /// Whether the script inside the chosen backend directory exists.
    Script { backend: String },
}

/// Mathematical content of the question a session is waiting on.
pub enum StageView {
    Here,
    Beside,
    Backend,
    Script { backend: Seq<char> },
}

/// A backend call that is waiting for the answer to one question: whether
/// the path [`Session::probed`] exists.
pub struct Session {
    working_dir: String,
    invocation: Invocation,
    stage: Stage,
    probed: String,
}

/// Mathematical content of a [`Session`].
pub struct SessionView {
    pub working_dir: Seq<char>,
    pub invocation: InvocationView,
    pub stage: StageView,
    pub probed: Seq<char>,
}

impl View for Session {
    type V = SessionView;

    closed spec fn view(&self) -> SessionView {
        SessionView {
            working_dir: self.working_dir@,
            invocation: self.invocation@,
            stage: match self.stage {
                Stage::Here => StageView::Here,
                Stage::Beside => StageView::Beside,
                Stage::Backend => StageView::Backend,
                Stage::Script { backend } => StageView::Script { backend: backend@ },
            },
            probed: self.probed@,
        }
    }
}

/// What the caller of a session does next.
pub enum Step {
    /// Find out whether [`Session::probed`] exists and hand the answer to
    /// [`Session::resume`].
    Probe(Session),
    /// Start this process, wait for it, and hand its end to [`conclude`].
    Spawn(CommandLine),
    /// Nothing is left to do: this is the result.
    Done(PythonResult),
}

/// Mathematical content of a [`Step`].
pub enum StepView {
    Probe(SessionView),
    Spawn(CommandLineView),
    Done(EnvelopeView),
}

impl View for Step {
    type V = StepView;

    open spec fn view(&self) -> StepView {
        match self {
            Step::Probe(session) => StepView::Probe(session@),
            Step::Spawn(cmd) => StepView::Spawn(cmd@),
            Step::Done(result) => StepView::Done(result@),
        }
    }
}

/// The first step of a call: ask about the candidate under `working_dir`.
pub open spec fn first_step(working_dir: Seq<char>, invocation: InvocationView) -> StepView {
    StepView::Probe(
        SessionView {
            working_dir,
            invocation,
            stage: StageView::Here,
            probed: candidate_here(working_dir),
        },
    )
}

/// The step that asks whether the chosen `backend` directory exists.
pub open spec fn probe_backend(session: SessionView, backend: Seq<char>) -> StepView {
    StepView::Probe(
        SessionView {
            working_dir: session.working_dir,
            invocation: session.invocation,
            stage: StageView::Backend,
            probed: backend,
        },
    )
}

/// The step that follows `session` once it is known whether the path it
/// asked about exists.
pub open spec fn next_step(session: SessionView, found: bool) -> StepView {
    match session.stage {
        StageView::Here => {
            if found {
                probe_backend(session, session.probed)
            } else {
                match candidate_beside(session.working_dir) {
                    Some(path) => StepView::Probe(
                        SessionView {
                            working_dir: session.working_dir,
                            invocation: session.invocation,
                            stage: StageView::Beside,
                            probed: path,
                        },
                    ),
                    None => probe_backend(session, candidate_fallback(session.working_dir)),
                }
            }
        },
        StageView::Beside => {
            if found {
                probe_backend(session, session.probed)
            } else {
                probe_backend(session, candidate_fallback(session.working_dir))
            }
        },
        StageView::Backend => {
            if found {
                StepView::Probe(
                    SessionView {
                        working_dir: session.working_dir,
                        invocation: session.invocation,
                        stage: StageView::Script { backend: session.probed },
                        probed: joined_path(session.probed, session.invocation.script),
                    },
                )
            } else {
                StepView::Done(EnvelopeView::failed(backend_missing_message(session.probed)))
            }
        },
        StageView::Script { backend } => {
            if found {
                StepView::Spawn(
                    backend_command(backend, session.probed, session.invocation.args),
                )
            } else {
                StepView::Done(EnvelopeView::failed(script_missing_message(session.probed)))
            }
        },
    }
}

/// Starts a call of `invocation` for a process that works in
/// `working_dir`. The first step is always a question.
pub fn begin(working_dir: String, invocation: Invocation) -> (step: Step)
    ensures
        step@ == first_step(working_dir@, invocation@),
{
    let probed = here(working_dir.as_str());
    Step::Probe(Session { working_dir, invocation, stage: Stage::Here, probed })
}

impl Session {
    /// The path whose existence the session is waiting to learn.
    pub fn probed(&self) -> (path: &str)
        ensures
            path@ == self@.probed,
    {
        self.probed.as_str()
    }

    /// Continues the call, given whether [`Session::probed`] was found.
    pub fn resume(self, found: bool) -> (step: Step)
        ensures
            step@ == next_step(self@, found),
    {
        let Session { working_dir, invocation, stage, probed } = self;
        match stage {
            Stage::Here => {
                if found {
                    Step::Probe(Session { working_dir, invocation, stage: Stage::Backend, probed })
                } else {
                    match beside(working_dir.as_str()) {
                        Some(path) => Step::Probe(
                            Session { working_dir, invocation, stage: Stage::Beside, probed: path },
                        ),
                        None => {
                            let backend = fallback(working_dir.as_str());
                            Step::Probe(
                                Session {
                                    working_dir,
                                    invocation,
                                    stage: Stage::Backend,
                                    probed: backend,
                                },
                            )
                        },
                    }
                }
            },
            Stage::Beside => {
                if found {
                    Step::Probe(Session { working_dir, invocation, stage: Stage::Backend, probed })
                } else {
                    let backend = fallback(working_dir.as_str());
                    Step::Probe(
                        Session { working_dir, invocation, stage: Stage::Backend, probed: backend },
                    )
                }
            },
            Stage::Backend => {
                if found {
                    let script_path = join_path(probed.as_str(), invocation.script.as_str());
                    Step::Probe(
                        Session {
                            working_dir,
                            invocation,
                            stage: Stage::Script { backend: probed },
                            probed: script_path,
                        },
                    )
                } else {
                    let quoted = quote_path(probed.as_str());
                    Step::Done(
                        PythonResult::failed(append_text(BACKEND_MISSING_PREFIX, quoted.as_str())),
                    )
                }
            },
            Stage::Script { backend } => {
                if found {
                    Step::Spawn(build_backend_command(backend, probed, invocation.args))
                } else {
                    let quoted = quote_path(probed.as_str());
                    Step::Done(
                        PythonResult::failed(append_text(SCRIPT_MISSING_PREFIX, quoted.as_str())),
                    )
                }
            },
        }
    }
}

/// Ends a call whose process was started: the envelope for how it ended.
pub fn conclude(completion: Completion) -> (r: PythonResult)
    ensures
        r@ == classified(completion@),
        r@.well_formed(),
        r@.success == ended_well(completion@),
        faithful_text(completion@) matches Some(text) ==> (if r@.success {
            r@.data == Some(text)
        } else {
            r@.error == Some(text)
        }),
{
    classify(completion)
}

/// Where `step` leads when each question is answered by `disk`, after at
/// most `probes` questions.
pub open spec fn settle(step: StepView, disk: spec_fn(Seq<char>) -> bool, probes: nat) -> StepView
    decreases probes,
{
    if probes == 0 {
        step
    } else {
        match step {
            StepView::Probe(session) => settle(
                next_step(session, disk(session.probed)),
                disk,
                (probes - 1) as nat,
            ),
            _ => step,
        }
    }
}

/// The backend directory that a call from `working_dir` settles on, on a
/// disk where `disk` says which paths are there.
pub open spec fn chosen_backend(working_dir: Seq<char>, disk: spec_fn(Seq<char>) -> bool) -> Seq<
    char,
> {
    located(
        working_dir,
        disk(candidate_here(working_dir)),
        match candidate_beside(working_dir) {
            Some(path) => disk(path),
            None => false,
        },
    )
}

/// What a call comes to, said directly: locate the backend; without the
/// directory, fail with its path; without the script, fail with its path;
/// else start the interpreter on the script, inside the backend directory.
pub open spec fn planned(
    working_dir: Seq<char>,
    invocation: InvocationView,
    disk: spec_fn(Seq<char>) -> bool,
) -> StepView {
    let backend = chosen_backend(working_dir, disk);
    let script_path = joined_path(backend, invocation.script);
    if !disk(backend) {
        StepView::Done(EnvelopeView::failed(backend_missing_message(backend)))
    } else if !disk(script_path) {
        StepView::Done(EnvelopeView::failed(script_missing_message(script_path)))
    } else {
        StepView::Spawn(backend_command(backend, script_path, invocation.args))
    }
}

/// The envelope of a whole call: that of the plan where no process is
/// started, else the one for how the process ended.
pub open spec fn bridged(
    working_dir: Seq<char>,
    invocation: InvocationView,
    disk: spec_fn(Seq<char>) -> bool,
    completion: CompletionView,
) -> EnvelopeView {
    match planned(working_dir, invocation, disk) {
        StepView::Done(envelope) => envelope,
        _ => classified(completion),
    }
}

/// A session that is answered truthfully about one unchanging disk settles
/// within [`MAX_PROBES`] questions, and on what [`planned`] says: it never
/// ends on a question, and it starts a process only where the backend
/// directory and the script are both there.
pub proof fn lemma_session_follows_plan(
    working_dir: Seq<char>,
    invocation: InvocationView,
    disk: spec_fn(Seq<char>) -> bool,
)
    ensures
        settle(first_step(working_dir, invocation), disk, MAX_PROBES as nat) == planned(
            working_dir,
            invocation,
            disk,
        ),
        !(planned(working_dir, invocation, disk) is Probe),
        planned(working_dir, invocation, disk) is Spawn <==> disk(
            chosen_backend(working_dir, disk),
        ) && disk(joined_path(chosen_backend(working_dir, disk), invocation.script)),
{
    reveal_with_fuel(settle, 5);
}

/// Whatever the disk holds and however the process ends, a call ends in
/// an envelope with exactly one of payload and error, the payload on
/// success and the error on failure.
pub proof fn lemma_call_ends_well_formed(
    working_dir: Seq<char>,
    invocation: InvocationView,
    disk: spec_fn(Seq<char>) -> bool,
    completion: CompletionView,
)
    ensures
        bridged(working_dir, invocation, disk, completion).well_formed(),
        bridged(working_dir, invocation, disk, completion).data is Some != bridged(
            working_dir,
            invocation,
            disk,
            completion,
        ).error is Some,
{
}

/// Where no candidate is on disk, the fallback included, the call ends
/// without a process, in a failure that names the fallback path.
pub proof fn lemma_missing_backend_fails_cleanly(
    working_dir: Seq<char>,
    invocation: InvocationView,
    disk: spec_fn(Seq<char>) -> bool,
)
    requires
        !disk(candidate_here(working_dir)),
        candidate_beside(working_dir) matches Some(path) ==> !disk(path),
        !disk(candidate_fallback(working_dir)),
    ensures
        planned(working_dir, invocation, disk) == StepView::Done(
            EnvelopeView::failed(backend_missing_message(candidate_fallback(working_dir))),
        ),
        settle(first_step(working_dir, invocation), disk, MAX_PROBES as nat) == planned(
            working_dir,
            invocation,
            disk,
        ),
{
    lemma_session_follows_plan(working_dir, invocation, disk);
}

} // verus!
