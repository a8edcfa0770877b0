//! What the bridge asks of the backend: a script with its positional
//! tokens, and the process command line that runs it.

use vstd::prelude::*;

verus! {

/// Program that runs the backend's scripts inside its own environment.
pub const INTERPRETER: &'static str = "uv";

/// First token handed to the interpreter: its subcommand.
pub const INTERPRETER_SUBCOMMAND: &'static str = "run";

/// Second token handed to the interpreter: the program it runs.
pub const INTERPRETER_TARGET: &'static str = "python";

/// One request to the backend: the script, relative to the backend
/// directory, and the positional tokens it is called with.
#[derive(Debug, Clone, PartialEq, Eq)]
pub struct Invocation {
    pub script: String,
    pub args: Vec<String>,
}

/// Mathematical content of an [`Invocation`].
pub struct InvocationView {
    pub script: Seq<char>,
    pub args: Seq<Seq<char>>,
}

impl View for Invocation {
    type V = InvocationView;

    open spec fn view(&self) -> InvocationView {
        InvocationView { script: self.script@, args: self.args.deep_view() }
    }
}

/// The request for `script` with the tokens `args`.
pub open spec fn call(script: Seq<char>, args: Seq<Seq<char>>) -> InvocationView {
    InvocationView { script, args }
}

impl Invocation {
    /// The request for `script` with the tokens `args`.
    pub fn new(script: &str, args: Vec<String>) -> (inv: Invocation)
        ensures
            inv@ == call(script@, args.deep_view()),
    {
        Invocation { script: script.to_owned(), args }
    }
}

/// A process to start: the program, its arguments in order, and the
/// directory it runs in.
#[derive(Debug, Clone, PartialEq, Eq)]
pub struct CommandLine {
    pub program: String,
    pub args: Vec<String>,
    pub working_dir: String,
}

/// Mathematical content of a [`CommandLine`].
pub struct CommandLineView {
    pub program: Seq<char>,
    pub args: Seq<Seq<char>>,
    pub working_dir: Seq<char>,
}

impl View for CommandLine {
    type V = CommandLineView;

    open spec fn view(&self) -> CommandLineView {
        CommandLineView {
            program: self.program@,
            args: self.args.deep_view(),
            working_dir: self.working_dir@,
        }
    }
}

/// The command line that runs the script at `script_path` with `args`:
/// the interpreter, told to run python on the script, then the tokens, all
/// inside the backend directory.
pub open spec fn backend_command(
    backend: Seq<char>,
    script_path: Seq<char>,
    args: Seq<Seq<char>>,
) -> CommandLineView {
    CommandLineView {
        program: INTERPRETER@,
        args: seq![INTERPRETER_SUBCOMMAND@, INTERPRETER_TARGET@, script_path] + args,
        working_dir: backend,
    }
}

/// Builds the command line that runs the script at `script_path` with
/// `args` inside `backend`.
pub fn build_backend_command(backend: String, script_path: String, args: Vec<String>) -> (cmd:
    CommandLine)
    ensures
        cmd@ == backend_command(backend@, script_path@, args.deep_view()),
{
    let mut args = args;
    let ghost tokens = args.deep_view();
    let mut full: Vec<String> = Vec::new();
    full.push(INTERPRETER_SUBCOMMAND.to_owned());
    full.push(INTERPRETER_TARGET.to_owned());
    full.push(script_path);
    full.append(&mut args);
    assert(full.deep_view() =~= seq![INTERPRETER_SUBCOMMAND@, INTERPRETER_TARGET@, script_path@]
        + tokens);
    CommandLine { program: INTERPRETER.to_owned(), args: full, working_dir: backend }
}

} // verus!
