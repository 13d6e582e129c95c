//! Commands that the installer asks its host to run.

use crate::text::{opt_text, texts};
use vstd::prelude::*;

verus! {

/// One run of a program: the program, its arguments in order, the directory
/// it runs in (the caller's where there is none), and whether what it prints
/// is thrown away.
pub struct Invocation {
    pub program: String,
    pub args: Vec<String>,
    pub dir: Option<String>,
    pub quiet: bool,
}

/// An invocation as plain texts.
pub struct InvocationView {
    pub program: Seq<char>,
    pub args: Seq<Seq<char>>,
    pub dir: Option<Seq<char>>,
    pub quiet: bool,
}

impl View for Invocation {
    type V = InvocationView;

    open spec fn view(&self) -> InvocationView {
        InvocationView {
            program: self.program@,
            args: texts(self.args@),
            dir: opt_text(self.dir),
            quiet: self.quiet,
        }
    }
}

/// How a run ended: the program reported success, it reported failure, or
/// it could not be started at all.
#[derive(Clone, Copy, Debug, PartialEq, Eq, Structural)]
pub enum Exit {
    Success,
    Failure,
    Unavailable,
}

/// The views of a sequence of invocations.
pub open spec fn invocations(v: Seq<Invocation>) -> Seq<InvocationView> {
    Seq::new(v.len(), |i: int| v[i]@)
}

/// The shell command that tells whether `tool` can be found on the search
/// path.
pub open spec fn lookup_script(tool: Seq<char>) -> Seq<char> {
    "command -v "@ + tool
}

/// The run that tells whether `tool` can be found on the search path: the
/// shell's own lookup, with nothing shown.
pub open spec fn lookup_of(tool: Seq<char>) -> InvocationView {
    InvocationView {
        program: "sh"@,
        args: seq!["-c"@, lookup_script(tool)],
        dir: None,
        quiet: true,
    }
}

/// The run that tells whether `tool` can be found on the search path.
pub fn lookup(tool: &str) -> (r: Invocation)
    ensures
        r@ == lookup_of(tool@),
{
    let mut script = "command -v ".to_owned();
    vstd::string::StringExecFns::append(&mut script, tool);
    let mut args: Vec<String> = Vec::new();
    args.push("-c".to_owned());
    args.push(script);
    assert(texts(args@) =~= seq!["-c"@, lookup_script(tool@)]);
    Invocation { program: "sh".to_owned(), args, dir: None, quiet: true }
}

} // verus!
