//! Interpretation of a finished shell command. Running the command is the
//! caller's I/O; this is the one rule every pass-through invocation
//! follows: a successful exit yields the captured stdout, a failing one
//! yields its stderr as the failure detail.

use vstd::prelude::*;

verus! {

/// What the OS reports once a spawned command has finished: whether its
/// exit status was success, and the captured output streams.
#[derive(Clone, Debug)]
pub struct CommandOutput {
    pub success: bool,
    pub stdout: String,
    pub stderr: String,
}

/// A failing command's diagnostic: the stderr it produced.
#[derive(Clone, PartialEq, Eq, Debug)]
pub struct CommandFailure {
    pub stderr: String,
}

/// Turns a finished command's raw output into the caller-facing result:
/// stdout on success, stderr as the failure detail otherwise.
pub fn interpret_output(out: CommandOutput) -> (r: Result<String, CommandFailure>)
    ensures
        out.success ==> (r matches Ok(s) && s@ == out.stdout@),
        !out.success ==> (r matches Err(e) && e.stderr@ == out.stderr@),
{
    if out.success {
        Ok(out.stdout)
    } else {
        Err(CommandFailure { stderr: out.stderr })
    }
}

} // verus!
