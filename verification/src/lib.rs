//! Process invocation and result normalization for a desktop-application
//! backend bridge: deciding which executable to run with which arguments,
//! falling back between alternative executable names, packaging exit status
//! and captured output uniformly, and probing host capabilities. The host
//! side — creating processes, reading the file system, reading host
//! constants — stays outside; this library makes every decision on the
//! values the host hands back.

pub mod args;
pub mod listing;
pub mod order;
pub mod probe;
pub mod registry;
pub mod resolver;
pub mod text;

use vstd::prelude::*;

verus! {

/// Outcome of one completed process execution: exit success plus the captured
/// standard-output and standard-error streams, decoded as text.
#[derive(Debug, Clone)]
pub struct CommandResult {
    pub success: bool,
    pub output: String,
    pub error: String,
}

impl CommandResult {
    /// Packages a finished process's exit status and captured streams.
    /// `exit_ok` is true exactly when the process exited with status zero.
    pub fn from_capture(exit_ok: bool, stdout: String, stderr: String) -> (r: CommandResult)
        ensures
            r.success == exit_ok,
            r.output@ == stdout@,
            r.error@ == stderr@,
    {
        CommandResult { success: exit_ok, output: stdout, error: stderr }
    }
}

} // verus!
