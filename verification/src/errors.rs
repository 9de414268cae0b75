//! The failure taxonomy of a watcher run.

use vstd::prelude::*;

verus! {

/// Why a command invocation produced no captured output.
///
/// Either error is fatal to the run: after a timeout the shell may still be
/// executing the hung command, and after a closed stream the shell process is
/// gone, so in both cases the session can no longer be trusted to frame the
/// next command's output correctly.
#[derive(Clone, Copy, PartialEq, Eq, Structural, Debug)]
pub enum ExecError {
    /// The sentinel was not observed within the command timeout.
    Timeout,
    /// The shell's output stream ended before the sentinel appeared.
    StreamClosed,
}

} // verus!
