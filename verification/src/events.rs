//! The typed events a run emits to its consumers.

use vstd::prelude::*;

verus! {

/// The captured result of one command invocation.
///
/// Iteration 0 is reserved for the setup phase; main-loop iterations are
/// numbered from 1 upwards with no gaps.
pub struct WatcherIterationOutput {
    /// 0 for the setup phase, otherwise the main-loop pass number.
    pub iteration: usize,
    /// Everything the command wrote, up to but excluding the sentinel.
    pub output: String,
    /// Wall-clock timestamp of the capture, in milliseconds.
    pub captured_at_ms: u64,
}

/// One event on the pipeline from the command runner to its consumers.
///
/// A run emits at most one `SetupResult`, then `IterationResult`s in
/// iteration order, and exactly one `End`, always last.
pub enum WatcherOutputEvent {
    /// The setup command finished; carries iteration number 0.
    SetupResult(WatcherIterationOutput),
    /// One main-loop pass finished.
    IterationResult(WatcherIterationOutput),
    /// The run is over and the shell session has been killed.
    End,
}

} // verus!
