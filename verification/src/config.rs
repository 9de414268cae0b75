//! The immutable parameters of one watcher run.

use vstd::prelude::*;

verus! {

/// Default per-command timeout, in milliseconds.
pub const DEFAULT_COMMAND_TIMEOUT_MS: u64 = 30000;

/// Default pause between two command invocations, in milliseconds.
pub const DEFAULT_INTERVAL_MS: u64 = 1000;

/// Everything the command runner needs to know, fixed before the run starts.
///
/// All durations are wall-clock milliseconds. `watch_duration_ms == None`
/// means the run is unbounded; `setup_command == None` means no setup phase.
pub struct WatcherConfig {
    /// How long one invocation may run before the session is given up on.
    pub command_timeout_ms: u64,
    /// Pause between the end of one invocation and the start of the next.
    pub interval_ms: u64,
    /// Optional bound on the whole run, measured from the start of the loop.
    pub watch_duration_ms: Option<u64>,
    /// Optional command executed once, before the main loop.
    pub setup_command: Option<String>,
    /// The command executed on every loop pass. Never empty.
    pub main_command: String,
}

impl WatcherConfig {
    /// A usable configuration: the main command holds at least one character.
    pub open spec fn wf(self) -> bool {
        self.main_command@.len() > 0
    }

    /// Builds a configuration, rejecting an empty main command.
    pub fn new(
        main_command: String,
        setup_command: Option<String>,
        command_timeout_ms: u64,
        interval_ms: u64,
        watch_duration_ms: Option<u64>,
    ) -> (r: Option<WatcherConfig>)
        ensures
            main_command@.len() == 0 <==> r is None,
            r matches Some(c) ==> {
                &&& c.wf()
                &&& c.main_command == main_command
                &&& c.setup_command == setup_command
                &&& c.command_timeout_ms == command_timeout_ms
                &&& c.interval_ms == interval_ms
                &&& c.watch_duration_ms == watch_duration_ms
            },
    {
        if main_command.as_str().is_empty() {
            None
        } else {
            Some(WatcherConfig {
                command_timeout_ms,
                interval_ms,
                watch_duration_ms,
                setup_command,
                main_command,
            })
        }
    }

    /// Builds a configuration with the default cadence: a thirty second
    /// command timeout, a one second interval, no overall bound and no setup.
    pub fn with_defaults(main_command: String) -> (r: Option<WatcherConfig>)
        ensures
            main_command@.len() == 0 <==> r is None,
            r matches Some(c) ==> {
                &&& c.wf()
                &&& c.main_command == main_command
                &&& c.setup_command is None
                &&& c.command_timeout_ms == DEFAULT_COMMAND_TIMEOUT_MS
                &&& c.interval_ms == DEFAULT_INTERVAL_MS
                &&& c.watch_duration_ms is None
            },
    {
        WatcherConfig::new(
            main_command,
            None,
            DEFAULT_COMMAND_TIMEOUT_MS,
            DEFAULT_INTERVAL_MS,
            None,
        )
    }
}

} // verus!
