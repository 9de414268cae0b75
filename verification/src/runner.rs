//! The command runner: the decision core of a watcher run.
//!
//! The runner is a state machine. A driver owns the shell session, the event
//! transport, the clock and the cancellation flag; it performs each
//! [`RunnerAction`] the machine asks for, hands the outcome back as a
//! [`RunnerInput`], and sends each emitted [`WatcherOutputEvent`] down the
//! pipeline in the order the machine returns them. Every decision — iteration
//! numbering, when to stop, what is fatal, that the session is killed before
//! the final event — is made here and verified; the driver only moves bytes,
//! sleeps and reads clocks.
//!
//! A run goes: optional setup, then repeatedly execute the main command, emit
//! its result, check cancellation and the watch duration, sleep one interval,
//! check again, and loop. Any execution failure, a set cancellation flag or an
//! exceeded watch duration leads to the terminating phase, which kills the
//! session and then emits the final event.

use vstd::prelude::*;

use crate::config::WatcherConfig;
use crate::errors::ExecError;
use crate::events::{WatcherIterationOutput, WatcherOutputEvent};

verus! {

/// Ghost record of one emitted event: what kind, and for which iteration.
pub enum EventLabel {
    /// A `SetupResult` event (iteration 0).
    SetupDone,
    /// An `IterationResult` event for the given iteration number.
    IterDone(usize),
    /// The final `End` event.
    Ended,
}

/// Where the runner stands between two inputs.
pub enum RunnerPhase {
    /// The setup command is executing.
    SettingUp,
    /// The main command is executing for iteration `completed + 1`.
    Executing,
    /// An iteration was emitted; the driver is reading the cancellation flag
    /// and the elapsed time.
    CheckingStatus,
    /// The driver is sleeping one interval; afterwards it reports the
    /// cancellation flag and the elapsed time again.
    Sleeping,
    /// The run is over; the driver is killing the shell session.
    Terminating,
    /// The session is killed and the final event emitted. No further step.
    Terminated,
}

/// What the driver must do next.
pub enum RunnerAction {
    /// Execute the configured setup command; report `ExecCompleted` or
    /// `ExecFailed`.
    RunSetupCommand,
    /// Execute the configured main command; report `ExecCompleted` or
    /// `ExecFailed`.
    RunMainCommand,
    /// Read the cancellation flag and the elapsed time; report `StatusReport`.
    ObserveStatus,
    /// Sleep one configured interval; report `SleepFinished` with the
    /// cancellation flag and the elapsed time as of waking.
    SleepInterval,
    /// Kill the shell session; report `KillCompleted`.
    KillSession,
    /// Nothing is left to do.
    Finish,
}

/// What the driver observed while performing the requested action.
pub enum RunnerInput {
    /// The command ran and its output was captured.
    ExecCompleted { output: String, captured_at_ms: u64 },
    /// The capture failed; the session can no longer be trusted.
    ExecFailed { error: ExecError },
    /// Cancellation flag and elapsed run time, read after an iteration.
    StatusReport { cancelled: bool, elapsed_ms: u64 },
    /// Cancellation flag and elapsed run time, read after the sleep.
    SleepFinished { cancelled: bool, elapsed_ms: u64 },
    /// The session kill finished; `clean` is false if killing failed, which
    /// ends the run all the same.
    KillCompleted { clean: bool },
}

/// One transition's outcome: at most one event to send, and the next action.
pub struct StepResult {
    /// Event to send down the pipeline, in order, before the next action.
    pub emit: Option<WatcherOutputEvent>,
    /// What the driver must do next.
    pub action: RunnerAction,
}

/// The watch duration is configured and the elapsed time has exceeded it.
pub open spec fn over_duration(config: WatcherConfig, elapsed_ms: u64) -> bool {
    config.watch_duration_ms matches Some(d) && elapsed_ms > d
}

/// The event log a run shows after `completed` iterations: the setup event if
/// the setup phase finished, then one iteration event per pass, numbered from
/// 1 with no gaps, then the final event exactly when the run has ended.
pub open spec fn expected_log(setup_done: bool, completed: usize, ended: bool) -> Seq<EventLabel> {
    (if setup_done { seq![EventLabel::SetupDone] } else { Seq::<EventLabel>::empty() })
        + Seq::<EventLabel>::new(completed as nat, |i: int| EventLabel::IterDone((i + 1) as usize))
        + (if ended { seq![EventLabel::Ended] } else { Seq::<EventLabel>::empty() })
}

/// The command runner's state.
pub struct CommandRunner {
    /// The run's immutable parameters.
    pub config: WatcherConfig,
    /// Main-loop iterations emitted so far.
    pub completed: usize,
    /// Whether the setup event has been emitted.
    pub setup_done: bool,
    /// Where the machine stands.
    pub phase: RunnerPhase,
    /// The fatal execution error, if one ended the run.
    pub error: Option<ExecError>,
    /// Whether the session kill reported success. Meaningful once terminated.
    pub kill_clean: bool,
    /// Ghost log of every event emitted so far, in emission order.
    pub log: Ghost<Seq<EventLabel>>,
}

impl CommandRunner {
    /// The machine's invariant, preserved by every step.
    pub open spec fn inv(self) -> bool {
        &&& self.config.wf()
        &&& self.log@ == expected_log(
            self.setup_done,
            self.completed,
            self.phase is Terminated,
        )
        &&& self.phase is SettingUp ==> {
            &&& !self.setup_done
            &&& self.completed == 0
            &&& self.config.setup_command is Some
        }
        &&& self.setup_done ==> self.config.setup_command is Some
        &&& ((self.phase is Executing || self.phase is CheckingStatus || self.phase is Sleeping)
            && self.config.setup_command is Some) ==> self.setup_done
        &&& (self.phase is CheckingStatus || self.phase is Sleeping) ==> self.completed >= 1
        &&& (self.phase is SettingUp || self.phase is Executing || self.phase is CheckingStatus
            || self.phase is Sleeping) ==> self.error is None
    }

    /// Which inputs a phase accepts: exactly the outcome of the action the
    /// machine last asked for.
    pub open spec fn expects(self, input: RunnerInput) -> bool {
        match self.phase {
            RunnerPhase::SettingUp => input is ExecCompleted || input is ExecFailed,
            RunnerPhase::Executing => input is ExecCompleted || input is ExecFailed,
            RunnerPhase::CheckingStatus => input is StatusReport,
            RunnerPhase::Sleeping => input is SleepFinished,
            RunnerPhase::Terminating => input is KillCompleted,
            RunnerPhase::Terminated => false,
        }
    }

    /// Starts a run: the setup command executes first if one is configured,
    /// else the first main-loop pass starts at once.
    pub fn new(config: WatcherConfig) -> (r: (CommandRunner, RunnerAction))
        requires
            config.wf(),
        ensures
            r.0.inv(),
            r.0.config == config,
            r.0.completed == 0,
            !r.0.setup_done,
            r.0.error is None,
            r.0.log@ == Seq::<EventLabel>::empty(),
            match config.setup_command {
                Some(_) => r.0.phase is SettingUp && r.1 is RunSetupCommand,
                None => r.0.phase is Executing && r.1 is RunMainCommand,
            },
    {
        let has_setup = match &config.setup_command {
            Some(_) => true,
            None => false,
        };
        let runner = CommandRunner {
            config,
            completed: 0,
            setup_done: false,
            phase: if has_setup { RunnerPhase::SettingUp } else { RunnerPhase::Executing },
            error: None,
            kill_clean: false,
            log: Ghost(Seq::empty()),
        };
        let action = if has_setup {
            RunnerAction::RunSetupCommand
        } else {
            RunnerAction::RunMainCommand
        };
        proof {
            assert(runner.log@ =~= expected_log(false, 0, false));
        }
        (runner, action)
    }
}

/// The full transition relation of one step: from state `pre`, on `input`,
/// the machine moves to `post`, emits `r.emit` and asks for `r.action`.
pub open spec fn step_spec(
    pre: CommandRunner,
    input: RunnerInput,
    post: CommandRunner,
    r: StepResult,
) -> bool {
    &&& post.config == pre.config
    &&& match pre.phase {
        RunnerPhase::SettingUp => match input {
            RunnerInput::ExecCompleted { output, captured_at_ms } => {
                &&& post.phase is Executing
                &&& post.setup_done
                &&& post.completed == 0
                &&& post.error is None
                &&& post.log@ == pre.log@ + seq![EventLabel::SetupDone]
                &&& r.action is RunMainCommand
                &&& r.emit matches Some(WatcherOutputEvent::SetupResult(o))
                    && o.iteration == 0
                    && o.output == output
                    && o.captured_at_ms == captured_at_ms
            },
            RunnerInput::ExecFailed { error } => {
                &&& post.phase is Terminating
                &&& post.error == Some(error)
                &&& post.setup_done == pre.setup_done
                &&& post.completed == pre.completed
                &&& post.log@ == pre.log@
                &&& r.action is KillSession
                &&& r.emit is None
            },
            _ => false,
        },
        RunnerPhase::Executing => match input {
            RunnerInput::ExecCompleted { output, captured_at_ms } => {
                &&& post.phase is CheckingStatus
                &&& post.completed == pre.completed + 1
                &&& post.setup_done == pre.setup_done
                &&& post.error is None
                &&& post.log@ == pre.log@ + seq![
                    EventLabel::IterDone((pre.completed + 1) as usize),
                ]
                &&& r.action is ObserveStatus
                &&& r.emit matches Some(WatcherOutputEvent::IterationResult(o))
                    && o.iteration == pre.completed + 1
                    && o.output == output
                    && o.captured_at_ms == captured_at_ms
            },
            RunnerInput::ExecFailed { error } => {
                &&& post.phase is Terminating
                &&& post.error == Some(error)
                &&& post.setup_done == pre.setup_done
                &&& post.completed == pre.completed
                &&& post.log@ == pre.log@
                &&& r.action is KillSession
                &&& r.emit is None
            },
            _ => false,
        },
        RunnerPhase::CheckingStatus => match input {
            RunnerInput::StatusReport { cancelled, elapsed_ms } => {
                &&& post.completed == pre.completed
                &&& post.setup_done == pre.setup_done
                &&& post.error == pre.error
                &&& post.log@ == pre.log@
                &&& r.emit is None
                &&& if cancelled || over_duration(pre.config, elapsed_ms) {
                    post.phase is Terminating && r.action is KillSession
                } else {
                    post.phase is Sleeping && r.action is SleepInterval
                }
            },
            _ => false,
        },
        RunnerPhase::Sleeping => match input {
            RunnerInput::SleepFinished { cancelled, elapsed_ms } => {
                &&& post.completed == pre.completed
                &&& post.setup_done == pre.setup_done
                &&& post.error == pre.error
                &&& post.log@ == pre.log@
                &&& r.emit is None
                &&& if cancelled || over_duration(pre.config, elapsed_ms) {
                    post.phase is Terminating && r.action is KillSession
                } else {
                    post.phase is Executing && r.action is RunMainCommand
                }
            },
            _ => false,
        },
        RunnerPhase::Terminating => match input {
            RunnerInput::KillCompleted { clean } => {
                &&& post.phase is Terminated
                &&& post.completed == pre.completed
                &&& post.setup_done == pre.setup_done
                &&& post.error == pre.error
                &&& post.kill_clean == clean
                &&& post.log@ == pre.log@ + seq![EventLabel::Ended]
                &&& r.action is Finish
                &&& r.emit matches Some(e) && e is End
            },
            _ => false,
        },
        RunnerPhase::Terminated => false,
    }
}

impl CommandRunner {
    /// Performs one transition.
    ///
    /// The driver calls this with the outcome of the action the machine asked
    /// for last, sends the returned event (if any) down the pipeline, then
    /// performs the returned action.
    pub fn step(&mut self, input: RunnerInput) -> (r: StepResult)
        requires
            old(self).inv(),
            old(self).expects(input),
            old(self).completed < usize::MAX,
        ensures
            final(self).inv(),
            step_spec(*old(self), input, *final(self), r),
    {
        match self.phase {
            RunnerPhase::SettingUp => match input {
                RunnerInput::ExecCompleted { output, captured_at_ms } => {
                    self.setup_done = true;
                    self.phase = RunnerPhase::Executing;
                    proof {
                        self.log@ = self.log@ + seq![EventLabel::SetupDone];
                        assert(self.log@ =~= expected_log(true, 0, false));
                    }
                    StepResult {
                        emit: Some(WatcherOutputEvent::SetupResult(WatcherIterationOutput {
                            iteration: 0,
                            output,
                            captured_at_ms,
                        })),
                        action: RunnerAction::RunMainCommand,
                    }
                },
                RunnerInput::ExecFailed { error } => {
                    self.phase = RunnerPhase::Terminating;
                    self.error = Some(error);
                    StepResult { emit: None, action: RunnerAction::KillSession }
                },
                _ => {
                    proof {
                        assert(false);
                    }
                    StepResult { emit: None, action: RunnerAction::Finish }
                },
            },
            RunnerPhase::Executing => match input {
                RunnerInput::ExecCompleted { output, captured_at_ms } => {
                    self.completed = self.completed + 1;
                    self.phase = RunnerPhase::CheckingStatus;
                    proof {
                        self.log@ = self.log@ + seq![EventLabel::IterDone(self.completed)];
                        assert(self.log@ =~= expected_log(
                            self.setup_done,
                            self.completed,
                            false,
                        ));
                    }
                    StepResult {
                        emit: Some(WatcherOutputEvent::IterationResult(WatcherIterationOutput {
                            iteration: self.completed,
                            output,
                            captured_at_ms,
                        })),
                        action: RunnerAction::ObserveStatus,
                    }
                },
                RunnerInput::ExecFailed { error } => {
                    self.phase = RunnerPhase::Terminating;
                    self.error = Some(error);
                    StepResult { emit: None, action: RunnerAction::KillSession }
                },
                _ => {
                    proof {
                        assert(false);
                    }
                    StepResult { emit: None, action: RunnerAction::Finish }
                },
            },
            RunnerPhase::CheckingStatus => match input {
                RunnerInput::StatusReport { cancelled, elapsed_ms } => {
                    if cancelled || self.past_duration(elapsed_ms) {
                        self.phase = RunnerPhase::Terminating;
                        StepResult { emit: None, action: RunnerAction::KillSession }
                    } else {
                        self.phase = RunnerPhase::Sleeping;
                        StepResult { emit: None, action: RunnerAction::SleepInterval }
                    }
                },
                _ => {
                    proof {
                        assert(false);
                    }
                    StepResult { emit: None, action: RunnerAction::Finish }
                },
            },
            RunnerPhase::Sleeping => match input {
                RunnerInput::SleepFinished { cancelled, elapsed_ms } => {
                    if cancelled || self.past_duration(elapsed_ms) {
                        self.phase = RunnerPhase::Terminating;
                        StepResult { emit: None, action: RunnerAction::KillSession }
                    } else {
                        self.phase = RunnerPhase::Executing;
                        StepResult { emit: None, action: RunnerAction::RunMainCommand }
                    }
                },
                _ => {
                    proof {
                        assert(false);
                    }
                    StepResult { emit: None, action: RunnerAction::Finish }
                },
            },
            RunnerPhase::Terminating => match input {
                RunnerInput::KillCompleted { clean } => {
                    self.phase = RunnerPhase::Terminated;
                    self.kill_clean = clean;
                    proof {
                        self.log@ = self.log@ + seq![EventLabel::Ended];
                        assert(self.log@ =~= expected_log(
                            self.setup_done,
                            self.completed,
                            true,
                        ));
                    }
                    StepResult { emit: Some(WatcherOutputEvent::End), action: RunnerAction::Finish }
                },
                _ => {
                    proof {
                        assert(false);
                    }
                    StepResult { emit: None, action: RunnerAction::Finish }
                },
            },
            RunnerPhase::Terminated => {
                proof {
                    assert(false);
                }
                StepResult { emit: None, action: RunnerAction::Finish }
            },
        }
    }

    /// The configured watch duration exists and `elapsed_ms` exceeds it.
    pub fn past_duration(&self, elapsed_ms: u64) -> (r: bool)
        ensures
            r == over_duration(self.config, elapsed_ms),
    {
        match &self.config.watch_duration_ms {
            Some(d) => elapsed_ms > *d,
            None => false,
        }
    }
}

/// Law: the iteration events in a run's log are numbered 1, 2, 3, ... in
/// emission order — strictly increasing, starting at 1, with no gaps and no
/// repeats — and the log holds nothing else besides the setup event in front
/// and the final event at the back.
pub proof fn lemma_iterations_numbered(r: CommandRunner)
    requires
        r.inv(),
    ensures
        ({
            let s: int = if r.setup_done { 1 } else { 0 };
            &&& r.log@.len() == s + r.completed + (if r.phase is Terminated { 1int } else { 0 })
            &&& forall|i: int| 0 <= i < r.completed
                ==> (#[trigger] r.log@[s + i]) == EventLabel::IterDone((i + 1) as usize)
            &&& forall|i: int, j: int| 0 <= i < j < r.completed
                ==> (#[trigger] r.log@[s + i])->0 < (#[trigger] r.log@[s + j])->0
        }),
{
    let s: int = if r.setup_done { 1 } else { 0 };
    assert forall|i: int| 0 <= i < r.completed implies (#[trigger] r.log@[s + i])
        == EventLabel::IterDone((i + 1) as usize) by {
        assert(r.log@[s + i] == expected_log(r.setup_done, r.completed, r.phase is Terminated)[s
            + i]);
    }
}

/// Law: a run emits exactly one final event, and only as the last event of
/// its log: a log position holds the final event exactly when the run has
/// terminated and the position is the log's last.
pub proof fn lemma_single_termination(r: CommandRunner)
    requires
        r.inv(),
    ensures
        forall|i: int| 0 <= i < r.log@.len()
            ==> ((#[trigger] r.log@[i]) is Ended <==> (r.phase is Terminated && i == r.log@.len()
                - 1)),
        r.phase is Terminated ==> r.log@.len() >= 1 && r.log@.last() is Ended,
{
    let s: int = if r.setup_done { 1 } else { 0 };
    assert forall|i: int| 0 <= i < r.log@.len() implies ((#[trigger] r.log@[i]) is Ended <==> (
    r.phase is Terminated && i == r.log@.len() - 1)) by {
        assert(r.log@[i] == expected_log(r.setup_done, r.completed, r.phase is Terminated)[i]);
    }
}

/// Law: a run whose watch duration is already exceeded when the first status
/// check happens still completes the setup phase and the first main-loop
/// iteration: the duration check runs only after an iteration's event is
/// emitted, never before.
pub proof fn lemma_short_duration_first_check(
    r0: CommandRunner,
    in1: RunnerInput,
    r1: CommandRunner,
    s1: StepResult,
    in2: RunnerInput,
    r2: CommandRunner,
    s2: StepResult,
    in3: RunnerInput,
    r3: CommandRunner,
    s3: StepResult,
    in4: RunnerInput,
    r4: CommandRunner,
    s4: StepResult,
)
    requires
        r0.inv(),
        r0.phase is SettingUp,
        r0.log@ == Seq::<EventLabel>::empty(),
        in1 is ExecCompleted,
        step_spec(r0, in1, r1, s1),
        in2 is ExecCompleted,
        step_spec(r1, in2, r2, s2),
        in3 matches RunnerInput::StatusReport { cancelled, elapsed_ms } && !cancelled
            && over_duration(r0.config, elapsed_ms),
        step_spec(r2, in3, r3, s3),
        in4 is KillCompleted,
        step_spec(r3, in4, r4, s4),
    ensures
        s1.emit matches Some(e) && e is SetupResult,
        s2.emit matches Some(e) && e is IterationResult,
        r4.phase is Terminated,
        r4.completed == 1,
        r4.error is None,
        r4.log@ == seq![EventLabel::SetupDone, EventLabel::IterDone(1), EventLabel::Ended],
{
    assert(r4.log@ =~= seq![EventLabel::SetupDone, EventLabel::IterDone(1), EventLabel::Ended]);
}

/// Law: with a watch duration shorter than the interval, a run that is not
/// cancelled performs the setup phase and exactly one main-loop iteration.
/// The first status check happens right after the first iteration's event; if
/// it passes, the sleep that follows lasts one full interval, so the check
/// after the sleep observes an elapsed time of at least one interval, which
/// exceeds the watch duration, and the run terminates without starting a
/// second iteration.
pub proof fn lemma_short_duration_single_iteration(
    r0: CommandRunner,
    in1: RunnerInput,
    r1: CommandRunner,
    s1: StepResult,
    in2: RunnerInput,
    r2: CommandRunner,
    s2: StepResult,
    in3: RunnerInput,
    r3: CommandRunner,
    s3: StepResult,
    in4: RunnerInput,
    r4: CommandRunner,
    s4: StepResult,
    in5: RunnerInput,
    r5: CommandRunner,
    s5: StepResult,
)
    requires
        r0.inv(),
        r0.phase is SettingUp,
        r0.log@ == Seq::<EventLabel>::empty(),
        r0.config.watch_duration_ms matches Some(d) && d < r0.config.interval_ms,
        in1 is ExecCompleted,
        step_spec(r0, in1, r1, s1),
        in2 is ExecCompleted,
        step_spec(r1, in2, r2, s2),
        in3 matches RunnerInput::StatusReport { cancelled, elapsed_ms } && !cancelled
            && !over_duration(r0.config, elapsed_ms),
        step_spec(r2, in3, r3, s3),
        in4 matches RunnerInput::SleepFinished { cancelled, elapsed_ms } && !cancelled
            && elapsed_ms >= r0.config.interval_ms,
        step_spec(r3, in4, r4, s4),
        in5 is KillCompleted,
        step_spec(r4, in5, r5, s5),
    ensures
        r4.phase is Terminating,
        s4.action is KillSession,
        r5.phase is Terminated,
        r5.completed == 1,
        r5.error is None,
        r5.log@ == seq![EventLabel::SetupDone, EventLabel::IterDone(1), EventLabel::Ended],
{
    assert(over_duration(r0.config, in4->SleepFinished_elapsed_ms));
    assert(r5.log@ =~= seq![EventLabel::SetupDone, EventLabel::IterDone(1), EventLabel::Ended]);
}

/// Law: if the cancellation signal is observed at the end of iteration k's
/// sleep, no iteration k+1 is started: the machine asks for the session kill
/// at once, and the run ends having completed exactly the k iterations it had
/// already emitted.
pub proof fn lemma_cancellation_stops_next_iteration(
    r0: CommandRunner,
    in1: RunnerInput,
    r1: CommandRunner,
    s1: StepResult,
    in2: RunnerInput,
    r2: CommandRunner,
    s2: StepResult,
)
    requires
        r0.inv(),
        r0.phase is Sleeping,
        in1 matches RunnerInput::SleepFinished { cancelled, .. } && cancelled,
        step_spec(r0, in1, r1, s1),
        in2 is KillCompleted,
        step_spec(r1, in2, r2, s2),
    ensures
        s1.action is KillSession,
        s1.emit is None,
        r1.phase is Terminating,
        r1.completed == r0.completed,
        r2.phase is Terminated,
        r2.completed == r0.completed,
        r2.log@ == r0.log@ + seq![EventLabel::Ended],
{
}

/// Law: a failed capture is fatal to the run: the machine records the error,
/// emits no result for the failed invocation and asks for the session kill at
/// once.
pub proof fn lemma_exec_failure_fatal(
    pre: CommandRunner,
    input: RunnerInput,
    post: CommandRunner,
    s: StepResult,
)
    requires
        pre.inv(),
        pre.phase is SettingUp || pre.phase is Executing,
        input is ExecFailed,
        step_spec(pre, input, post, s),
    ensures
        post.phase is Terminating,
        post.error == Some(input->error),
        s.action is KillSession,
        s.emit is None,
        post.log@ == pre.log@,
{
}

/// Law: the run reaches its terminated state only by way of the session
/// kill: whatever the step, a terminated post state means the machine was in
/// its terminating phase and the driver confirmed the kill. The session is
/// therefore released on every exit path, fatal errors included.
pub proof fn lemma_terminated_only_after_kill(
    pre: CommandRunner,
    input: RunnerInput,
    post: CommandRunner,
    s: StepResult,
)
    requires
        step_spec(pre, input, post, s),
    ensures
        post.phase is Terminated ==> (pre.phase is Terminating && input is KillCompleted),
{
}

} // verus!
