//! The supervisor loop: wait for the preconditions, start the command,
//! watch it, and decide whether it is run again.
//!
//! The caller carries out one action at a time and reports how it ended;
//! the supervisor answers with the next action. A wait phase that fails, a
//! command that cannot be started, a failed health check and a watch phase
//! that times out each end the run with the failure code at once. Only a
//! process that ended by itself is put to the retry decision.

use crate::config::RetryConfig;
use crate::duration::Duration;
use crate::process::{exit_code_for, exit_code_from_status, ExitStatus};
use crate::retry::{attempts_after_retry, initial_attempts, next_delay, retries, RetryState};
use crate::watch::{WatchResult, WatchResultView};
use vstd::prelude::*;

verus! {

/// The exit code of a run that failed for a reason other than the exit code
/// of the command.
pub const FAILURE: u8 = 1;

/// What the caller does next.
#[derive(Clone, Copy, Debug, PartialEq, Eq)]
pub enum Action {
    /// Run the wait phase.
    Wait,
    /// Start the command.
    Spawn,
    /// Run the watch phase on the started command.
    Watch,
    /// Sleep for the span before the command is run again.
    Sleep(Duration),
    /// End the run with the exit code.
    Exit(u8),
}

/// An [`Action`] with its span in nanoseconds.
pub enum ActionView {
    Wait,
    Spawn,
    Watch,
    Sleep(nat),
    Exit(u8),
}

impl View for Action {
    type V = ActionView;

    open spec fn view(&self) -> ActionView {
        match self {
            Action::Wait => ActionView::Wait,
            Action::Spawn => ActionView::Spawn,
            Action::Watch => ActionView::Watch,
            Action::Sleep(span) => ActionView::Sleep(span@),
            Action::Exit(code) => ActionView::Exit(*code),
        }
    }
}

/// How an action ended.
#[derive(Debug, PartialEq, Eq)]
pub enum Event {
    /// The wait phase ended; says whether it succeeded.
    WaitEnded(bool),
    /// The attempt to start the command ended; says whether it started.
    SpawnEnded(bool),
    /// The watch phase ended with a result.
    WatchEnded(WatchResult),
    /// The watch phase ended with an error.
    WatchFailed,
    /// The sleep is over.
    Slept,
}

/// An [`Event`] by the views of its parts.
pub enum EventView {
    WaitEnded(bool),
    SpawnEnded(bool),
    WatchEnded(WatchResultView),
    WatchFailed,
    Slept,
}

impl View for Event {
    type V = EventView;

    open spec fn view(&self) -> EventView {
        match self {
            Event::WaitEnded(ok) => EventView::WaitEnded(*ok),
            Event::SpawnEnded(ok) => EventView::SpawnEnded(*ok),
            Event::WatchEnded(result) => EventView::WatchEnded(result@),
            Event::WatchFailed => EventView::WatchFailed,
            Event::Slept => EventView::Slept,
        }
    }
}

/// Where a run stands: the action that the caller carries out, and the
/// retries and the pause that the next retry decision starts from.
pub struct SupervisorState {
    pub pending: ActionView,
    pub attempts: Option<u32>,
    pub delay: nat,
}

/// The state in which a run starts: the wait phase comes first.
pub open spec fn supervisor_start(config: &RetryConfig) -> SupervisorState {
    SupervisorState {
        pending: ActionView::Wait,
        attempts: initial_attempts(config.times),
        delay: config.delay@,
    }
}

/// The state in which `action` is the next thing to do.
pub open spec fn proceed(state: SupervisorState, action: ActionView) -> (
    SupervisorState,
    ActionView,
) {
    (SupervisorState { pending: action, ..state }, action)
}

/// What follows from `event` in `state`: the state afterwards and the next
/// action.
///
/// After the wait phase the command is started, after the start it is
/// watched. A process that ended by itself is run again after the current
/// pause where the retry decision says so, which takes one retry and lets
/// the pause grow; else the run ends with the exit code that the status
/// stands for. After the pause the wait phase is run again where the
/// configuration asks for it, else the command is started at once. Every
/// failure of a phase ends the run with [`FAILURE`]. A run that has ended
/// stays ended, and an event that does not answer the pending action
/// changes nothing.
pub open spec fn supervise(state: SupervisorState, config: &RetryConfig, event: EventView) -> (
    SupervisorState,
    ActionView,
) {
    match (state.pending, event) {
        (ActionView::Wait, EventView::WaitEnded(ok)) => if ok {
            proceed(state, ActionView::Spawn)
        } else {
            proceed(state, ActionView::Exit(FAILURE))
        },
        (ActionView::Spawn, EventView::SpawnEnded(ok)) => if ok {
            proceed(state, ActionView::Watch)
        } else {
            proceed(state, ActionView::Exit(FAILURE))
        },
        (ActionView::Watch, EventView::WatchEnded(WatchResultView::ProcessExited(status))) => {
            if retries(state.attempts, config.filter(), status.code) {
                (
                    SupervisorState {
                        pending: ActionView::Sleep(state.delay),
                        attempts: attempts_after_retry(state.attempts),
                        delay: next_delay(state.delay, config.backoff),
                    },
                    ActionView::Sleep(state.delay),
                )
            } else {
                proceed(state, ActionView::Exit(exit_code_for(status.code)))
            }
        },
        (ActionView::Watch, EventView::WatchEnded(_)) => proceed(state, ActionView::Exit(FAILURE)),
        (ActionView::Watch, EventView::WatchFailed) => proceed(state, ActionView::Exit(FAILURE)),
        (ActionView::Sleep(_), EventView::Slept) => if config.with_wait {
            proceed(state, ActionView::Wait)
        } else {
            proceed(state, ActionView::Spawn)
        },
        _ => (state, state.pending),
    }
}

/// One run of the supervisor.
#[derive(Debug)]
pub struct Supervisor {
    pending: Action,
    retry: RetryState,
}

impl View for Supervisor {
    type V = SupervisorState;

    closed spec fn view(&self) -> SupervisorState {
        SupervisorState {
            pending: self.pending@,
            attempts: self.retry.attempts_remaining,
            delay: self.retry.current_delay@,
        }
    }
}

impl Supervisor {
    /// A run at its start. The first action is [`Action::Wait`].
    pub fn start(config: &RetryConfig) -> (supervisor: Supervisor)
        ensures
            supervisor@ == supervisor_start(config),
    {
        Supervisor { pending: Action::Wait, retry: RetryState::new(config) }
    }

    /// The action that the caller carries out.
    pub fn pending(&self) -> (action: Action)
        ensures
            action@ == self@.pending,
    {
        self.pending
    }

    /// The retries that are left: absent for no limit.
    pub fn attempts_remaining(&self) -> (attempts: Option<u32>)
        ensures
            attempts == self@.attempts,
    {
        self.retry.attempts_remaining
    }

    /// Takes note of how the pending action ended and says what to do
    /// next, as [`supervise`] decides it.
    pub fn step(&mut self, config: &RetryConfig, event: Event) -> (action: Action)
        ensures
            (final(self)@, action@) == supervise(old(self)@, config, event@),
    {
        let next = match (self.pending, event) {
            (Action::Wait, Event::WaitEnded(ok)) => if ok {
                Action::Spawn
            } else {
                Action::Exit(FAILURE)
            },
            (Action::Spawn, Event::SpawnEnded(ok)) => if ok {
                Action::Watch
            } else {
                Action::Exit(FAILURE)
            },
            (Action::Watch, Event::WatchEnded(result)) => match result {
                WatchResult::ProcessExited(status) => {
                    if self.retry.should_retry(config, Some(status)) {
                        Action::Sleep(self.retry.wait_before_retry(config))
                    } else {
                        Action::Exit(exit_code_from_status(status))
                    }
                },
                _ => Action::Exit(FAILURE),
            },
            (Action::Watch, Event::WatchFailed) => Action::Exit(FAILURE),
            (Action::Sleep(_), Event::Slept) => if config.with_wait {
                Action::Wait
            } else {
                Action::Spawn
            },
            (pending, _) => pending,
        };
        self.pending = next;
        next
    }
}

/// The events of one execution that ends with the process ending by itself
/// with `status`, from the moment the command is watched up to the moment
/// it is watched again: the result of the watch phase, the end of the
/// pause, the end of the wait phase where it is run again, and the start of
/// the command.
pub open spec fn failing_cycle(config: &RetryConfig, status: ExitStatus) -> Seq<EventView> {
    let to_pause = seq![
        EventView::WatchEnded(WatchResultView::ProcessExited(status)),
        EventView::Slept,
    ];
    if config.with_wait {
        to_pause + seq![EventView::WaitEnded(true), EventView::SpawnEnded(true)]
    } else {
        to_pause + seq![EventView::SpawnEnded(true)]
    }
}

/// The state after the events `events`, in order.
pub open spec fn supervisor_state(
    start: SupervisorState,
    config: &RetryConfig,
    events: Seq<EventView>,
) -> SupervisorState
    decreases events.len(),
{
    if events.len() == 0 {
        start
    } else {
        supervise(supervisor_state(start, config, events.drop_last()), config, events.last()).0
    }
}

/// The state after `k` executions that each end with the process ending by
/// itself with `status`, counted from a state in which the command is
/// watched.
pub open spec fn after_cycles(
    start: SupervisorState,
    config: &RetryConfig,
    status: ExitStatus,
    k: nat,
) -> SupervisorState
    decreases k,
{
    if k == 0 {
        start
    } else {
        supervisor_state(
            after_cycles(start, config, status, (k - 1) as nat),
            config,
            failing_cycle(config, status),
        )
    }
}

/// One execution that ends in a retry leads back to watching the command,
/// with one retry taken and the pause grown.
proof fn lemma_failing_cycle(state: SupervisorState, config: &RetryConfig, status: ExitStatus)
    requires
        state.pending is Watch,
        retries(state.attempts, config.filter(), status.code),
    ensures
        supervisor_state(state, config, failing_cycle(config, status)) == (SupervisorState {
            pending: ActionView::Watch,
            attempts: attempts_after_retry(state.attempts),
            delay: next_delay(state.delay, config.backoff),
        }),
{
    let events = failing_cycle(config, status);
    let e1 = events.take(1);
    let e2 = events.take(2);
    let e3 = events.take(3);
    assert(e1.drop_last() =~= Seq::<EventView>::empty());
    assert(e2.drop_last() =~= e1);
    assert(e3.drop_last() =~= e2);
    assert(supervisor_state(state, config, e1.drop_last()) == state);
    let s1 = supervisor_state(state, config, e1);
    assert(s1.pending is Sleep);
    let s2 = supervisor_state(state, config, e2);
    if config.with_wait {
        assert(events.drop_last() =~= e3);
        assert(s2.pending is Wait);
        let s3 = supervisor_state(state, config, e3);
        assert(s3.pending is Spawn);
    } else {
        assert(events.drop_last() =~= e2);
        assert(s2.pending is Spawn);
    }
}

/// A command that always ends by itself in a way that calls for a retry,
/// run with `n` retries, is executed `n + 1` times: after each of the first
/// `n` executions it is run again, and after the last one the run ends with
/// the exit code that the status stands for.
pub proof fn lemma_limited_retries_then_exit(
    start: SupervisorState,
    config: &RetryConfig,
    status: ExitStatus,
    n: u32,
    k: nat,
)
    requires
        start.pending is Watch,
        start.attempts == Some(n),
        retries(Some(1u32), config.filter(), status.code),
        k <= n,
    ensures
        after_cycles(start, config, status, k).pending is Watch,
        after_cycles(start, config, status, k).attempts == Some((n - k) as u32),
        k < n ==> supervise(
            after_cycles(start, config, status, k),
            config,
            EventView::WatchEnded(WatchResultView::ProcessExited(status)),
        ).1 is Sleep,
        k == n ==> supervise(
            after_cycles(start, config, status, k),
            config,
            EventView::WatchEnded(WatchResultView::ProcessExited(status)),
        ).1 == ActionView::Exit(exit_code_for(status.code)),
    decreases k,
{
    if k > 0 {
        lemma_limited_retries_then_exit(start, config, status, n, (k - 1) as nat);
        lemma_failing_cycle(
            after_cycles(start, config, status, (k - 1) as nat),
            config,
            status,
        );
    }
}

/// A failed health check and a watch phase that timed out end the run with
/// [`FAILURE`] whatever the retry configuration and the retries left.
pub proof fn lemma_watch_failures_end_the_run(
    state: SupervisorState,
    config: &RetryConfig,
    result: WatchResultView,
)
    requires
        state.pending is Watch,
        !(result is ProcessExited),
    ensures
        supervise(state, config, EventView::WatchEnded(result)).1 == ActionView::Exit(FAILURE),
        supervise(state, config, EventView::WatchFailed).1 == ActionView::Exit(FAILURE),
{
}

/// A run that has ended stays ended with the same exit code.
pub proof fn lemma_exit_is_final(
    state: SupervisorState,
    config: &RetryConfig,
    event: EventView,
    code: u8,
)
    requires
        state.pending == ActionView::Exit(code),
    ensures
        supervise(state, config, event) == (state, ActionView::Exit(code)),
{
}

} // verus!
