//! The watch phase: while the command runs, poll the probes at their
//! intervals and keep an eye on the overall limit. The phase ends with the
//! first of three things: the process ends by itself, a probe fails, or the
//! limit is reached. Whatever happens after that has no effect.
//!
//! The caller waits for the process, runs the probes and the timer, and
//! reports what happens; the functions here say what follows from it.

use crate::check::{
    file_probes, http_probes, probe_views, push_file_probes, push_http_probes, push_tcp_probes,
    tcp_probes, ProbeSpec, ProbeView,
};
use crate::config::WatchConfig;
use crate::duration::{max_nanos, Duration};
use crate::error::{Error, ErrorView};
use crate::process::ExitStatus;
use vstd::prelude::*;
use vstd::string::*;

verus! {

/// How one watch phase ended.
#[derive(Debug, PartialEq, Eq)]
pub enum WatchResult {
    /// The process ended by itself; holds how.
    ProcessExited(ExitStatus),
    /// A probe failed and the process was ended; holds the probe's reason.
    HealthCheckFailed(String),
    /// The overall limit was reached and the process was ended.
    Timeout,
}

/// A [`WatchResult`] with its text taken by its characters.
pub enum WatchResultView {
    ProcessExited(ExitStatus),
    HealthCheckFailed(Seq<char>),
    Timeout,
}

impl View for WatchResult {
    type V = WatchResultView;

    open spec fn view(&self) -> WatchResultView {
        match self {
            WatchResult::ProcessExited(status) => WatchResultView::ProcessExited(*status),
            WatchResult::HealthCheckFailed(reason) => WatchResultView::HealthCheckFailed(reason@),
            WatchResult::Timeout => WatchResultView::Timeout,
        }
    }
}

impl WatchConfig {
    /// The probes of the watch phase: the HTTP probes, then the TCP probes,
    /// then the file probes, each kind in the order given.
    pub open spec fn probe_list(&self) -> Seq<ProbeView> {
        http_probes(self.http@, self.http_timeout@) + tcp_probes(self.tcp@, self.tcp_timeout@)
            + file_probes(self.files@)
    }

    /// The number of probes of the watch phase.
    pub open spec fn probe_count(&self) -> nat {
        self.http@.len() + self.tcp@.len() + self.files@.len()
    }

    /// The time between two polls of `probe`, by its kind.
    pub open spec fn interval_for(&self, probe: ProbeView) -> nat {
        match probe {
            ProbeView::Http { .. } => self.http_interval@,
            ProbeView::Tcp { .. } => self.tcp_interval@,
            ProbeView::File { .. } => self.file_interval@,
        }
    }

    /// Whether the phase has nothing to do but wait for the process: no
    /// probe and no overall limit.
    pub open spec fn is_idle(&self) -> bool {
        self.probe_count() == 0 && self.timeout is None
    }

    /// The probes of the watch phase, as [`WatchConfig::probe_list`] orders
    /// them.
    pub fn probes(&self) -> (probes: Vec<ProbeSpec>)
        ensures
            probe_views(probes@) == self.probe_list(),
            probes@.len() == self.probe_count(),
    {
        let mut probes: Vec<ProbeSpec> = Vec::new();
        push_http_probes(&mut probes, &self.http, self.http_timeout);
        push_tcp_probes(&mut probes, &self.tcp, self.tcp_timeout);
        push_file_probes(&mut probes, &self.files);
        assert(probe_views(probes@) =~= self.probe_list());
        probes
    }

    /// The time between two polls of `probe`, by its kind.
    pub fn interval_of(&self, probe: &ProbeSpec) -> (interval: Duration)
        requires
            self.valid(),
        ensures
            interval@ == self.interval_for(probe@),
            interval@ > 0,
            interval.wf(),
    {
        let interval = match probe {
            ProbeSpec::Http(_) => self.http_interval,
            ProbeSpec::Tcp(_) => self.tcp_interval,
            ProbeSpec::File(_) => self.file_interval,
        };
        proof {
            use_type_invariant(interval);
        }
        interval
    }

    /// Whether any probe is configured.
    pub fn has_health_checks(&self) -> (any: bool)
        ensures
            any == (self.probe_count() > 0),
    {
        self.http.len() > 0 || self.tcp.len() > 0 || self.files.len() > 0
    }

    /// Whether the probes need an HTTP client, which all HTTP probes of the
    /// phase share.
    pub fn needs_http_client(&self) -> (needed: bool)
        ensures
            needed == (self.http@.len() > 0),
    {
        self.http.len() > 0
    }

    /// Whether the phase has nothing to do but wait for the process.
    pub fn only_awaits_exit(&self) -> (idle: bool)
        ensures
            idle == self.is_idle(),
    {
        !self.has_health_checks() && self.timeout.is_none()
    }
}

/// When poll number `poll` of a probe is due, counted from the start of the
/// phase and from 1: a newly started process is left alone for one
/// interval, and polled once per interval from then on.
pub open spec fn poll_due(interval: nat, poll: nat) -> nat {
    if interval * poll <= max_nanos() {
        interval * poll
    } else {
        max_nanos()
    }
}

/// When poll number `poll` of a probe with the given interval is due, as
/// [`poll_due`] states it.
pub fn next_poll(interval: Duration, poll: u32) -> (due: Duration)
    ensures
        due@ == poll_due(interval@, poll as nat),
        due.wf(),
{
    interval.saturating_mul(poll)
}

/// What the task of a periodic probe does after a poll.
#[derive(Debug, PartialEq, Eq)]
pub enum PollVerdict {
    /// The probe passed: wait for the next poll.
    Continue,
    /// The probe failed: the task ends at once with the reason.
    Fail(String),
}

/// Decides what follows a poll: a probe that passed is polled again, and
/// the first failure ends the task with the probe's reason.
pub fn after_poll(result: Result<(), String>) -> (v: PollVerdict)
    ensures
        match result {
            Ok(()) => v is Continue,
            Err(reason) => v == PollVerdict::Fail(reason),
        },
{
    match result {
        Ok(()) => PollVerdict::Continue,
        Err(reason) => PollVerdict::Fail(reason),
    }
}

/// How the task of a periodic probe ended.
#[derive(Debug, PartialEq, Eq)]
pub enum ProbeTaskEnd {
    /// The task ended without a failure.
    Completed,
    /// The probe failed; holds its reason. A client that could not be set
    /// up for the probes counts as such a failure.
    Failed(String),
    /// The task crashed.
    Panicked,
    /// The task was cancelled.
    Cancelled,
}

/// A [`ProbeTaskEnd`] with its text taken by its characters.
pub enum ProbeTaskEndView {
    Completed,
    Failed(Seq<char>),
    Panicked,
    Cancelled,
}

impl View for ProbeTaskEnd {
    type V = ProbeTaskEndView;

    open spec fn view(&self) -> ProbeTaskEndView {
        match self {
            ProbeTaskEnd::Completed => ProbeTaskEndView::Completed,
            ProbeTaskEnd::Failed(reason) => ProbeTaskEndView::Failed(reason@),
            ProbeTaskEnd::Panicked => ProbeTaskEndView::Panicked,
            ProbeTaskEnd::Cancelled => ProbeTaskEndView::Cancelled,
        }
    }
}

/// The failure that the end of a probe's task stands for, if it stands for
/// one: the reason of a failed probe, and a fixed reason for a task that
/// crashed. A task that completed or was cancelled is no failure.
pub open spec fn health_failure(end: ProbeTaskEndView) -> Option<Seq<char>> {
    match end {
        ProbeTaskEndView::Failed(reason) => Some(reason),
        ProbeTaskEndView::Panicked => Some("health check task panicked"@),
        _ => None,
    }
}

/// The failure that the end of a probe's task stands for, if it stands for
/// one, as [`health_failure`] states it.
pub fn health_verdict(end: ProbeTaskEnd) -> (failure: Option<String>)
    ensures
        match failure {
            Some(reason) => health_failure(end@) == Some(reason@),
            None => health_failure(end@) is None,
        },
{
    match end {
        ProbeTaskEnd::Failed(reason) => Some(reason),
        ProbeTaskEnd::Panicked => Some(String::from_str("health check task panicked")),
        _ => None,
    }
}

/// What the caller reports to the watch phase.
#[derive(Debug, PartialEq, Eq)]
pub enum WatchEvent {
    /// The process ended by itself.
    ProcessExited(ExitStatus),
    /// Waiting for the process failed; holds the cause.
    ProcessWaitFailed(String),
    /// The task of a probe ended.
    ProbeTaskEnded(ProbeTaskEnd),
    /// The overall limit of the phase was reached.
    TimeoutElapsed,
}

/// A [`WatchEvent`] with its texts taken by their characters.
pub enum WatchEventView {
    ProcessExited(ExitStatus),
    ProcessWaitFailed(Seq<char>),
    ProbeTaskEnded(ProbeTaskEndView),
    TimeoutElapsed,
}

impl View for WatchEvent {
    type V = WatchEventView;

    open spec fn view(&self) -> WatchEventView {
        match self {
            WatchEvent::ProcessExited(status) => WatchEventView::ProcessExited(*status),
            WatchEvent::ProcessWaitFailed(cause) => WatchEventView::ProcessWaitFailed(cause@),
            WatchEvent::ProbeTaskEnded(end) => WatchEventView::ProbeTaskEnded(end@),
            WatchEvent::TimeoutElapsed => WatchEventView::TimeoutElapsed,
        }
    }
}

/// What follows from an event of the watch phase.
#[derive(Debug, PartialEq, Eq)]
pub enum WatchAction {
    /// Nothing: keep watching, or the phase is over already.
    Continue,
    /// The phase is over with `result`; where `kill` is set, the process is
    /// to be ended first.
    Finish { result: WatchResult, kill: bool },
    /// The phase is over with an error; the process is left alone.
    Fail(Error),
}

/// A [`WatchAction`] by the views of its parts.
pub enum WatchActionView {
    Continue,
    Finish { result: WatchResultView, kill: bool },
    Fail(ErrorView),
}

impl View for WatchAction {
    type V = WatchActionView;

    open spec fn view(&self) -> WatchActionView {
        match self {
            WatchAction::Continue => WatchActionView::Continue,
            WatchAction::Finish { result, kill } => WatchActionView::Finish {
                result: result@,
                kill: *kill,
            },
            WatchAction::Fail(e) => WatchActionView::Fail(e@),
        }
    }
}

/// The state of one watch phase: which of its branches can end it, and
/// whether it is over.
pub struct WatchState {
    /// Whether probes are configured, so that a failure can end the phase.
    pub health_armed: bool,
    /// Whether an overall limit is configured.
    pub timeout_armed: bool,
    /// Whether the phase is over.
    pub over: bool,
}

/// The state in which the watch phase of `config` starts.
pub open spec fn watch_start(config: &WatchConfig) -> WatchState {
    WatchState {
        health_armed: config.probe_count() > 0,
        timeout_armed: config.timeout is Some,
        over: false,
    }
}

/// What follows from `event` in `state`: the state afterwards and the
/// action.
///
/// Once the phase is over nothing follows from any event. Before that, the
/// process ending by itself ends the phase without a kill; a failure of a
/// probe's task ends it with a kill where probes are configured; the limit
/// ends it with a kill where a limit is configured; and a failure to wait
/// for the process ends it with an error. Every other event changes
/// nothing.
pub open spec fn watch_step(state: WatchState, event: WatchEventView) -> (
    WatchState,
    WatchActionView,
) {
    let over = WatchState { over: true, ..state };
    if state.over {
        (state, WatchActionView::Continue)
    } else {
        match event {
            WatchEventView::ProcessExited(status) => (
                over,
                WatchActionView::Finish {
                    result: WatchResultView::ProcessExited(status),
                    kill: false,
                },
            ),
            WatchEventView::ProcessWaitFailed(cause) => (
                over,
                WatchActionView::Fail(ErrorView::Io(cause)),
            ),
            WatchEventView::ProbeTaskEnded(end) => match health_failure(end) {
                Some(reason) if state.health_armed => (
                    over,
                    WatchActionView::Finish {
                        result: WatchResultView::HealthCheckFailed(reason),
                        kill: true,
                    },
                ),
                _ => (state, WatchActionView::Continue),
            },
            WatchEventView::TimeoutElapsed => if state.timeout_armed {
                (over, WatchActionView::Finish { result: WatchResultView::Timeout, kill: true })
            } else {
                (state, WatchActionView::Continue)
            },
        }
    }
}

/// One watch phase, from the start of the process to the first event that
/// ends the phase.
#[derive(Debug)]
pub struct Watch {
    health_armed: bool,
    timeout_armed: bool,
    over: bool,
}

impl View for Watch {
    type V = WatchState;

    closed spec fn view(&self) -> WatchState {
        WatchState {
            health_armed: self.health_armed,
            timeout_armed: self.timeout_armed,
            over: self.over,
        }
    }
}

impl Watch {
    /// The watch phase of `config`, not yet over.
    pub fn start(config: &WatchConfig) -> (watch: Watch)
        ensures
            watch@ == watch_start(config),
    {
        Watch {
            health_armed: config.has_health_checks(),
            timeout_armed: config.timeout.is_some(),
            over: false,
        }
    }

    /// Whether the phase is over.
    pub fn is_over(&self) -> (over: bool)
        ensures
            over == self@.over,
    {
        self.over
    }

    /// Takes note of `event` and says what follows from it, as
    /// [`watch_step`] decides it.
    pub fn on_event(&mut self, event: WatchEvent) -> (action: WatchAction)
        ensures
            (final(self)@, action@) == watch_step(old(self)@, event@),
    {
        if self.over {
            return WatchAction::Continue;
        }
        match event {
            WatchEvent::ProcessExited(status) => {
                self.over = true;
                WatchAction::Finish { result: WatchResult::ProcessExited(status), kill: false }
            },
            WatchEvent::ProcessWaitFailed(cause) => {
                self.over = true;
                WatchAction::Fail(Error::Io(cause))
            },
            WatchEvent::ProbeTaskEnded(end) => {
                if !self.health_armed {
                    return WatchAction::Continue;
                }
                match health_verdict(end) {
                    Some(reason) => {
                        self.over = true;
                        WatchAction::Finish {
                            result: WatchResult::HealthCheckFailed(reason),
                            kill: true,
                        }
                    },
                    None => WatchAction::Continue,
                }
            },
            WatchEvent::TimeoutElapsed => {
                if self.timeout_armed {
                    self.over = true;
                    WatchAction::Finish { result: WatchResult::Timeout, kill: true }
                } else {
                    WatchAction::Continue
                }
            },
        }
    }
}

/// The state of the watch phase after the events `events`, in order.
pub open spec fn watch_state(start: WatchState, events: Seq<WatchEventView>) -> WatchState
    decreases events.len(),
{
    if events.len() == 0 {
        start
    } else {
        watch_step(watch_state(start, events.drop_last()), events.last()).0
    }
}

/// What follows from event number `i` of `events`.
pub open spec fn watch_action(start: WatchState, events: Seq<WatchEventView>, i: int)
    -> WatchActionView {
    watch_step(watch_state(start, events.take(i)), events[i]).1
}

/// Whether `event` ends a phase that is not over: the process ending or
/// being lost, a failed or crashed probe task where probes are configured,
/// the limit where one is configured.
pub open spec fn ends_watch(start: WatchState, event: WatchEventView) -> bool {
    match event {
        WatchEventView::ProcessExited(_) => true,
        WatchEventView::ProcessWaitFailed(_) => true,
        WatchEventView::ProbeTaskEnded(end) => start.health_armed && health_failure(end) is Some,
        WatchEventView::TimeoutElapsed => start.timeout_armed,
    }
}

/// The phase is over after some events exactly where one of them ends it;
/// which branches are armed never changes.
proof fn lemma_watch_state(start: WatchState, events: Seq<WatchEventView>, k: int)
    requires
        !start.over,
        0 <= k <= events.len(),
    ensures
        ({
            let state = watch_state(start, events.take(k));
            &&& state.health_armed == start.health_armed
            &&& state.timeout_armed == start.timeout_armed
            &&& state.over <==> exists|j: int| 0 <= j < k && ends_watch(start, #[trigger] events[j])
        }),
    decreases k,
{
    if k > 0 {
        lemma_watch_state(start, events, k - 1);
        assert(events.take(k).drop_last() =~= events.take(k - 1));
    }
}

/// The first event that ends the phase decides its result, and no other
/// event has any effect: the action for event `i` is the one that
/// [`watch_step`] gives in the starting state where no earlier event ends
/// the phase, and nothing where one does.
pub proof fn lemma_first_ending_event_decides(
    start: WatchState,
    events: Seq<WatchEventView>,
    i: int,
)
    requires
        !start.over,
        0 <= i < events.len(),
    ensures
        (forall|j: int| 0 <= j < i ==> !ends_watch(start, #[trigger] events[j])) ==> watch_action(
            start,
            events,
            i,
        ) == watch_step(start, events[i]).1,
        (exists|j: int| 0 <= j < i && ends_watch(start, #[trigger] events[j])) ==> watch_action(
            start,
            events,
            i,
        ) is Continue,
{
    lemma_watch_state(start, events, i);
}

/// At most one event of a watch phase is acted upon: where two events both
/// lead to an action, they are the same event.
pub proof fn lemma_one_outcome_per_watch(
    start: WatchState,
    events: Seq<WatchEventView>,
    i: int,
    j: int,
)
    requires
        !start.over,
        0 <= i < events.len(),
        0 <= j < events.len(),
        !(watch_action(start, events, i) is Continue),
        !(watch_action(start, events, j) is Continue),
    ensures
        i == j,
{
    lemma_watch_state(start, events, i);
    lemma_watch_state(start, events, j);
}

/// Where the process ends by itself before any probe fails and before the
/// limit is reached, the phase ends with the status of the process, and
/// the process is not killed.
pub proof fn lemma_exit_first_gives_status(
    start: WatchState,
    events: Seq<WatchEventView>,
    i: int,
    status: ExitStatus,
)
    requires
        !start.over,
        0 <= i < events.len(),
        events[i] == WatchEventView::ProcessExited(status),
        forall|j: int| 0 <= j < i ==> !ends_watch(start, #[trigger] events[j]),
    ensures
        watch_action(start, events, i) == (WatchActionView::Finish {
            result: WatchResultView::ProcessExited(status),
            kill: false,
        }),
        forall|j: int| 0 <= j < events.len() && j != i ==> watch_action(start, events, j) is Continue,
{
    lemma_first_ending_event_decides(start, events, i);
    assert forall|j: int| 0 <= j < events.len() && j != i implies watch_action(start, events, j)
        is Continue by {
        lemma_watch_state(start, events, j);
    }
}

/// Where a probe fails before the process ends and before the limit is
/// reached, the phase ends as a failed health check with the probe's
/// reason, and the process is killed.
pub proof fn lemma_probe_failure_first_kills(
    start: WatchState,
    events: Seq<WatchEventView>,
    i: int,
    end: ProbeTaskEndView,
)
    requires
        !start.over,
        start.health_armed,
        0 <= i < events.len(),
        events[i] == WatchEventView::ProbeTaskEnded(end),
        health_failure(end) is Some,
        forall|j: int| 0 <= j < i ==> !ends_watch(start, #[trigger] events[j]),
    ensures
        watch_action(start, events, i) == (WatchActionView::Finish {
            result: WatchResultView::HealthCheckFailed(health_failure(end)->0),
            kill: true,
        }),
        forall|j: int| 0 <= j < events.len() && j != i ==> watch_action(start, events, j) is Continue,
{
    lemma_first_ending_event_decides(start, events, i);
    assert forall|j: int| 0 <= j < events.len() && j != i implies watch_action(start, events, j)
        is Continue by {
        lemma_watch_state(start, events, j);
    }
}

/// Where the limit is reached before the process ends and before a probe
/// fails, the phase ends as timed out, and the process is killed.
pub proof fn lemma_timeout_first_kills(start: WatchState, events: Seq<WatchEventView>, i: int)
    requires
        !start.over,
        start.timeout_armed,
        0 <= i < events.len(),
        events[i] == WatchEventView::TimeoutElapsed,
        forall|j: int| 0 <= j < i ==> !ends_watch(start, #[trigger] events[j]),
    ensures
        watch_action(start, events, i) == (WatchActionView::Finish {
            result: WatchResultView::Timeout,
            kill: true,
        }),
        forall|j: int| 0 <= j < events.len() && j != i ==> watch_action(start, events, j) is Continue,
{
    lemma_first_ending_event_decides(start, events, i);
    assert forall|j: int| 0 <= j < events.len() && j != i implies watch_action(start, events, j)
        is Continue by {
        lemma_watch_state(start, events, j);
    }
}

} // verus!
