//! The wait phase: before the command starts, take the configured pauses
//! and then poll every probe until it passes, all within one deadline.
//!
//! The deadline lies one `timeout` after the start of the phase and is never
//! moved. Every decision is taken from the time that has passed since the
//! start, so pauses and attempts are cut to the time that is left.
//!
//! The caller reads the clock, sleeps, and runs the probes; the functions
//! here say what to do next.

use crate::check::{
    file_probes, http_probes, probe_views, push_file_probes, push_http_probes, push_tcp_probes,
    tcp_probes, ProbeSpec, ProbeView,
};
use crate::config::WaitConfig;
use crate::duration::Duration;
use crate::error::{Error, ErrorView};
use vstd::prelude::*;

verus! {

/// The pause between two attempts of one probe, in milliseconds.
pub const RETRY_PAUSE_MILLIS: u64 = 500;

/// The pause between two attempts of one probe, in nanoseconds.
pub open spec fn retry_pause() -> nat {
    500_000_000
}

/// The shorter of two spans.
pub open spec fn shorter(a: nat, b: nat) -> nat {
    if a <= b {
        a
    } else {
        b
    }
}

/// The time left until a deadline `timeout` after the start, once
/// `elapsed` has passed; nothing once the deadline is reached.
pub open spec fn time_left(timeout: nat, elapsed: nat) -> nat {
    if elapsed >= timeout {
        0
    } else {
        (timeout - elapsed) as nat
    }
}

/// The lengths of a sequence of spans, in nanoseconds.
pub open spec fn span_views(spans: Seq<Duration>) -> Seq<nat> {
    spans.map_values(|span: Duration| span@)
}

impl WaitConfig {
    /// The probes of the wait phase: the TCP probes, then the HTTP probes,
    /// then the file probes, each kind in the order given.
    pub open spec fn probe_list(&self) -> Seq<ProbeView> {
        tcp_probes(self.tcp@, self.tcp_timeout@) + http_probes(self.http@, self.http_timeout@)
            + file_probes(self.files@)
    }

    /// The number of probes of the wait phase.
    pub open spec fn probe_count(&self) -> nat {
        self.tcp@.len() + self.http@.len() + self.files@.len()
    }

    /// The pauses of the wait phase, in nanoseconds.
    pub open spec fn pauses(&self) -> Seq<nat> {
        span_views(self.delays@)
    }

    /// Whether there is nothing to wait for: no probe and no pause.
    pub open spec fn is_idle(&self) -> bool {
        self.probe_count() == 0 && self.delays@.len() == 0
    }

    /// The probes of the wait phase, as [`WaitConfig::probe_list`] orders
    /// them.
    pub fn probes(&self) -> (probes: Vec<ProbeSpec>)
        ensures
            probe_views(probes@) == self.probe_list(),
            probes@.len() == self.probe_count(),
    {
        let mut probes: Vec<ProbeSpec> = Vec::new();
        push_tcp_probes(&mut probes, &self.tcp, self.tcp_timeout);
        push_http_probes(&mut probes, &self.http, self.http_timeout);
        push_file_probes(&mut probes, &self.files);
        assert(probe_views(probes@) =~= self.probe_list());
        probes
    }

    /// Whether the probes need an HTTP client, which all HTTP probes of the
    /// phase share.
    pub fn needs_http_client(&self) -> (needed: bool)
        ensures
            needed == (self.http@.len() > 0),
    {
        self.http.len() > 0
    }

    /// Whether there is nothing to wait for.
    pub fn nothing_to_wait_for(&self) -> (idle: bool)
        ensures
            idle == self.is_idle(),
    {
        self.tcp.len() == 0 && self.http.len() == 0 && self.files.len() == 0 && self.delays.len()
            == 0
    }
}

/// The time left until the deadline `timeout` after the start, once
/// `elapsed` has passed.
pub fn remaining(timeout: Duration, elapsed: Duration) -> (left: Duration)
    ensures
        left@ == time_left(timeout@, elapsed@),
        left.wf(),
{
    timeout.saturating_sub(elapsed)
}

/// Where the wait phase stands.
#[derive(Clone, Copy, Debug, PartialEq, Eq)]
pub enum WaitStage {
    /// Pauses are being taken; no probe has been started.
    Pausing,
    /// All pauses have been taken and the probes run.
    Probing,
    /// There was nothing to wait for.
    Succeeded,
    /// The deadline came before the pauses were over.
    TimedOut,
}

/// What the caller does next in the wait phase.
#[derive(Clone, Copy, Debug, PartialEq, Eq)]
pub enum WaitAction {
    /// Sleep for the span, then ask again.
    Sleep(Duration),
    /// Start all probes, let them run, and then call [`conclude`].
    StartProbes,
    /// The phase is over: there was nothing to wait for.
    Succeed,
    /// The phase is over: the deadline was reached.
    TimeOut,
}

/// A [`WaitAction`] with its span in nanoseconds.
pub enum WaitActionView {
    Sleep(nat),
    StartProbes,
    Succeed,
    TimeOut,
}

impl View for WaitAction {
    type V = WaitActionView;

    open spec fn view(&self) -> WaitActionView {
        match self {
            WaitAction::Sleep(span) => WaitActionView::Sleep(span@),
            WaitAction::StartProbes => WaitActionView::StartProbes,
            WaitAction::Succeed => WaitActionView::Succeed,
            WaitAction::TimeOut => WaitActionView::TimeOut,
        }
    }
}

/// The progress of the wait phase: its stage and how many pauses it has
/// ordered.
pub struct WaitProgress {
    pub stage: WaitStage,
    pub slept: nat,
}

/// The progress at the start of the wait phase.
pub open spec fn wait_start() -> WaitProgress {
    WaitProgress { stage: WaitStage::Pausing, slept: 0 }
}

/// One decision of the wait phase, taken `elapsed` after its start: the
/// progress afterwards and what the caller does next.
///
/// With nothing to wait for the phase succeeds at once. Otherwise the pauses
/// are taken in order, each cut to the time left, and the phase times out
/// where a pause is due and no time is left. After the last pause the probes
/// start. A phase that is over or probing gives the same answer again.
pub open spec fn wait_step(
    progress: WaitProgress,
    pauses: Seq<nat>,
    probe_count: nat,
    timeout: nat,
    elapsed: nat,
) -> (WaitProgress, WaitActionView) {
    match progress.stage {
        WaitStage::Succeeded => (progress, WaitActionView::Succeed),
        WaitStage::TimedOut => (progress, WaitActionView::TimeOut),
        WaitStage::Probing => (progress, WaitActionView::StartProbes),
        WaitStage::Pausing => if probe_count == 0 && pauses.len() == 0 {
            (
                WaitProgress { stage: WaitStage::Succeeded, slept: progress.slept },
                WaitActionView::Succeed,
            )
        } else if progress.slept < pauses.len() {
            if time_left(timeout, elapsed) == 0 {
                (
                    WaitProgress { stage: WaitStage::TimedOut, slept: progress.slept },
                    WaitActionView::TimeOut,
                )
            } else {
                (
                    WaitProgress { stage: WaitStage::Pausing, slept: progress.slept + 1 },
                    WaitActionView::Sleep(
                        shorter(pauses[progress.slept as int], time_left(timeout, elapsed)),
                    ),
                )
            }
        } else {
            (
                WaitProgress { stage: WaitStage::Probing, slept: progress.slept },
                WaitActionView::StartProbes,
            )
        },
    }
}

/// The wait phase of one run, from its first pause to the start of its
/// probes.
#[derive(Debug)]
pub struct WaitPhase {
    stage: WaitStage,
    slept: usize,
}

impl View for WaitPhase {
    type V = WaitProgress;

    closed spec fn view(&self) -> WaitProgress {
        WaitProgress { stage: self.stage, slept: self.slept as nat }
    }
}

impl WaitPhase {
    /// A wait phase that has not begun.
    pub fn new() -> (phase: WaitPhase)
        ensures
            phase@ == wait_start(),
    {
        WaitPhase { stage: WaitStage::Pausing, slept: 0 }
    }

    /// Where the phase stands.
    pub fn stage(&self) -> (stage: WaitStage)
        ensures
            stage == self@.stage,
    {
        self.stage
    }

    /// Says what to do next, `elapsed` after the start of the phase, as
    /// [`wait_step`] decides it.
    pub fn next(&mut self, config: &WaitConfig, elapsed: Duration) -> (action: WaitAction)
        ensures
            (final(self)@, action@) == wait_step(
                old(self)@,
                config.pauses(),
                config.probe_count(),
                config.timeout@,
                elapsed@,
            ),
    {
        match self.stage {
            WaitStage::Succeeded => WaitAction::Succeed,
            WaitStage::TimedOut => WaitAction::TimeOut,
            WaitStage::Probing => WaitAction::StartProbes,
            WaitStage::Pausing => {
                if config.nothing_to_wait_for() {
                    self.stage = WaitStage::Succeeded;
                    WaitAction::Succeed
                } else if self.slept < config.delays.len() {
                    let left = remaining(config.timeout, elapsed);
                    if left.is_zero() {
                        self.stage = WaitStage::TimedOut;
                        WaitAction::TimeOut
                    } else {
                        let pause = config.delays[self.slept].min(left);
                        self.slept = self.slept + 1;
                        WaitAction::Sleep(pause)
                    }
                } else {
                    self.stage = WaitStage::Probing;
                    WaitAction::StartProbes
                }
            },
        }
    }
}

/// How one attempt of a probe is bounded.
#[derive(Clone, Copy, Debug, PartialEq, Eq)]
pub struct Attempt {
    /// The longest the attempt may take: the probe's own limit or the time
    /// left, whichever is shorter.
    pub limit: Duration,
    /// The time left until the deadline when the attempt begins.
    pub left: Duration,
    /// Whether reaching `limit` means that the deadline was reached, rather
    /// than the probe's own limit.
    pub deadline_binds: bool,
}

/// An [`Attempt`] with its spans in nanoseconds.
pub struct AttemptView {
    pub limit: nat,
    pub left: nat,
    pub deadline_binds: bool,
}

impl View for Attempt {
    type V = AttemptView;

    open spec fn view(&self) -> AttemptView {
        AttemptView { limit: self.limit@, left: self.left@, deadline_binds: self.deadline_binds }
    }
}

/// What a probe's task does at the head of its loop.
#[derive(Clone, Copy, Debug, PartialEq, Eq)]
pub enum ProbeStep {
    /// Make one attempt within the bounds.
    Attempt(Attempt),
    /// The deadline is reached: the task ends as timed out.
    GiveUp,
}

/// The bounds of an attempt that begins `elapsed` after the start of the
/// phase, for a probe with the own limit `own`; nothing once the deadline
/// `timeout` is reached.
pub open spec fn attempt_bounds(own: Option<nat>, timeout: nat, elapsed: nat) -> Option<
    AttemptView,
> {
    let left = time_left(timeout, elapsed);
    if left == 0 {
        None
    } else {
        match own {
            Some(limit) if limit <= left => Some(
                AttemptView { limit, left, deadline_binds: false },
            ),
            _ => Some(AttemptView { limit: left, left, deadline_binds: true }),
        }
    }
}

/// Decides at the head of a probe's loop, `elapsed` after the start of the
/// phase, whether another attempt is made and within which bounds.
pub fn begin_attempt(probe: &ProbeSpec, timeout: Duration, elapsed: Duration) -> (step: ProbeStep)
    ensures
        match step {
            ProbeStep::Attempt(attempt) => attempt_bounds(probe@.timeout(), timeout@, elapsed@)
                == Some(attempt@),
            ProbeStep::GiveUp => attempt_bounds(probe@.timeout(), timeout@, elapsed@) is None,
        },
{
    let left = remaining(timeout, elapsed);
    if left.is_zero() {
        return ProbeStep::GiveUp;
    }
    match probe.timeout() {
        Some(own) => {
            if own.le(&left) {
                ProbeStep::Attempt(Attempt { limit: own, left, deadline_binds: false })
            } else {
                ProbeStep::Attempt(Attempt { limit: left, left, deadline_binds: true })
            }
        },
        None => ProbeStep::Attempt(Attempt { limit: left, left, deadline_binds: true }),
    }
}

/// How one attempt of a probe ended.
#[derive(Clone, Copy, Debug, PartialEq, Eq)]
pub enum AttemptResult {
    /// The probe passed.
    Passed,
    /// The probe failed.
    Failed,
    /// The attempt reached its limit without an answer.
    HitLimit,
}

/// What a probe's task does after an attempt.
#[derive(Clone, Copy, Debug, PartialEq, Eq)]
pub enum ProbeVerdict {
    /// The task ends: the probe is ready.
    Ready,
    /// Sleep for the span, then go back to the head of the loop.
    Retry(Duration),
    /// The task ends: the deadline was reached.
    TimedOut,
}

/// A [`ProbeVerdict`] with its span in nanoseconds.
pub enum ProbeVerdictView {
    Ready,
    Retry(nat),
    TimedOut,
}

impl View for ProbeVerdict {
    type V = ProbeVerdictView;

    open spec fn view(&self) -> ProbeVerdictView {
        match self {
            ProbeVerdict::Ready => ProbeVerdictView::Ready,
            ProbeVerdict::Retry(pause) => ProbeVerdictView::Retry(pause@),
            ProbeVerdict::TimedOut => ProbeVerdictView::TimedOut,
        }
    }
}

/// What follows an attempt with the bounds `attempt` that ended as
/// `result`: a probe that passed is ready; an attempt that ran into the
/// deadline ends the task as timed out; any other attempt is followed by a
/// pause of [`retry_pause`], cut to the time that was left when the attempt
/// began.
pub open spec fn verdict(attempt: AttemptView, result: AttemptResult) -> ProbeVerdictView {
    match result {
        AttemptResult::Passed => ProbeVerdictView::Ready,
        AttemptResult::HitLimit if attempt.deadline_binds => ProbeVerdictView::TimedOut,
        _ => ProbeVerdictView::Retry(shorter(retry_pause(), attempt.left)),
    }
}

/// Decides what a probe's task does after an attempt, as [`verdict`] states
/// it.
pub fn after_attempt(attempt: &Attempt, result: AttemptResult) -> (v: ProbeVerdict)
    ensures
        v@ == verdict(attempt@, result),
{
    match result {
        AttemptResult::Passed => ProbeVerdict::Ready,
        AttemptResult::HitLimit => {
            if attempt.deadline_binds {
                ProbeVerdict::TimedOut
            } else {
                ProbeVerdict::Retry(Duration::from_millis(RETRY_PAUSE_MILLIS).min(attempt.left))
            }
        },
        AttemptResult::Failed => ProbeVerdict::Retry(
            Duration::from_millis(RETRY_PAUSE_MILLIS).min(attempt.left),
        ),
    }
}

/// How the task of one probe ended.
#[derive(Clone, Copy, Debug, PartialEq, Eq)]
pub enum TaskEnd {
    /// The probe passed before the deadline.
    Ready,
    /// The deadline was reached first.
    TimedOut,
}

/// The result of the wait phase, given how the tasks of its probes ended:
/// success where every probe is ready, else the timeout.
pub open spec fn wait_result(ends: Seq<TaskEnd>) -> Result<(), ErrorView> {
    if forall|i: int| 0 <= i < ends.len() ==> ends[i] is Ready {
        Ok(())
    } else {
        Err(ErrorView::WaitTimeout)
    }
}

/// Concludes the wait phase once the tasks of all probes have ended.
pub fn conclude(ends: &Vec<TaskEnd>) -> (r: Result<(), Error>)
    ensures
        match r {
            Ok(()) => wait_result(ends@) is Ok,
            Err(e) => wait_result(ends@) == Err::<(), ErrorView>(e@),
        },
{
    let mut i: usize = 0;
    while i < ends.len()
        invariant
            i <= ends@.len(),
            forall|k: int| 0 <= k < i ==> ends@[k] is Ready,
        decreases ends@.len() - i,
    {
        match ends[i] {
            TaskEnd::Ready => {},
            TaskEnd::TimedOut => {
                return Err(Error::WaitTimeout);
            },
        }
        i += 1;
    }
    Ok(())
}

/// The progress of the wait phase after one decision at each of the clock
/// readings `readings`, in order.
pub open spec fn wait_progress(
    pauses: Seq<nat>,
    probe_count: nat,
    timeout: nat,
    readings: Seq<nat>,
) -> WaitProgress
    decreases readings.len(),
{
    if readings.len() == 0 {
        wait_start()
    } else {
        wait_step(
            wait_progress(pauses, probe_count, timeout, readings.drop_last()),
            pauses,
            probe_count,
            timeout,
            readings.last(),
        ).0
    }
}

/// What the wait phase orders at its decision number `i`, where its
/// decisions are taken at the clock readings `readings`.
pub open spec fn wait_action(
    pauses: Seq<nat>,
    probe_count: nat,
    timeout: nat,
    readings: Seq<nat>,
    i: int,
) -> WaitActionView {
    wait_step(
        wait_progress(pauses, probe_count, timeout, readings.take(i)),
        pauses,
        probe_count,
        timeout,
        readings[i],
    ).1
}

/// Whether decision number `j` orders pause number `j`, cut to the time
/// left, with time left.
pub open spec fn orders_pause(
    pauses: Seq<nat>,
    probe_count: nat,
    timeout: nat,
    readings: Seq<nat>,
    j: int,
) -> bool {
    &&& time_left(timeout, readings[j]) > 0
    &&& wait_action(pauses, probe_count, timeout, readings, j) == WaitActionView::Sleep(
        shorter(pauses[j], time_left(timeout, readings[j])),
    )
}

/// While the phase pauses, it has ordered one pause per decision; once it
/// probes, it has ordered them all.
proof fn lemma_wait_progress(
    pauses: Seq<nat>,
    probe_count: nat,
    timeout: nat,
    readings: Seq<nat>,
    k: int,
)
    requires
        0 <= k <= readings.len(),
    ensures
        ({
            let progress = wait_progress(pauses, probe_count, timeout, readings.take(k));
            &&& progress.stage is Pausing ==> progress.slept == k && k <= pauses.len()
            &&& progress.stage is Probing ==> pauses.len() < k
            &&& (progress.stage is Pausing || progress.stage is Probing) ==> forall|j: int|
                0 <= j < k && j < pauses.len() ==> orders_pause(
                    pauses,
                    probe_count,
                    timeout,
                    readings,
                    j,
                )
        }),
    decreases k,
{
    if k > 0 {
        lemma_wait_progress(pauses, probe_count, timeout, readings, k - 1);
        assert(readings.take(k).drop_last() =~= readings.take(k - 1));
    }
}

/// Pauses come strictly before probes: where the phase orders the start of
/// the probes, it has before that ordered every configured pause, in the
/// order given, each for its length cut to the time left.
pub proof fn lemma_pauses_precede_probes(
    pauses: Seq<nat>,
    probe_count: nat,
    timeout: nat,
    readings: Seq<nat>,
    i: int,
)
    requires
        0 <= i < readings.len(),
        wait_action(pauses, probe_count, timeout, readings, i) is StartProbes,
    ensures
        pauses.len() <= i,
        forall|j: int|
            0 <= j < pauses.len() ==> orders_pause(pauses, probe_count, timeout, readings, j),
{
    lemma_wait_progress(pauses, probe_count, timeout, readings, i);
}

/// Nothing that the wait phase orders outlasts the deadline: a pause, the
/// limit of an attempt, and the pause after a failed attempt each end at
/// the deadline at the latest, counted from the clock reading at which
/// they were decided.
pub proof fn lemma_orders_end_by_deadline(
    progress: WaitProgress,
    pauses: Seq<nat>,
    probe_count: nat,
    own: Option<nat>,
    timeout: nat,
    elapsed: nat,
    result: AttemptResult,
)
    ensures
        wait_step(progress, pauses, probe_count, timeout, elapsed).1 matches WaitActionView::Sleep(
            span,
        ) ==> elapsed + span <= timeout,
        attempt_bounds(own, timeout, elapsed) matches Some(attempt) ==> {
            &&& elapsed + attempt.limit <= timeout
            &&& (verdict(attempt, result) matches ProbeVerdictView::Retry(pause) ==> elapsed + pause
                <= timeout)
        },
{
}

/// One turn of a probe's loop as the caller saw it: the clock reading at
/// the head of the loop and how the attempt ended that was made then.
pub struct Observation {
    pub at: nat,
    pub result: AttemptResult,
}

/// How the task of a probe with the own limit `own` ends, given the turns
/// of its loop in order; nothing while it still runs.
pub open spec fn probe_task(own: Option<nat>, timeout: nat, turns: Seq<Observation>) -> Option<
    TaskEnd,
>
    decreases turns.len(),
{
    if turns.len() == 0 {
        None
    } else {
        match attempt_bounds(own, timeout, turns.first().at) {
            None => Some(TaskEnd::TimedOut),
            Some(attempt) => match verdict(attempt, turns.first().result) {
                ProbeVerdictView::Ready => Some(TaskEnd::Ready),
                ProbeVerdictView::TimedOut => Some(TaskEnd::TimedOut),
                ProbeVerdictView::Retry(_) => probe_task(own, timeout, turns.drop_first()),
            },
        }
    }
}

/// Whether the attempt of `turn` ran into the deadline.
pub open spec fn hit_deadline(own: Option<nat>, timeout: nat, turn: Observation) -> bool {
    attempt_bounds(own, timeout, turn.at) matches Some(attempt) && verdict(attempt, turn.result)
        is TimedOut
}

/// Whether the probe passes in time: in some turn that begins before the
/// deadline the probe passes, and no turn before it begins later or runs
/// into the deadline.
pub open spec fn passes_in_time(own: Option<nat>, timeout: nat, turns: Seq<Observation>) -> bool {
    exists|i: int|
        {
            &&& 0 <= i < turns.len()
            &&& (#[trigger] turns[i]).result is Passed
            &&& turns[i].at < timeout
            &&& forall|j: int|
                0 <= j < i ==> (#[trigger] turns[j]).at <= turns[i].at && !hit_deadline(
                    own,
                    timeout,
                    turns[j],
                )
        }
}

/// A probe that passes in turn `i`, begun before the deadline and not
/// preceded by a later turn or one that ran into the deadline, is ready.
pub proof fn lemma_passing_probe_is_ready(
    own: Option<nat>,
    timeout: nat,
    turns: Seq<Observation>,
    i: int,
)
    requires
        0 <= i < turns.len(),
        turns[i].result is Passed,
        turns[i].at < timeout,
        forall|j: int|
            0 <= j < i ==> (#[trigger] turns[j]).at <= turns[i].at && !hit_deadline(
                own,
                timeout,
                turns[j],
            ),
    ensures
        probe_task(own, timeout, turns) == Some(TaskEnd::Ready),
    decreases i,
{
    if i > 0 {
        lemma_passing_probe_is_ready(own, timeout, turns.drop_first(), i - 1);
    }
}

/// Where every probe passes in time, every task ends ready and the wait
/// phase succeeds.
pub proof fn lemma_wait_succeeds_when_probes_pass(
    timeout: nat,
    owns: Seq<Option<nat>>,
    traces: Seq<Seq<Observation>>,
    ends: Seq<TaskEnd>,
)
    requires
        owns.len() == traces.len(),
        ends.len() == traces.len(),
        forall|p: int| 0 <= p < traces.len() ==> passes_in_time(owns[p], timeout, #[trigger] traces[p]),
        forall|p: int|
            0 <= p < traces.len() ==> probe_task(owns[p], timeout, traces[p]) == Some(
                #[trigger] ends[p],
            ),
    ensures
        wait_result(ends) is Ok,
{
    assert forall|p: int| 0 <= p < ends.len() implies ends[p] is Ready by {
        let turns = traces[p];
        let own = owns[p];
        let i = choose|i: int|
            {
                &&& 0 <= i < turns.len()
                &&& (#[trigger] turns[i]).result is Passed
                &&& turns[i].at < timeout
                &&& forall|j: int|
                    0 <= j < i ==> (#[trigger] turns[j]).at <= turns[i].at && !hit_deadline(
                        own,
                        timeout,
                        turns[j],
                    )
            };
        lemma_passing_probe_is_ready(own, timeout, turns, i);
    }
}

/// A probe that passes in no turn begun before the deadline is never
/// ready; once a turn begins at or after the deadline, its task has ended
/// as timed out.
pub proof fn lemma_late_probe_times_out(own: Option<nat>, timeout: nat, turns: Seq<Observation>)
    requires
        forall|i: int|
            0 <= i < turns.len() && (#[trigger] turns[i]).at < timeout ==> !(turns[i].result
                is Passed),
    ensures
        probe_task(own, timeout, turns) != Some(TaskEnd::Ready),
        (exists|i: int| 0 <= i < turns.len() && (#[trigger] turns[i]).at >= timeout)
            ==> probe_task(own, timeout, turns) == Some(TaskEnd::TimedOut),
    decreases turns.len(),
{
    if turns.len() > 0 {
        let rest = turns.drop_first();
        lemma_late_probe_times_out(own, timeout, rest);
        if exists|i: int| 0 <= i < turns.len() && (#[trigger] turns[i]).at >= timeout {
            let i = choose|i: int| 0 <= i < turns.len() && (#[trigger] turns[i]).at >= timeout;
            if i > 0 {
                assert(rest[i - 1] == turns[i]);
            }
        }
    }
}

/// Where the task of one probe ends as timed out, the wait phase fails
/// with the timeout and does not succeed, however the other tasks end.
pub proof fn lemma_wait_fails_when_a_probe_times_out(ends: Seq<TaskEnd>, p: int)
    requires
        0 <= p < ends.len(),
        ends[p] is TimedOut,
    ensures
        wait_result(ends) == Err::<(), ErrorView>(ErrorView::WaitTimeout),
{
}

/// Where one probe passes in no turn begun before the deadline, the wait
/// phase fails with the timeout once the tasks have ended, however the
/// other probes fare.
pub proof fn lemma_wait_fails_when_a_probe_is_late(
    timeout: nat,
    own: Option<nat>,
    turns: Seq<Observation>,
    ends: Seq<TaskEnd>,
    p: int,
)
    requires
        0 <= p < ends.len(),
        probe_task(own, timeout, turns) == Some(ends[p]),
        forall|i: int|
            0 <= i < turns.len() && (#[trigger] turns[i]).at < timeout ==> !(turns[i].result
                is Passed),
    ensures
        wait_result(ends) == Err::<(), ErrorView>(ErrorView::WaitTimeout),
{
    lemma_late_probe_times_out(own, timeout, turns);
    lemma_wait_fails_when_a_probe_times_out(ends, p);
}

/// Whether turn `i + 1` begins no earlier than the pause after turn `i`
/// ends, where turn `i` is followed by a pause.
pub open spec fn pause_kept(own: Option<nat>, timeout: nat, turns: Seq<Observation>, i: int)
    -> bool {
    match attempt_bounds(own, timeout, turns[i].at) {
        Some(attempt) => match verdict(attempt, turns[i].result) {
            ProbeVerdictView::Retry(pause) => turns[i + 1].at >= turns[i].at + pause,
            _ => true,
        },
        None => true,
    }
}

/// Whether the clock readings of `turns` fit the pauses between them: the
/// turn after a pause begins no earlier than the pause ends.
pub open spec fn clock_advances(own: Option<nat>, timeout: nat, turns: Seq<Observation>) -> bool {
    forall|i: int| 0 <= i < turns.len() - 1 ==> #[trigger] pause_kept(own, timeout, turns, i)
}

/// While a task runs, each of its turns begins before the deadline and a
/// full pause after the turn before.
proof fn lemma_running_task_clock(own: Option<nat>, timeout: nat, turns: Seq<Observation>)
    requires
        clock_advances(own, timeout, turns),
        turns.len() > 0,
        probe_task(own, timeout, turns) is None,
    ensures
        turns.first().at + (turns.len() - 1) * retry_pause() <= turns.last().at,
        turns.last().at < timeout,
    decreases turns.len(),
{
    if turns.len() > 1 {
        let rest = turns.drop_first();
        assert forall|i: int| 0 <= i < rest.len() - 1 implies #[trigger] pause_kept(
            own,
            timeout,
            rest,
            i,
        ) by {
            assert(pause_kept(own, timeout, turns, i + 1));
        }
        lemma_running_task_clock(own, timeout, rest);
        assert(pause_kept(own, timeout, turns, 0));
    }
}

/// The task of a probe ends after a bounded number of turns: where the
/// clock fits the pauses, the task has ended once it has had so many turns
/// that the pauses between them alone outlast the deadline.
pub proof fn lemma_task_ends_in_bounded_turns(
    own: Option<nat>,
    timeout: nat,
    turns: Seq<Observation>,
)
    requires
        clock_advances(own, timeout, turns),
        (turns.len() - 1) * retry_pause() >= timeout,
    ensures
        probe_task(own, timeout, turns) is Some,
{
    if turns.len() > 0 && probe_task(own, timeout, turns) is None {
        lemma_running_task_clock(own, timeout, turns);
    }
}

} // verus!
