//! The retry decision: whether a finished execution is run again, after
//! which pause, and how the pause grows.

use crate::config::RetryConfig;
use crate::duration::Duration;
use crate::process::ExitStatus;
use vstd::arithmetic::power2::{lemma_pow2_unfold, pow2};
use vstd::prelude::*;

verus! {

/// The longest pause between two executions that backoff grows to, in seconds.
pub const MAX_BACKOFF_SECS: u64 = 300;

/// The longest pause that backoff grows to, in nanoseconds.
pub open spec fn max_backoff_nanos() -> nat {
    300_000_000_000
}

/// The retries a configuration starts with: none where no count is given,
/// no limit (absent) where the count is zero, else the count.
pub open spec fn initial_attempts(times: Option<u32>) -> Option<u32> {
    match times {
        None => Some(0u32),
        Some(n) => if n == 0 {
            None
        } else {
            Some(n)
        },
    }
}

/// Whether an execution that ended with `code` (absent where a signal ended
/// it) is run again, with `remaining` retries left (absent: no limit) and
/// the exit-code filter `filter` (absent: none).
///
/// Without retries left, never. Without a filter, unless the code is zero.
/// With a filter, where the code is in it, and always after a signal.
pub open spec fn retries(remaining: Option<u32>, filter: Option<Set<i32>>, code: Option<i32>)
    -> bool {
    if remaining == Some(0u32) {
        false
    } else {
        match (filter, code) {
            (None, Some(c)) => c != 0,
            (None, None) => true,
            (Some(codes), Some(c)) => codes.contains(c),
            (Some(_), None) => true,
        }
    }
}

/// The retries left after one more retry.
pub open spec fn attempts_after_retry(remaining: Option<u32>) -> Option<u32> {
    match remaining {
        None => None,
        Some(n) => Some((n - 1) as u32),
    }
}

/// The pause that follows a pause of `delay` nanoseconds: twice as long but
/// at most [`max_backoff_nanos`] with backoff, the same without.
pub open spec fn next_delay(delay: nat, backoff: bool) -> nat {
    if !backoff {
        delay
    } else if 2 * delay <= max_backoff_nanos() {
        2 * delay
    } else {
        max_backoff_nanos()
    }
}

/// The pause before retry number `k + 1`, counted in nanoseconds from a
/// first pause of `base`.
pub open spec fn delay_after(base: nat, backoff: bool, k: nat) -> nat
    decreases k,
{
    if k == 0 {
        base
    } else {
        next_delay(delay_after(base, backoff, (k - 1) as nat), backoff)
    }
}

/// The retries left after `k` retries, starting from `initial`.
pub open spec fn attempts_after(initial: Option<u32>, k: nat) -> Option<u32>
    decreases k,
{
    if k == 0 {
        initial
    } else {
        attempts_after_retry(attempts_after(initial, (k - 1) as nat))
    }
}

impl RetryConfig {
    /// The exit-code filter as a set, absent where none is configured.
    pub open spec fn filter(&self) -> Option<Set<i32>> {
        match self.exit_codes {
            Some(codes) => Some(codes@),
            None => None,
        }
    }
}

/// Where a run stands with its retries.
#[derive(Debug)]
pub struct RetryState {
    /// Absent: no limit. Zero: none left. Otherwise the retries left.
    pub attempts_remaining: Option<u32>,
    /// The pause before the next retry.
    pub current_delay: Duration,
}

impl RetryState {
    /// The state before the first execution.
    pub fn new(config: &RetryConfig) -> (state: RetryState)
        ensures
            state.attempts_remaining == initial_attempts(config.times),
            state.current_delay == config.delay,
    {
        let attempts_remaining = match config.times {
            None => Some(0),
            Some(n) => if n == 0 {
                None
            } else {
                Some(n)
            },
        };
        RetryState { attempts_remaining, current_delay: config.delay }
    }

    /// Whether an execution that ended with `exit_status` is run again.
    /// An absent status, like one without an exit code, stands for a
    /// process that a signal ended.
    pub fn should_retry(&self, config: &RetryConfig, exit_status: Option<ExitStatus>) -> (r: bool)
        ensures
            r == retries(
                self.attempts_remaining,
                config.filter(),
                match exit_status {
                    Some(status) => status.code,
                    None => None,
                },
            ),
            self.attempts_remaining == Some(0u32) ==> !r,
    {
        broadcast use vstd::std_specs::hash::group_hash_axioms;

        match self.attempts_remaining {
            Some(n) => {
                if n == 0 {
                    return false;
                }
            },
            None => {},
        }
        let code: Option<i32> = match exit_status {
            Some(status) => status.code(),
            None => None,
        };
        match &config.exit_codes {
            None => match code {
                Some(c) => c != 0,
                None => true,
            },
            Some(codes) => match code {
                Some(c) => codes.contains(&c),
                None => true,
            },
        }
    }

    /// Takes one retry: returns the pause to make before the next
    /// execution, counts the retry, and lets the pause grow where backoff
    /// is on.
    pub fn wait_before_retry(&mut self, config: &RetryConfig) -> (delay: Duration)
        requires
            old(self).attempts_remaining != Some(0u32),
        ensures
            delay == old(self).current_delay,
            final(self).attempts_remaining == attempts_after_retry(old(self).attempts_remaining),
            final(self).current_delay@ == next_delay(old(self).current_delay@, config.backoff),
            final(self).current_delay.wf(),
    {
        let delay = self.current_delay;
        proof {
            use_type_invariant(delay);
        }
        if let Some(n) = self.attempts_remaining {
            self.attempts_remaining = Some(n - 1);
        }
        if config.backoff {
            self.current_delay = delay.saturating_mul(2).min(Duration::from_secs(MAX_BACKOFF_SECS));
        }
        delay
    }
}

/// A run that is out of retries never runs the command again, whatever the
/// exit code and the filter.
pub proof fn lemma_exhausted_never_retries(filter: Option<Set<i32>>, code: Option<i32>)
    ensures
        !retries(Some(0u32), filter, code),
{
}

/// Without an exit-code filter and with retries left, exit code zero is
/// never run again and every other way of ending is.
pub proof fn lemma_unfiltered_retries_failures(remaining: Option<u32>, code: Option<i32>)
    requires
        remaining != Some(0u32),
    ensures
        retries(remaining, None, code) <==> code != Some(0i32),
{
}

/// With an exit-code filter and with retries left, an exit code is run
/// again exactly where it is in the filter, and a process that a signal
/// ended is always run again.
pub proof fn lemma_filtered_retries_members(
    remaining: Option<u32>,
    codes: Set<i32>,
    code: Option<i32>,
)
    requires
        remaining != Some(0u32),
    ensures
        retries(remaining, Some(codes), code) <==> (code is None || codes.contains(code->0)),
{
}

/// With backoff the pauses double from the first one and stay at the cap
/// once they reach it: after `k >= 1` retries the pause is `base * 2^k` or
/// the cap, whichever is shorter.
pub proof fn lemma_backoff_doubles_to_cap(base: nat, k: nat)
    ensures
        delay_after(base, true, k) == if k == 0 {
            base
        } else if base * pow2(k) <= max_backoff_nanos() {
            base * pow2(k)
        } else {
            max_backoff_nanos()
        },
    decreases k,
{
    if k > 0 {
        lemma_backoff_doubles_to_cap(base, (k - 1) as nat);
        lemma_pow2_unfold(k);
        let half = pow2((k - 1) as nat);
        assert(base * pow2(k) == 2 * (base * half)) by (nonlinear_arith)
            requires
                pow2(k) == 2 * half,
        ;
        if k == 1 {
            assert(pow2(0) == 1) by {
                vstd::arithmetic::power2::lemma2_to64();
            }
            assert(base * half == base) by (nonlinear_arith)
                requires
                    half == 1,
            ;
        }
    }
}

/// Without backoff every pause is the first one.
pub proof fn lemma_no_backoff_keeps_delay(base: nat, k: nat)
    ensures
        delay_after(base, false, k) == base,
    decreases k,
{
    if k > 0 {
        lemma_no_backoff_keeps_delay(base, (k - 1) as nat);
    }
}

/// A run limited to `n` retries has `n - k` of them left after `k` retries.
pub proof fn lemma_attempts_count_down(n: u32, k: nat)
    requires
        k <= n,
    ensures
        attempts_after(Some(n), k) == Some((n - k) as u32),
    decreases k,
{
    if k > 0 {
        lemma_attempts_count_down(n, (k - 1) as nat);
    }
}

/// A run without a limit on retries never runs out of them.
pub proof fn lemma_unlimited_attempts_stay(k: nat)
    ensures
        attempts_after(None, k) is None,
    decreases k,
{
    if k > 0 {
        lemma_unlimited_attempts_stay((k - 1) as nat);
    }
}

} // verus!
