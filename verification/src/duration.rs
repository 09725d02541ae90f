//! A span of time with nanosecond resolution, and the textual form in which
//! spans are given on the command line.

use crate::error::{Error, ErrorView};
use crate::text::{ends_with, parse_u64, strip_suffix, trim, trimmed, unsigned_of};
use vstd::prelude::*;
use vstd::string::*;

verus! {

/// Nanoseconds in one second.
pub const NANOS_PER_SEC: u32 = 1_000_000_000;

/// Nanoseconds in one millisecond.
pub const NANOS_PER_MILLI: u32 = 1_000_000;

/// Milliseconds in one second.
pub const MILLIS_PER_SEC: u64 = 1_000;

/// The longest span a [`Duration`] can hold, in nanoseconds.
pub open spec fn max_nanos() -> nat {
    (u64::MAX as nat) * 1_000_000_000 + 999_999_999
}

/// A span of time: whole seconds and a sub-second part below one second.
///
/// Its view is the span in nanoseconds.
#[derive(Clone, Copy, Debug, PartialEq, Eq, Structural)]
pub struct Duration {
    secs: u64,
    nanos: u32,
}

impl View for Duration {
    type V = nat;

    closed spec fn view(&self) -> nat {
        (self.secs as nat) * 1_000_000_000 + (self.nanos as nat)
    }
}

impl Duration {
    /// The sub-second part stays below one second.
    #[verifier::type_invariant]
    pub closed spec fn wf(self) -> bool {
        self.nanos < 1_000_000_000
    }

    /// Two well-formed spans of equal length are the same value.
    pub proof fn lemma_view_injective(a: Duration, b: Duration)
        requires
            a.wf(),
            b.wf(),
            a@ == b@,
        ensures
            a == b,
    {
        assert(a.secs == b.secs) by (nonlinear_arith)
            requires
                (a.secs as nat) * 1_000_000_000 + (a.nanos as nat) == (b.secs as nat)
                    * 1_000_000_000 + (b.nanos as nat),
                a.nanos < 1_000_000_000,
                b.nanos < 1_000_000_000,
        ;
    }

    /// The empty span.
    pub fn zero() -> (d: Duration)
        ensures
            d@ == 0,
            d.wf(),
    {
        Duration { secs: 0, nanos: 0 }
    }

    /// A span of `secs` seconds and `nanos` nanoseconds, where the
    /// nanoseconds may exceed one second as long as the total is
    /// representable.
    pub fn new(secs: u64, nanos: u32) -> (d: Duration)
        requires
            secs + nanos / 1_000_000_000 <= u64::MAX,
        ensures
            d@ == secs * 1_000_000_000 + nanos,
            d.wf(),
    {
        let carry: u32 = nanos / NANOS_PER_SEC;
        let rest: u32 = nanos % NANOS_PER_SEC;
        let d = Duration { secs: secs + carry as u64, nanos: rest };
        assert(d@ == secs * 1_000_000_000 + nanos) by (nonlinear_arith)
            requires
                d@ == (secs + carry) * 1_000_000_000 + rest,
                carry == nanos / 1_000_000_000,
                rest == nanos % 1_000_000_000,
        ;
        d
    }

    /// A span of whole seconds.
    pub fn from_secs(secs: u64) -> (d: Duration)
        ensures
            d@ == secs * 1_000_000_000,
            d.wf(),
    {
        Duration { secs, nanos: 0 }
    }

    /// A span of whole milliseconds.
    pub fn from_millis(millis: u64) -> (d: Duration)
        ensures
            d@ == millis * 1_000_000,
            d.wf(),
    {
        let secs: u64 = millis / MILLIS_PER_SEC;
        let rest: u64 = millis % MILLIS_PER_SEC;
        let nanos: u32 = (rest as u32) * NANOS_PER_MILLI;
        let d = Duration { secs, nanos };
        assert(d@ == millis * 1_000_000) by (nonlinear_arith)
            requires
                d@ == secs * 1_000_000_000 + rest * 1_000_000,
                secs == millis / 1_000,
                rest == millis % 1_000,
        ;
        d
    }

    /// The whole seconds of the span.
    pub fn as_secs(&self) -> (s: u64)
        ensures
            s == self@ / 1_000_000_000,
    {
        proof {
            use_type_invariant(self);
            let secs = self.secs as nat;
            let nanos = self.nanos as nat;
            assert((secs * 1_000_000_000 + nanos) / 1_000_000_000 == secs) by (nonlinear_arith)
                requires
                    nanos < 1_000_000_000,
            ;
        }
        self.secs
    }

    /// The part of the span below one second, in nanoseconds.
    pub fn subsec_nanos(&self) -> (n: u32)
        ensures
            n == self@ % 1_000_000_000,
    {
        proof {
            use_type_invariant(self);
            let secs = self.secs as nat;
            let nanos = self.nanos as nat;
            assert((secs * 1_000_000_000 + nanos) % 1_000_000_000 == nanos) by (nonlinear_arith)
                requires
                    nanos < 1_000_000_000,
            ;
        }
        self.nanos
    }

    /// The span in whole milliseconds, rounded down.
    pub fn as_millis(&self) -> (m: u128)
        ensures
            m == self@ / 1_000_000,
    {
        proof {
            use_type_invariant(self);
        }
        let whole: u128 = (self.secs as u128) * 1_000;
        let part: u32 = self.nanos / NANOS_PER_MILLI;
        proof {
            let secs = self.secs as nat;
            let nanos = self.nanos as nat;
            assert((secs * 1_000_000_000 + nanos) / 1_000_000 == secs * 1_000 + nanos / 1_000_000)
                by (nonlinear_arith);
        }
        whole + part as u128
    }

    /// Whether the span is empty.
    pub fn is_zero(&self) -> (z: bool)
        ensures
            z == (self@ == 0),
    {
        self.secs == 0 && self.nanos == 0
    }

    /// Whether this span is no longer than `other`.
    pub fn le(&self, other: &Duration) -> (r: bool)
        ensures
            r == (self@ <= other@),
    {
        proof {
            use_type_invariant(self);
            use_type_invariant(other);
            let (a, b) = (self.secs as nat, other.secs as nat);
            if a < b {
                assert(a * 1_000_000_000 + 1_000_000_000 <= b * 1_000_000_000)
                    by (nonlinear_arith)
                    requires
                        a < b,
                ;
            }
            if b < a {
                assert(b * 1_000_000_000 + 1_000_000_000 <= a * 1_000_000_000)
                    by (nonlinear_arith)
                    requires
                        b < a,
                ;
            }
        }
        self.secs < other.secs || (self.secs == other.secs && self.nanos <= other.nanos)
    }

    /// The shorter of two spans.
    pub fn min(self, other: Duration) -> (d: Duration)
        ensures
            d@ == if self@ <= other@ {
                self@
            } else {
                other@
            },
            d == self || d == other,
            d.wf(),
    {
        proof {
            use_type_invariant(self);
            use_type_invariant(other);
        }
        if self.le(&other) {
            self
        } else {
            other
        }
    }

    /// What is left of this span once `other` is taken away, and the empty
    /// span where `other` is the longer.
    pub fn saturating_sub(self, other: Duration) -> (d: Duration)
        ensures
            d@ == if self@ >= other@ {
                self@ - other@
            } else {
                0
            },
            d.wf(),
    {
        proof {
            use_type_invariant(self);
            use_type_invariant(other);
        }
        if self.le(&other) {
            return Duration { secs: 0, nanos: 0 };
        }
        proof {
            let (a, b) = (self.secs as nat, other.secs as nat);
            if a < b {
                assert(a * 1_000_000_000 + 1_000_000_000 <= b * 1_000_000_000)
                    by (nonlinear_arith)
                    requires
                        a < b,
                ;
            }
        }
        if self.nanos >= other.nanos {
            let d = Duration { secs: self.secs - other.secs, nanos: self.nanos - other.nanos };
            assert(d@ == self@ - other@) by (nonlinear_arith)
                requires
                    d@ == (self.secs - other.secs) * 1_000_000_000 + (self.nanos - other.nanos),
                    self@ == self.secs * 1_000_000_000 + self.nanos,
                    other@ == other.secs * 1_000_000_000 + other.nanos,
            ;
            d
        } else {
            let d = Duration {
                secs: self.secs - other.secs - 1,
                nanos: self.nanos + NANOS_PER_SEC - other.nanos,
            };
            assert(d@ == self@ - other@) by (nonlinear_arith)
                requires
                    d@ == (self.secs - other.secs - 1) * 1_000_000_000 + (self.nanos
                        + 1_000_000_000 - other.nanos),
                    self@ == self.secs * 1_000_000_000 + self.nanos,
                    other@ == other.secs * 1_000_000_000 + other.nanos,
            ;
            d
        }
    }

    /// This span `factor` times over, and the longest span where that is
    /// not representable.
    pub fn saturating_mul(self, factor: u32) -> (d: Duration)
        ensures
            d@ == if self@ * factor <= max_nanos() {
                self@ * factor
            } else {
                max_nanos() as int
            },
            d.wf(),
    {
        proof {
            use_type_invariant(self);
        }
        let longest = Duration { secs: u64::MAX, nanos: NANOS_PER_SEC - 1 };
        assert((self.nanos as u64) * (factor as u64) <= 999_999_999 * 0xffff_ffff)
            by (nonlinear_arith)
            requires
                self.nanos <= 999_999_999,
                factor <= 0xffff_ffff,
        ;
        let sub: u64 = (self.nanos as u64) * (factor as u64);
        let carry: u64 = sub / (NANOS_PER_SEC as u64);
        let rest: u32 = (sub % (NANOS_PER_SEC as u64)) as u32;
        let ghost total: nat = self@ * (factor as nat);
        proof {
            let (s, n, f) = (self.secs as nat, self.nanos as nat, factor as nat);
            assert(total == s * f * 1_000_000_000 + carry * 1_000_000_000 + rest)
                by (nonlinear_arith)
                requires
                    total == (s * 1_000_000_000 + n) * f,
                    carry == (n * f) / 1_000_000_000,
                    rest == (n * f) % 1_000_000_000,
            ;
        }
        match self.secs.checked_mul(factor as u64) {
            None => {
                assert(total > max_nanos()) by (nonlinear_arith)
                    requires
                        total == self.secs * factor * 1_000_000_000 + carry * 1_000_000_000
                            + rest,
                        self.secs * factor > u64::MAX,
                ;
                longest
            },
            Some(whole) => match whole.checked_add(carry) {
                None => {
                    assert(total > max_nanos()) by (nonlinear_arith)
                        requires
                            total == whole * 1_000_000_000 + carry * 1_000_000_000 + rest,
                            whole + carry > u64::MAX,
                    ;
                    longest
                },
                Some(secs) => {
                    let d = Duration { secs, nanos: rest };
                    assert(d@ == total && total <= max_nanos()) by (nonlinear_arith)
                        requires
                            d@ == secs * 1_000_000_000 + rest,
                            secs == whole + carry,
                            secs <= u64::MAX,
                            rest < 1_000_000_000,
                            total == whole * 1_000_000_000 + carry * 1_000_000_000 + rest,
                    ;
                    d
                },
            },
        }
    }
}

/// The units in which a span is written.
pub enum Unit {
    Millis,
    Secs,
    Minutes,
    Hours,
}

impl Unit {
    /// The length of one such unit in nanoseconds.
    pub open spec fn nanos(self) -> nat {
        match self {
            Unit::Millis => 1_000_000,
            Unit::Secs => 1_000_000_000,
            Unit::Minutes => 60_000_000_000,
            Unit::Hours => 3_600_000_000_000,
        }
    }
}

/// The number part of a trimmed span and its unit. The suffix `ms` is
/// tried before `s`, `m` and `h`.
pub open spec fn split_unit(t: Seq<char>) -> Option<(Seq<char>, Unit)> {
    if ends_with(t, seq!['m', 's']) {
        Some((t.take(t.len() - 2), Unit::Millis))
    } else if ends_with(t, seq!['s']) {
        Some((t.take(t.len() - 1), Unit::Secs))
    } else if ends_with(t, seq!['m']) {
        Some((t.take(t.len() - 1), Unit::Minutes))
    } else if ends_with(t, seq!['h']) {
        Some((t.take(t.len() - 1), Unit::Hours))
    } else {
        None
    }
}

/// What a span written as `s` means: its length in nanoseconds, or what is
/// wrong with it. White space around the text is ignored; the text is an
/// unsigned number directly followed by `ms`, `s`, `m` or `h`, and the span
/// must be representable.
pub open spec fn duration_of(s: Seq<char>) -> Result<nat, Seq<char>> {
    let t = trimmed(s);
    if t.len() == 0 {
        Err(t)
    } else {
        match split_unit(t) {
            None => Err(t + ": missing time suffix (ms, s, m, h)"@),
            Some((digits, unit)) => match unsigned_of(digits) {
                Some(n) if n * unit.nanos() <= max_nanos() => Ok((n * unit.nanos()) as nat),
                _ => Err(t + ": invalid number"@),
            },
        }
    }
}

/// Splits a trimmed span into its number part and unit.
fn unit_of(t: &str) -> (r: Option<(&str, Unit)>)
    ensures
        match r {
            Some((digits, unit)) => split_unit(t@) == Some((digits@, unit)),
            None => split_unit(t@) is None,
        },
{
    proof {
        reveal_strlit("ms");
        reveal_strlit("s");
        reveal_strlit("m");
        reveal_strlit("h");
        assert("ms"@ =~= seq!['m', 's']);
        assert("s"@ =~= seq!['s']);
        assert("m"@ =~= seq!['m']);
        assert("h"@ =~= seq!['h']);
    }
    if let Some(digits) = strip_suffix(t, "ms") {
        Some((digits, Unit::Millis))
    } else if let Some(digits) = strip_suffix(t, "s") {
        Some((digits, Unit::Secs))
    } else if let Some(digits) = strip_suffix(t, "m") {
        Some((digits, Unit::Minutes))
    } else if let Some(digits) = strip_suffix(t, "h") {
        Some((digits, Unit::Hours))
    } else {
        None
    }
}

/// Reads a span such as `500ms`, `30s`, `5m` or `2h`.
pub fn parse_duration(s: &str) -> (r: Result<Duration, Error>)
    ensures
        match r {
            Ok(d) => duration_of(s@) == Ok::<nat, Seq<char>>(d@) && d.wf(),
            Err(e) => duration_of(s@) is Err && e@ == ErrorView::InvalidDuration(
                duration_of(s@)->Err_0,
            ),
        },
{
    let t = trim(s);
    if t.unicode_len() == 0 {
        return Err(Error::InvalidDuration(String::from_str(t)));
    }
    let (digits, unit) = match unit_of(t) {
        Some(parts) => parts,
        None => {
            return Err(
                Error::InvalidDuration(
                    String::from_str(t).concat(": missing time suffix (ms, s, m, h)"),
                ),
            );
        },
    };
    let span = match parse_u64(digits) {
        Some(n) => match unit {
            Unit::Millis => Some(Duration::from_millis(n)),
            Unit::Secs => Some(Duration::from_secs(n)),
            Unit::Minutes => match n.checked_mul(60) {
                Some(secs) => Some(Duration::from_secs(secs)),
                None => None,
            },
            Unit::Hours => match n.checked_mul(3600) {
                Some(secs) => Some(Duration::from_secs(secs)),
                None => None,
            },
        },
        None => None,
    };
    match span {
        Some(d) => Ok(d),
        None => Err(Error::InvalidDuration(String::from_str(t).concat(": invalid number"))),
    }
}

} // verus!
