//! One-shot timer expiry values and the conversion from a CPU-time budget.

use core::time::Duration;
use vstd::prelude::*;

verus! {

/// Nanoseconds in one second.
pub const NANOS_PER_SEC: u64 = 1_000_000_000;

/// Largest whole-second count that a timer expiry can hold.
pub const MAX_TIMER_SECS: u64 = 9_223_372_036_854_775_807;

/// The whole seconds that `Duration::as_secs` reports for a duration.
pub uninterp spec fn duration_secs(d: Duration) -> u64;

/// The sub-second nanoseconds that `Duration::subsec_nanos` reports for a duration.
pub uninterp spec fn duration_subsec_nanos(d: Duration) -> u32;

/// Relies on `Duration::as_secs`: the whole seconds of the duration.
pub assume_specification[ Duration::as_secs ](d: &Duration) -> (r: u64)
    ensures
        r == duration_secs(*d),
;

/// Relies on `Duration::subsec_nanos`: the fractional part in nanoseconds,
/// documented to be always less than one billion.
pub assume_specification[ Duration::subsec_nanos ](d: &Duration) -> (r: u32)
    ensures
        r == duration_subsec_nanos(*d),
        r < 1_000_000_000,
;

/// The expiry of a one-shot timer, split as the kernel takes it: whole seconds
/// and the nanoseconds beyond them.
#[derive(Debug, Clone, Copy, PartialEq, Eq)]
pub struct TimerValue {
    pub sec: i64,
    pub nsec: i64,
}

impl TimerValue {
    /// The expiry in nanoseconds.
    pub open spec fn total_nanos(self) -> int {
        self.sec * NANOS_PER_SEC + self.nsec
    }

    /// A value the kernel accepts for an armed timer: non-negative seconds,
    /// nanoseconds below one second, and not zero (zero would disarm).
    pub open spec fn is_armed(self) -> bool {
        &&& self.sec >= 0
        &&& 0 <= self.nsec < NANOS_PER_SEC
        &&& self.total_nanos() > 0
    }

    /// The longest expiry a timer can hold, in nanoseconds.
    pub open spec fn max_nanos() -> int {
        MAX_TIMER_SECS * NANOS_PER_SEC + (NANOS_PER_SEC - 1)
    }

    /// The timer value for a budget of `nanos` nanoseconds: exact where it fits,
    /// the smallest armed value for a zero budget, the largest one beyond range.
    pub open spec fn for_budget(nanos: int) -> TimerValue {
        if nanos <= 0 {
            TimerValue { sec: 0, nsec: 1 }
        } else if nanos > Self::max_nanos() {
            TimerValue { sec: MAX_TIMER_SECS as i64, nsec: (NANOS_PER_SEC - 1) as i64 }
        } else {
            TimerValue {
                sec: (nanos / NANOS_PER_SEC as int) as i64,
                nsec: (nanos % NANOS_PER_SEC as int) as i64,
            }
        }
    }

    /// The budget made of `secs` seconds and `nanos` nanoseconds.
    pub open spec fn budget_of(secs: u64, nanos: u32) -> int {
        secs * NANOS_PER_SEC + nanos
    }

    /// The timer value for a budget of `secs` seconds plus `nanos` nanoseconds
    /// (`nanos` may exceed one second and then carries into the seconds).
    pub fn from_parts(secs: u64, nanos: u32) -> (r: TimerValue)
        ensures
            r == Self::for_budget(Self::budget_of(secs, nanos)),
            r.is_armed(),
    {
        assert(secs * 1_000_000_000 <= 18_446_744_073_709_551_615 * 1_000_000_000) by (nonlinear_arith)
            requires
                secs <= 18_446_744_073_709_551_615,
        ;
        let total: u128 = secs as u128 * NANOS_PER_SEC as u128 + nanos as u128;
        let max: u128 = MAX_TIMER_SECS as u128 * NANOS_PER_SEC as u128 + (NANOS_PER_SEC - 1) as u128;
        if total == 0 {
            TimerValue { sec: 0, nsec: 1 }
        } else if total > max {
            TimerValue { sec: MAX_TIMER_SECS as i64, nsec: (NANOS_PER_SEC - 1) as i64 }
        } else {
            let s: u128 = total / NANOS_PER_SEC as u128;
            let n: u128 = total % NANOS_PER_SEC as u128;
            assert(s <= MAX_TIMER_SECS) by (nonlinear_arith)
                requires
                    s == total / 1_000_000_000,
                    total <= max,
                    max == MAX_TIMER_SECS * 1_000_000_000 + 999_999_999,
            ;
            TimerValue { sec: s as i64, nsec: n as i64 }
        }
    }
}

/// A watched thread is never cancelled before its budget is spent: for any
/// budget the timer is armed, its expiry is the budget itself whenever the
/// budget is positive and fits a timer, one nanosecond for a zero budget, and
/// the longest expiry a timer holds beyond that.
pub proof fn lemma_expiry_matches_budget(secs: u64, nanos: u32)
    ensures
        ({
            let budget = TimerValue::budget_of(secs, nanos);
            let t = TimerValue::for_budget(budget);
            &&& t.is_armed()
            &&& budget >= 0
            &&& 0 < budget <= TimerValue::max_nanos() ==> t.total_nanos() == budget
            &&& budget == 0 ==> t.total_nanos() == 1
            &&& budget > TimerValue::max_nanos() ==> t.total_nanos() == TimerValue::max_nanos()
            &&& t.total_nanos() >= budget || budget > TimerValue::max_nanos()
        }),
{
    let budget = TimerValue::budget_of(secs, nanos);
    assert(budget >= 0) by (nonlinear_arith)
        requires
            budget == secs * 1_000_000_000 + nanos,
            secs >= 0,
            nanos >= 0,
    ;
    if 0 < budget <= TimerValue::max_nanos() {
        let q = budget / 1_000_000_000;
        let r = budget % 1_000_000_000;
        assert(budget == q * 1_000_000_000 + r && 0 <= r < 1_000_000_000 && 0 <= q <= MAX_TIMER_SECS)
            by (nonlinear_arith)
            requires
                q == budget / 1_000_000_000,
                r == budget % 1_000_000_000,
                0 < budget <= MAX_TIMER_SECS * 1_000_000_000 + 999_999_999,
        ;
    }
}

} // verus!
