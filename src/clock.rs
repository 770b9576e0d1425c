//! Readings of a CPU-time clock and the time elapsed between two of them.

use vstd::prelude::*;

verus! {

/// One reading of a clock: seconds and nanoseconds, as the kernel reports it.
#[derive(Debug, Clone, Copy, PartialEq, Eq)]
pub struct TimeSpec {
    pub sec: i64,
    pub nsec: i64,
}

impl TimeSpec {
    /// The reading in nanoseconds.
    pub open spec fn nanos(self) -> int {
        self.sec * 1_000_000_000 + self.nsec
    }
}

/// `n` divided by `d`, rounded toward zero.
pub open spec fn div_toward_zero(n: int, d: int) -> int {
    if n >= 0 {
        n / d
    } else {
        -((-n) / d)
    }
}

/// The whole milliseconds from `start` to `end`, rounded toward zero.
pub open spec fn spec_millis_between(start: TimeSpec, end: TimeSpec) -> int {
    div_toward_zero(end.nanos() - start.nanos(), 1_000_000)
}

/// The whole milliseconds elapsed from `start` to `end` (negative where `end`
/// is the earlier reading), rounded toward zero.
pub fn millis_between(start: TimeSpec, end: TimeSpec) -> (r: i128)
    ensures
        r == spec_millis_between(start, end),
{
    let ds: i128 = end.sec as i128 - start.sec as i128;
    let dn: i128 = end.nsec as i128 - start.nsec as i128;
    assert(-18_446_744_073_709_551_615 * 1_000_000_000 <= ds * 1_000_000_000
        <= 18_446_744_073_709_551_615 * 1_000_000_000) by (nonlinear_arith)
        requires
            -18_446_744_073_709_551_615 <= ds <= 18_446_744_073_709_551_615,
    ;
    let d: i128 = ds * 1_000_000_000 + dn;
    assert(d == end.nanos() - start.nanos());
    if d >= 0 {
        (d as u128 / 1_000_000) as i128
    } else {
        let m: u128 = (-d) as u128;
        -((m / 1_000_000) as i128)
    }
}

} // verus!
