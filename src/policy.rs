//! Rounding policies: how a sample between two representable values is resolved.

use vstd::prelude::*;

verus! {

/// How a magnitude lying between two adjacent representable values is rounded.
#[derive(Clone, Copy, Debug, PartialEq, Eq, Structural)]
pub enum Quantizator {
    /// Always the larger of the two values.
    RoundUp,
    /// The closer of the two values; a sample exactly halfway goes down.
    Nearest,
    /// Always the smaller of the two values.
    RoundDown,
}

impl Quantizator {
    /// Whether this policy resolves to the upper value, given whether the sample
    /// lies strictly above the midpoint of the two values.
    pub open spec fn picks_upper(self, above_midpoint: bool) -> bool {
        match self {
            Quantizator::RoundUp => true,
            Quantizator::Nearest => above_midpoint,
            Quantizator::RoundDown => false,
        }
    }

    /// Maps a signed control value to a policy: negative rounds down, zero rounds
    /// to nearest, positive rounds up.
    pub fn from_i32(control: i32) -> (r: Self)
        ensures
            control < 0 ==> r == Quantizator::RoundDown,
            control == 0 ==> r == Quantizator::Nearest,
            control > 0 ==> r == Quantizator::RoundUp,
    {
        if control == 0 {
            Quantizator::Nearest
        } else if control > 0 {
            Quantizator::RoundUp
        } else {
            Quantizator::RoundDown
        }
    }

    /// Picks one of two adjacent representable values.
    ///
    /// `above_midpoint` tells whether the sample lies strictly above the
    /// midpoint of `upper_bound` and `lower_bound`; only `Nearest` reads it.
    pub fn quantize_abs<T>(&self, upper_bound: T, lower_bound: T, above_midpoint: bool) -> (r: T)
        ensures
            r == (if self.picks_upper(above_midpoint) { upper_bound } else { lower_bound }),
    {
        match self {
            Quantizator::Nearest => {
                if above_midpoint {
                    upper_bound
                } else {
                    lower_bound
                }
            },
            Quantizator::RoundUp => upper_bound,
            Quantizator::RoundDown => lower_bound,
        }
    }
}

/// Whether `sample` lies strictly above the midpoint of `upper` and `lower`,
/// computed exactly.
pub open spec fn above_midpoint(upper: int, lower: int, sample: int) -> bool {
    2 * sample > upper + lower
}

/// Distance between two exact values.
pub open spec fn gap(a: int, b: int) -> int {
    if a >= b { a - b } else { b - a }
}

/// Each policy resolves a pair `lower <= upper` as it promises: `RoundUp` to the
/// larger value, `RoundDown` to the smaller, and `Nearest` to whichever lies
/// closer to the sample, the smaller one when both are equally close.
pub proof fn rounding_policy_law(q: Quantizator, upper: int, lower: int, sample: int)
    requires
        lower <= upper,
    ensures
        ({
            let r = if q.picks_upper(above_midpoint(upper, lower, sample)) { upper } else { lower };
            &&& q == Quantizator::RoundUp ==> r == upper
            &&& q == Quantizator::RoundDown ==> r == lower
            &&& q == Quantizator::Nearest ==> gap(r, sample) <= gap(upper, sample)
                && gap(r, sample) <= gap(lower, sample)
            &&& q == Quantizator::Nearest && gap(upper, sample) == gap(lower, sample) ==> r == lower
        }),
{
}

} // verus!
