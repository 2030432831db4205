//! Exact non-negative rational numbers.

use vstd::prelude::*;

verus! {

/// An exact non-negative rational number `num / den`.
///
/// All scores and ratios of this library are values of this type: the
/// scoring rules only divide by integer counts, so results are kept as
/// exact fractions instead of being rounded.  The fraction is not reduced;
/// contracts pin both parts exactly.
#[derive(Clone, Copy, Debug, PartialEq, Eq, Structural)]
pub struct Ratio {
    pub num: u128,
    pub den: u128,
}

impl Ratio {
    /// Well-formed: the denominator is positive, and both parts are small
    /// enough that the scoring arithmetic on top of them cannot overflow.
    pub open spec fn wf(self) -> bool {
        &&& 1 <= self.den <= u64::MAX
        &&& self.num <= u64::MAX
    }

    /// The rational value `self` equals `n / d`.
    pub open spec fn is_frac(self, n: int, d: int) -> bool {
        &&& self.den >= 1
        &&& self.num * d == n * self.den
    }
}

} // verus!
