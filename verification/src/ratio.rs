use vstd::prelude::*;

verus! {

/// Largest denominator an extension ratio may carry.  The bound keeps every
/// product in the target-angle computation inside `i64`.
pub const MAX_RATIO_DEN: i64 = 1_000_000;

/// An exact fraction `num / den`, used for extension ratios.
///
/// The type can hold values outside the unit interval, such as 3/2 or -1/10,
/// so that an out-of-range request can be represented and then rejected with
/// an error instead of being silently ignored.
#[derive(Clone, Copy, Debug, PartialEq, Eq, Structural)]
pub struct Ratio {
    pub num: i64,
    pub den: i64,
}

impl Ratio {
    /// A ratio is well formed when its denominator is positive and small
    /// enough for the position arithmetic not to overflow.
    pub open spec fn wf(self) -> bool {
        1 <= self.den <= MAX_RATIO_DEN
    }

    /// Whether the fraction lies in the closed unit interval `[0, 1]`.
    pub open spec fn in_unit(self) -> bool {
        0 <= self.num <= self.den
    }

    /// Build the fraction `num / den`.
    pub fn new(num: i64, den: i64) -> (r: Ratio)
        requires
            1 <= den <= MAX_RATIO_DEN,
        ensures
            r == (Ratio { num, den }),
            r.wf(),
    {
        Ratio { num, den }
    }
}

} // verus!
