//! The gradient-factor pair that scales Buhlmann supersaturation limits.

use vstd::prelude::*;

verus! {

/// A pair of integer percentages: `low` applies at the first stop,
/// `high` at the surface, interpolated linearly in between.
#[derive(Clone, Copy, Debug, PartialEq, Eq, Structural)]
pub struct GradientFactor {
    pub low: u8,
    pub high: u8,
}

impl GradientFactor {
    /// Percentages the model accepts: both in `1..=100`, low at most high.
    pub open spec fn valid(self) -> bool {
        1 <= self.low <= self.high <= 100
    }

    pub fn new(low: u8, high: u8) -> (r: Self)
        ensures
            r.low == low,
            r.high == high,
    {
        Self { low, high }
    }

    pub fn low(&self) -> (r: u8)
        ensures
            r == self.low,
    {
        self.low
    }

    pub fn high(&self) -> (r: u8)
        ensures
            r == self.high,
    {
        self.high
    }
}

impl Default for GradientFactor {
    /// Plain Buhlmann: both factors at 100 percent.
    fn default() -> (r: Self)
        ensures
            r.low == 100 && r.high == 100,
            r.valid(),
    {
        Self { low: 100, high: 100 }
    }
}

} // verus!
