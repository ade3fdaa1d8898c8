//! Scalar quantities of the planner: depth, pressure, rate, water density
//! and gas volume, together with the fixed-point scales they use.

use vstd::prelude::*;

verus! {

/// Number of pressure units in one bar: pressures are held in nanobar.
pub const PRESSURE_SCALE: u64 = 1_000_000_000;

/// Water vapour pressure in the lungs, in nanobar (0.06257 bar).
pub const WATER_VAPOUR_PRESSURE: u64 = 62_570_000;

/// A default minimum ppO2, in nanobar (0.18 bar).
pub const PPO2_MINIMUM: u64 = 180_000_000;

/// A default maximum ppO2 for bottom segments, in nanobar (1.4 bar).
pub const PPO2_MAXIMUM_DIVE: u64 = 1_400_000_000;

/// A default maximum ppO2 for decompression stops, in nanobar (1.6 bar).
pub const PPO2_MAXIMUM_DECO: u64 = 1_600_000_000;

/// Average density of salt water, in decigrams per litre (1023.6 kg m^-3).
pub const SALTWATER: u32 = 10236;

/// Density of fresh water, in decigrams per litre (997.0 kg m^-3).
pub const FRESHWATER: u32 = 9970;

/// Deepest depth the model accepts, in metres.
pub const MAX_DEPTH: u32 = 10_000;

/// Longest duration a single segment may carry, in seconds.
pub const MAX_SEGMENT_SECONDS: u64 = 1_000_000;

/// A depth under water, in whole metres.
#[derive(Clone, Copy, Debug, PartialEq, Eq, Structural)]
pub struct Depth(pub u32);

/// An absolute pressure, in nanobar.
#[derive(Clone, Copy, Debug, PartialEq, Eq, Structural)]
pub struct Pressure(pub u64);

/// A rate of depth change, in metres per minute.  Ascent is negative by
/// convention, descent positive.
#[derive(Clone, Copy, Debug, PartialEq, Eq, Structural)]
pub struct Rate(pub i32);

/// Density of the water column, in decigrams per litre (ten times
/// kg m^-3), so that one metre of water exerts exactly
/// `density * 10_000` nanobar.
#[derive(Clone, Copy, Debug, PartialEq, Eq, Structural)]
pub struct WaterDensity(pub u32);

/// A quantity of breathing gas, in surface litres.  Wide enough that a
/// sum over any schedule cannot overflow.
#[derive(Clone, Copy, Debug, PartialEq, Eq, Structural)]
pub struct GasConsumption(pub u128);

/// A height above sea level, in metres.  Turning an altitude into an
/// atmospheric pressure involves an exponential and is left to the caller;
/// the planner takes the surface pressure itself.
#[derive(Clone, Copy, Debug, PartialEq, Eq, Structural)]
pub struct Altitude(pub u32);

impl WaterDensity {
    /// Nanobar exerted by one metre of this water.
    pub open spec fn spec_nanobar_per_metre(self) -> int {
        self.0 * 10_000
    }

    /// True when the density lies in the range the model accepts
    /// (500 to 2000 kg m^-3).
    pub open spec fn valid(self) -> bool {
        5000 <= self.0 <= 20000
    }
}

impl Depth {
    /// Absolute difference of two depths, in metres.
    pub fn delta(&self, rhs: Depth) -> (r: Depth)
        ensures
            r.0 == if self.0 >= rhs.0 { self.0 - rhs.0 } else { rhs.0 - self.0 },
    {
        if self.0 >= rhs.0 {
            Depth(self.0 - rhs.0)
        } else {
            Depth(rhs.0 - self.0)
        }
    }
}

/// Seconds needed to travel between two depths at the given rate,
/// rounded down as the reference schedule does.
pub fn time_taken(rate: Rate, depth_1: Depth, depth_2: Depth) -> (r: u64)
    requires
        rate.0 != 0,
        depth_1.0 <= MAX_DEPTH,
        depth_2.0 <= MAX_DEPTH,
    ensures
        r == spec_time_taken(rate.0 as int, depth_1.0 as int, depth_2.0 as int),
        r <= MAX_SEGMENT_SECONDS,
{
    let delta: u64 = depth_1.delta(depth_2).0 as u64;
    let magnitude: u64 = if rate.0 < 0 {
        (-(rate.0 as i64)) as u64
    } else {
        rate.0 as u64
    };
    assert(magnitude == abs_int(rate.0 as int));
    (delta * 60) / magnitude
}

/// Absolute value of an integer.
pub open spec fn abs_int(x: int) -> int {
    if x >= 0 {
        x
    } else {
        -x
    }
}

/// Travel time between two depths: sixty times the depth difference,
/// divided by the magnitude of the rate, rounded down.
pub open spec fn spec_time_taken(rate: int, d1: int, d2: int) -> int {
    abs_int(d1 - d2) * 60 / abs_int(rate)
}

} // verus!
