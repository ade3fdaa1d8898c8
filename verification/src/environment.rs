//! The water and atmosphere a dive takes place in, and the conversion
//! from depth to ambient pressure.

use vstd::prelude::*;
use crate::units::{
    Depth, Pressure, WaterDensity, MAX_DEPTH, PRESSURE_SCALE, WATER_VAPOUR_PRESSURE,
};

verus! {

/// Water density plus the pressure of the atmosphere above the surface.
#[derive(Clone, Copy, Debug, PartialEq, Eq, Structural)]
pub struct Environment {
    pub water_density: WaterDensity,
    pub atmospheric_pressure: Pressure,
}

/// Ambient pressure in nanobar at `depth` metres: the surface pressure
/// plus the weight of the water column.
pub open spec fn spec_pressure_at(depth: int, density: int, atm: int) -> int {
    atm + depth * density * 10_000
}

impl Environment {
    /// True when density and surface pressure lie in the ranges the
    /// model accepts (0.1 to 2 bar of atmosphere).
    pub open spec fn valid(self) -> bool {
        &&& self.water_density.valid()
        &&& 100_000_000 <= self.atmospheric_pressure.0 <= 2_000_000_000
    }

    pub fn new(water_density: WaterDensity, atmospheric_pressure: Pressure) -> (r: Self)
        requires
            water_density.valid(),
            100_000_000 <= atmospheric_pressure.0 <= 2_000_000_000,
        ensures
            r.water_density == water_density,
            r.atmospheric_pressure == atmospheric_pressure,
            r.valid(),
    {
        Self { water_density, atmospheric_pressure }
    }

    pub fn water_density(&self) -> (r: WaterDensity)
        ensures
            r == self.water_density,
    {
        self.water_density
    }

    pub fn atmospheric_pressure(&self) -> (r: Pressure)
        ensures
            r == self.atmospheric_pressure,
    {
        self.atmospheric_pressure
    }

    /// Ambient pressure at `depth`.
    pub open spec fn spec_pressure(self, depth: int) -> int {
        spec_pressure_at(depth, self.water_density.0 as int, self.atmospheric_pressure.0 as int)
    }

    /// Ambient pressure at `depth` less the water vapour pressure in the
    /// lungs; the pressure breathing gas is actually absorbed at.
    pub open spec fn spec_compensated_pressure(self, depth: int) -> int {
        self.spec_pressure(depth) - WATER_VAPOUR_PRESSURE
    }

    /// Depth in whole metres whose water column alone exerts
    /// `p - 1 bar`; zero when `p` is below one bar.
    pub open spec fn spec_equivalent_depth(self, p: int) -> int {
        if p <= PRESSURE_SCALE {
            0
        } else {
            (p - PRESSURE_SCALE) / (self.water_density.0 * 10_000)
        }
    }
}

impl Depth {
    /// Ambient pressure at this depth in the given environment.
    pub fn pressure(&self, environment: Environment) -> (r: Pressure)
        requires
            environment.valid(),
            self.0 <= MAX_DEPTH,
        ensures
            r.0 == environment.spec_pressure(self.0 as int),
            r.0 <= 2_002_000_000_000,
    {
        proof {
            vstd::arithmetic::mul::lemma_mul_upper_bound(
                self.0 as int,
                MAX_DEPTH as int,
                environment.water_density.0 as int,
                20_000,
            );
        }
        let water: u64 = (self.0 as u64) * (environment.water_density().0 as u64) * 10_000;
        Pressure(environment.atmospheric_pressure().0 + water)
    }

    /// Ambient pressure less the water vapour pressure in the lungs.
    pub fn compensated_pressure(&self, environment: Environment) -> (r: Pressure)
        requires
            environment.valid(),
            self.0 <= MAX_DEPTH,
        ensures
            r.0 == environment.spec_compensated_pressure(self.0 as int),
            r.0 <= 2_002_000_000_000,
    {
        let p = self.pressure(environment);
        Pressure(p.0 - WATER_VAPOUR_PRESSURE)
    }
}

impl Pressure {
    /// The depth at which the water column exerts this pressure less one
    /// bar, rounded down to whole metres; zero for pressures below one bar.
    pub fn equivalent_depth(&self, environment: Environment) -> (r: Depth)
        requires
            environment.valid(),
            self.0 <= 10_000_000_000_000_000,
        ensures
            r.0 == environment.spec_equivalent_depth(self.0 as int),
    {
        if self.0 <= PRESSURE_SCALE {
            Depth(0)
        } else {
            let excess: u64 = self.0 - PRESSURE_SCALE;
            let per_metre: u64 = (environment.water_density().0 as u64) * 10_000;
            let metres: u64 = excess / per_metre;
            proof {
                vstd::arithmetic::div_mod::lemma_div_is_ordered_by_denominator(
                    excess as int,
                    50_000_000,
                    per_metre as int,
                );
                vstd::arithmetic::div_mod::lemma_div_is_ordered(
                    excess as int,
                    10_000_000_000_000_000,
                    50_000_000,
                );
            }
            Depth(metres as u32)
        }
    }
}

} // verus!
