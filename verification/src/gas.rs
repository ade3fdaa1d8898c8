//! A breathing gas mix: integer percentages of oxygen, helium and
//! nitrogen, with partial-pressure and narcosis calculations.

use vstd::prelude::*;
use crate::environment::Environment;
use crate::units::{Depth, Pressure, MAX_DEPTH};

verus! {

/// Failure of gas construction.
#[derive(Clone, Copy, Debug, PartialEq, Eq, Structural)]
pub enum GasError {
    /// The three percentages do not add up to 100.
    FractionError,
}

/// An immutable gas mix.  The three percentages always sum to 100.
#[derive(Clone, Copy, Debug, PartialEq, Eq, Structural)]
pub struct Gas {
    pub o2: u8,
    pub he: u8,
    pub n2: u8,
}

/// Partial pressure of a component making up `percent` of the mix at
/// ambient pressure `ambient`, rounded down.
pub open spec fn spec_partial_pressure(ambient: int, percent: int) -> int {
    ambient * percent / 100
}

/// Equivalent narcotic depth of a mix with `he` percent helium at
/// `depth` metres: `(depth + 10) * (1 - fr_he) - 10`, floored at zero.
pub open spec fn spec_narcotic_depth(depth: int, he: int) -> int {
    let raw = (depth + 10) * (100 - he) / 100;
    if raw >= 10 {
        raw - 10
    } else {
        0
    }
}

impl Gas {
    /// True when the fractions form a gas the model accepts.
    pub open spec fn valid(self) -> bool {
        self.o2 + self.he + self.n2 == 100
    }

    /// Returns the mix, or `FractionError` when the three percentages do
    /// not add up to exactly 100.
    pub fn new(o2: u8, he: u8, n2: u8) -> (r: Result<Self, GasError>)
        ensures
            r.is_ok() <==> o2 + he + n2 == 100,
            r matches Ok(g) ==> g == (Gas { o2, he, n2 }) && g.valid(),
            r matches Err(e) ==> e == GasError::FractionError,
    {
        if (o2 as u32) + (he as u32) + (n2 as u32) != 100 {
            Err(GasError::FractionError)
        } else {
            Ok(Self { o2, he, n2 })
        }
    }

    pub fn o2(&self) -> (r: u8)
        ensures
            r == self.o2,
    {
        self.o2
    }

    pub fn he(&self) -> (r: u8)
        ensures
            r == self.he,
    {
        self.he
    }

    pub fn n2(&self) -> (r: u8)
        ensures
            r == self.n2,
    {
        self.n2
    }

    /// Spec view of the oxygen percentage.
    pub open spec fn spec_o2(self) -> int {
        self.o2 as int
    }

    /// Spec view of the helium percentage.
    pub open spec fn spec_he(self) -> int {
        self.he as int
    }

    /// Spec view of the nitrogen percentage.
    pub open spec fn spec_n2(self) -> int {
        self.n2 as int
    }

    /// The air-equivalent depth whose nitrogen narcosis matches this mix
    /// at `depth`, truncated to whole metres and floored at zero.
    pub fn equivalent_narcotic_depth(&self, depth: Depth) -> (r: Depth)
        requires
            self.valid(),
            depth.0 <= MAX_DEPTH,
        ensures
            r.0 == spec_narcotic_depth(depth.0 as int, self.he as int),
    {
        proof {
            vstd::arithmetic::mul::lemma_mul_upper_bound(
                depth.0 + 10,
                MAX_DEPTH + 10,
                100 - self.he,
                100,
            );
        }
        let raw: u64 = (((depth.0 as u64) + 10) * ((100 - self.he) as u64)) / 100;
        if raw >= 10 {
            Depth((raw - 10) as u32)
        } else {
            Depth(0)
        }
    }

    /// Partial pressure of oxygen at `depth`.
    pub fn pp_o2(&self, depth: Depth, environment: Environment) -> (r: Pressure)
        requires
            self.valid(),
            environment.valid(),
            depth.0 <= MAX_DEPTH,
        ensures
            r.0 == spec_partial_pressure(environment.spec_pressure(depth.0 as int), self.o2 as int),
    {
        let ambient = depth.pressure(environment);
        proof {
            vstd::arithmetic::mul::lemma_mul_upper_bound(
                ambient.0 as int,
                2_002_000_000_000,
                self.o2 as int,
                100,
            );
        }
        Pressure((((ambient.0 as u128) * (self.o2 as u128)) / 100) as u64)
    }

    /// Partial pressure of helium at `depth`.
    pub fn pp_he(&self, depth: Depth, environment: Environment) -> (r: Pressure)
        requires
            self.valid(),
            environment.valid(),
            depth.0 <= MAX_DEPTH,
        ensures
            r.0 == spec_partial_pressure(environment.spec_pressure(depth.0 as int), self.he as int),
    {
        let ambient = depth.pressure(environment);
        proof {
            vstd::arithmetic::mul::lemma_mul_upper_bound(
                ambient.0 as int,
                2_002_000_000_000,
                self.he as int,
                100,
            );
        }
        Pressure((((ambient.0 as u128) * (self.he as u128)) / 100) as u64)
    }

    /// Partial pressure of nitrogen at `depth`.
    pub fn pp_n2(&self, depth: Depth, environment: Environment) -> (r: Pressure)
        requires
            self.valid(),
            environment.valid(),
            depth.0 <= MAX_DEPTH,
        ensures
            r.0 == spec_partial_pressure(environment.spec_pressure(depth.0 as int), self.n2 as int),
    {
        let ambient = depth.pressure(environment);
        proof {
            vstd::arithmetic::mul::lemma_mul_upper_bound(
                ambient.0 as int,
                2_002_000_000_000,
                self.n2 as int,
                100,
            );
        }
        Pressure((((ambient.0 as u128) * (self.n2 as u128)) / 100) as u64)
    }

    /// True when the oxygen partial pressure at `depth` lies in
    /// `[min, max]`.
    pub fn ppo2_in_range(&self, depth: Depth, min: Pressure, max: Pressure, environment: Environment) -> (r: bool)
        requires
            self.valid(),
            environment.valid(),
            depth.0 <= MAX_DEPTH,
        ensures
            r <==> min.0 <= spec_partial_pressure(
                environment.spec_pressure(depth.0 as int),
                self.o2 as int,
            ) <= max.0,
    {
        let ppo2 = self.pp_o2(depth, environment);
        min.0 <= ppo2.0 && ppo2.0 <= max.0
    }

    /// The deepest depth at which the oxygen partial pressure stays at or
    /// under `max_pp_o2`, in whole metres.
    pub fn max_operating_depth(&self, max_pp_o2: Pressure, environment: Environment) -> (r: Depth)
        requires
            self.valid(),
            environment.valid(),
            self.o2 >= 1,
            max_pp_o2.0 <= 100_000_000_000,
        ensures
            r.0 == environment.spec_equivalent_depth(max_pp_o2.0 * 100 / (self.o2 as int)),
    {
        let limit: u64 = (max_pp_o2.0 * 100) / (self.o2 as u64);
        Pressure(limit).equivalent_depth(environment)
    }
}

} // verus!
