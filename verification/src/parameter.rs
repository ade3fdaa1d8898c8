//! The fixed inputs of a dive plan: rates, environment and surface air
//! consumption.

use vstd::prelude::*;
use crate::environment::Environment;
use crate::units::Rate;

verus! {

/// Rates, environment and per-minute surface air consumption for bottom
/// and decompression segments.
#[derive(Clone, Copy, Debug)]
pub struct Parameters {
    pub ascent_rate: Rate,
    pub descent_rate: Rate,
    pub environment: Environment,
    pub sac_bottom: u32,
    pub sac_deco: u32,
}

impl Parameters {
    /// Rates must be nonzero so depth changes take a finite, defined
    /// time, and the environment must be one the model accepts.
    pub open spec fn valid(self) -> bool {
        &&& self.ascent_rate.0 != 0
        &&& self.descent_rate.0 != 0
        &&& self.environment.valid()
    }

    pub fn new(
        ascent_rate: Rate,
        descent_rate: Rate,
        environment: Environment,
        sac_bottom: u32,
        sac_deco: u32,
    ) -> (r: Self)
        requires
            ascent_rate.0 != 0,
            descent_rate.0 != 0,
            environment.valid(),
        ensures
            r == (Parameters { ascent_rate, descent_rate, environment, sac_bottom, sac_deco }),
            r.valid(),
    {
        Parameters { ascent_rate, descent_rate, environment, sac_bottom, sac_deco }
    }

    pub fn ascent_rate(&self) -> (r: Rate)
        ensures
            r == self.ascent_rate,
    {
        self.ascent_rate
    }

    pub fn descent_rate(&self) -> (r: Rate)
        ensures
            r == self.descent_rate,
    {
        self.descent_rate
    }

    pub fn environment(&self) -> (r: Environment)
        ensures
            r == self.environment,
    {
        self.environment
    }

    pub fn sac_bottom(&self) -> (r: u32)
        ensures
            r == self.sac_bottom,
    {
        self.sac_bottom
    }

    pub fn sac_deco(&self) -> (r: u32)
        ensures
            r == self.sac_deco,
    {
        self.sac_deco
    }
}

} // verus!
