//! A diving cylinder: a gas mix with a volume and a service pressure.

use vstd::prelude::*;
use crate::gas::Gas;

verus! {

/// A cylinder filled with some gas mix.
#[derive(Clone, Copy, Debug, PartialEq, Eq, Structural)]
pub struct Tank {
    pub gas: Gas,
    pub raw_volume: u64,
    pub service_pressure: u64,
}

impl Tank {
    /// Returns a tank holding `gas`, with `raw_volume` litres of physical
    /// space and the manufacturer's `service_pressure`.
    pub fn new(gas: Gas, raw_volume: u64, service_pressure: u64) -> (r: Self)
        ensures
            r == (Tank { gas, raw_volume, service_pressure }),
    {
        Tank { gas, raw_volume, service_pressure }
    }
}

} // verus!
