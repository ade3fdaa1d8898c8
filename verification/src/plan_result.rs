//! The outcome of a dive plan: the tissue state at the end, the full
//! schedule, and the gas consumed.

use vstd::prelude::*;
use crate::gas::Gas;
use crate::segment::Segment;
use crate::tissue::Tissue;
use crate::units::GasConsumption;

verus! {

/// A finished plan.  `gas_used` maps each gas of the schedule to its
/// consumed volume; its keys never repeat.
#[derive(Clone, Debug)]
pub struct PlanResult {
    pub end_tissue: Tissue,
    pub segments: Vec<(Segment, Gas)>,
    pub gas_used: Vec<(Gas, GasConsumption)>,
}

impl PlanResult {
    pub fn new(
        end_tissue: Tissue,
        segments: Vec<(Segment, Gas)>,
        gas_used: Vec<(Gas, GasConsumption)>,
    ) -> (r: Self)
        ensures
            r.end_tissue == end_tissue,
            r.segments == segments,
            r.gas_used == gas_used,
    {
        Self { end_tissue, segments, gas_used }
    }

    pub fn end_tissue(&self) -> (r: Tissue)
        ensures
            r == self.end_tissue,
    {
        self.end_tissue
    }

    pub fn segments(&self) -> (r: &Vec<(Segment, Gas)>)
        ensures
            r == &self.segments,
    {
        &self.segments
    }

    pub fn gas_used(&self) -> (r: &Vec<(Gas, GasConsumption)>)
        ensures
            r == &self.gas_used,
    {
        &self.gas_used
    }
}

} // verus!
