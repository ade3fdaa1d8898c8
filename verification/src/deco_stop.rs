//! A bare decompression-stop record: depth and minutes, without rates.

use vstd::prelude::*;

verus! {

/// Whether a stop is a mandatory hold or remaining no-stop time.
#[derive(Clone, Copy, Debug, PartialEq, Eq, Structural)]
pub enum StopType {
    NoDeco,
    Stop,
}

/// A decompression stop: its kind, depth in metres and time in minutes.
#[derive(Clone, Copy, Debug, PartialEq, Eq, Structural)]
pub struct DecoStop {
    pub deco_type: StopType,
    pub depth: u64,
    pub time: u64,
}

impl DecoStop {
    pub fn new(deco_type: StopType, depth: u64, time: u64) -> (r: Self)
        ensures
            r == (DecoStop { deco_type, depth, time }),
    {
        Self { deco_type, depth, time }
    }

    pub fn get_deco_type(&self) -> (r: StopType)
        ensures
            r == self.deco_type,
    {
        self.deco_type
    }

    pub fn get_depth(&self) -> (r: u64)
        ensures
            r == self.depth,
    {
        self.depth
    }

    pub fn get_time(&self) -> (r: u64)
        ensures
            r == self.time,
    {
        self.time
    }
}

} // verus!
