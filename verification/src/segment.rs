//! One leg of a dive: a tagged record of depths, duration and rates,
//! validated on construction.

use vstd::prelude::*;
use crate::environment::Environment;
use crate::units::{Depth, GasConsumption, Rate, MAX_DEPTH, MAX_SEGMENT_SECONDS, PRESSURE_SCALE};

verus! {

/// Failure of segment construction.
#[derive(Clone, Copy, Debug, PartialEq, Eq, Structural)]
pub enum DiveSegmentError {
    /// The segment type does not agree with the start and end depths.
    InconsistentDepth,
}

/// What a segment stands for.
#[derive(Clone, Copy, Debug, PartialEq, Eq, Structural)]
pub enum SegmentType {
    /// Remaining no-decompression time at the current depth.
    NoDeco,
    /// A mandatory decompression stop.
    DecoStop,
    /// Time spent at constant depth.
    Bottom,
    /// A depth change at a constant rate.
    AscDesc,
}

/// A dive segment.  `AscDesc` segments, and only those, change depth.
#[derive(Clone, Copy, Debug, PartialEq, Eq, Structural)]
pub struct Segment {
    pub segment_type: SegmentType,
    pub start_depth: Depth,
    pub end_depth: Depth,
    pub time: u64,
    pub ascent_rate: Rate,
    pub descent_rate: Rate,
}

impl Segment {
    /// The shape every constructed segment has: the type agrees with the
    /// depths, and depths and duration lie within the model's bounds.
    pub open spec fn valid(self) -> bool {
        &&& (self.segment_type is AscDesc <==> self.start_depth.0 != self.end_depth.0)
        &&& self.start_depth.0 <= MAX_DEPTH
        &&& self.end_depth.0 <= MAX_DEPTH
        &&& self.time <= MAX_SEGMENT_SECONDS
    }

    /// Returns the segment, or `InconsistentDepth` when an `AscDesc`
    /// segment has equal depths or any other type has differing ones.
    pub fn new(
        segment_type: SegmentType,
        start_depth: Depth,
        end_depth: Depth,
        time: u64,
        ascent_rate: Rate,
        descent_rate: Rate,
    ) -> (r: Result<Self, DiveSegmentError>)
        requires
            start_depth.0 <= MAX_DEPTH,
            end_depth.0 <= MAX_DEPTH,
            time <= MAX_SEGMENT_SECONDS,
        ensures
            r.is_ok() <==> (segment_type is AscDesc <==> start_depth.0 != end_depth.0),
            r matches Ok(s) ==> s == (Segment {
                segment_type,
                start_depth,
                end_depth,
                time,
                ascent_rate,
                descent_rate,
            }) && s.valid(),
            r matches Err(e) ==> e == DiveSegmentError::InconsistentDepth,
    {
        let depths_equal = start_depth.0 == end_depth.0;
        let is_asc_desc = matches!(segment_type, SegmentType::AscDesc);
        if is_asc_desc == depths_equal {
            Err(DiveSegmentError::InconsistentDepth)
        } else {
            Ok(Self { segment_type, start_depth, end_depth, time, ascent_rate, descent_rate })
        }
    }

    pub fn segment_type(&self) -> (r: SegmentType)
        ensures
            r == self.segment_type,
    {
        self.segment_type
    }

    pub fn start_depth(&self) -> (r: Depth)
        ensures
            r == self.start_depth,
    {
        self.start_depth
    }

    pub fn end_depth(&self) -> (r: Depth)
        ensures
            r == self.end_depth,
    {
        self.end_depth
    }

    /// Duration of the segment, in seconds.
    pub fn time(&self) -> (r: u64)
        ensures
            r == self.time,
    {
        self.time
    }

    pub fn ascent_rate(&self) -> (r: Rate)
        ensures
            r == self.ascent_rate,
    {
        self.ascent_rate
    }

    pub fn descent_rate(&self) -> (r: Rate)
        ensures
            r == self.descent_rate,
    {
        self.descent_rate
    }

    /// The depth whose ambient pressure prices this segment's gas use:
    /// the midpoint for a depth change, the end depth otherwise.
    pub open spec fn spec_reference_depth(self) -> int {
        if self.segment_type is AscDesc {
            (self.start_depth.0 + self.end_depth.0) / 2
        } else {
            self.end_depth.0 as int
        }
    }

    /// Surface litres consumed over this segment at the given surface
    /// consumption rate: reference pressure in bar, times minutes, times
    /// the rate, rounded down.
    pub open spec fn spec_gas_consumed(self, sac: int, env: Environment) -> int {
        env.spec_pressure(self.spec_reference_depth()) * self.time * sac
            / (60 * PRESSURE_SCALE)
    }

    /// Gas consumed over this segment at `sac` surface litres per minute.
    pub fn gas_consumed(&self, sac: u32, environment: Environment) -> (r: GasConsumption)
        requires
            self.valid(),
            environment.valid(),
        ensures
            r.0 == self.spec_gas_consumed(sac as int, environment),
    {
        let reference = match self.segment_type {
            SegmentType::AscDesc => Depth((self.start_depth.0 + self.end_depth.0) / 2),
            _ => self.end_depth,
        };
        let pressure = reference.pressure(environment);
        proof {
            vstd::arithmetic::mul::lemma_mul_upper_bound(
                pressure.0 as int,
                2_002_000_000_000,
                self.time as int,
                MAX_SEGMENT_SECONDS as int,
            );
            vstd::arithmetic::mul::lemma_mul_upper_bound(
                pressure.0 * self.time,
                2_002_000_000_000 * MAX_SEGMENT_SECONDS,
                sac as int,
                u32::MAX as int,
            );
        }
        let total: u128 = (pressure.0 as u128) * (self.time as u128) * (sac as u128);
        GasConsumption(total / (60 * (PRESSURE_SCALE as u128)))
    }
}

} // verus!
