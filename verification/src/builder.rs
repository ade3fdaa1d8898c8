//! A builder for the engine, for callers who want to start from a
//! diver mid-dive or supply their own constants.

use vstd::prelude::*;
use crate::engine::ZHL16;
use crate::gradient_factor::GradientFactor;
use crate::tissue::Tissue;
use crate::tissue_constants::{TissueConstants, Variant};
use crate::units::{Depth, MAX_DEPTH};

verus! {

/// Collects the parts of an engine; `finish` assembles them.  Starts
/// as a surfaced air-saturated diver on the ZHL-16B tables with plain
/// Buhlmann factors.
#[derive(Clone, Copy, Debug)]
pub struct ZHL16Builder {
    pub tissue: Tissue,
    pub diver_depth: Depth,
    pub first_deco_depth: Option<Depth>,
    pub gradient_factor: GradientFactor,
    pub constants: TissueConstants,
}

impl ZHL16Builder {
    /// What `finish` needs of the collected parts.
    pub open spec fn valid(self) -> bool {
        &&& self.tissue.valid()
        &&& self.constants.valid()
        &&& self.gradient_factor.valid()
        &&& self.diver_depth.0 <= MAX_DEPTH
        &&& (self.first_deco_depth matches Some(d) ==> d.0 <= MAX_DEPTH)
    }

    /// A surfaced air-saturated diver on ZHL-16B with both gradient
    /// factors at one hundred percent.
    pub fn new() -> (r: Self)
        ensures
            r.diver_depth == Depth(0),
            r.first_deco_depth is None,
            r.gradient_factor == (GradientFactor { low: 100, high: 100 }),
            r.constants == crate::engine::spec_variant_constants(Variant::B),
            r.tissue.valid(),
            forall|i: int| 0 <= i < 16 ==> #[trigger] r.tissue.n2()[i]
                == Tissue::spec_surface_n2(),
            forall|i: int| 0 <= i < 16 ==> #[trigger] r.tissue.he()[i] == 0,
            r.valid(),
    {
        Self {
            tissue: Tissue::surface_air(),
            diver_depth: Depth(0),
            first_deco_depth: None,
            gradient_factor: GradientFactor::new(100, 100),
            constants: TissueConstants::new_by_variant(Variant::B),
        }
    }

    /// Sets the tissue compartments to start from.
    pub fn tissue(self, tissue: Tissue) -> (r: Self)
        requires
            tissue.valid(),
        ensures
            r == (ZHL16Builder { tissue, ..self }),
    {
        Self { tissue, ..self }
    }

    /// Sets the diver's current depth.
    pub fn current_depth(self, depth: Depth) -> (r: Self)
        requires
            depth.0 <= MAX_DEPTH,
        ensures
            r == (ZHL16Builder { diver_depth: depth, ..self }),
    {
        Self { diver_depth: depth, ..self }
    }

    /// Sets the depth of the first committed decompression stop; zero
    /// means decompression has not begun.
    pub fn first_deco_depth(self, depth: Depth) -> (r: Self)
        requires
            depth.0 <= MAX_DEPTH,
        ensures
            r == (ZHL16Builder {
                first_deco_depth: if depth.0 == 0 {
                    None
                } else {
                    Some(depth)
                },
                ..self
            }),
    {
        Self {
            first_deco_depth: if depth.0 == 0 {
                None
            } else {
                Some(depth)
            },
            ..self
        }
    }

    /// Sets the gradient factor pair.
    pub fn gradient_factor(self, gf: GradientFactor) -> (r: Self)
        requires
            gf.valid(),
        ensures
            r == (ZHL16Builder { gradient_factor: gf, ..self }),
    {
        Self { gradient_factor: gf, ..self }
    }

    /// Selects the published tables of a variant.
    pub fn variant(self, variant: Variant) -> (r: Self)
        ensures
            r == (ZHL16Builder {
                constants: crate::engine::spec_variant_constants(variant),
                ..self
            }),
    {
        Self { constants: TissueConstants::new_by_variant(variant), ..self }
    }

    /// Sets the compartment constants directly.
    pub fn tissue_constants(self, constants: TissueConstants) -> (r: Self)
        requires
            constants.valid(),
        ensures
            r == (ZHL16Builder { constants, ..self }),
    {
        Self { constants, ..self }
    }

    /// Assembles the engine.
    pub fn finish(self) -> (r: ZHL16)
        requires
            self.valid(),
        ensures
            r == (ZHL16 {
                tissue: self.tissue,
                tissue_constants: self.constants,
                diver_depth: self.diver_depth,
                first_deco_depth: self.first_deco_depth,
                gf: self.gradient_factor,
            }),
            r.valid(),
    {
        ZHL16 {
            tissue: self.tissue,
            tissue_constants: self.constants,
            diver_depth: self.diver_depth,
            first_deco_depth: self.first_deco_depth,
            gf: self.gradient_factor,
        }
    }
}

} // verus!
