//! The diver's tissue state: sixteen nitrogen and sixteen helium
//! compartment pressures, in nanobar.

use vstd::prelude::*;
use crate::units::{PRESSURE_SCALE, WATER_VAPOUR_PRESSURE};

verus! {

/// Number of tissue compartments in the model.
pub const TISSUE_COUNT: usize = 16;

/// Highest compartment pressure the model accepts, in nanobar
/// (4000 bar; far above anything a dive can load).
pub const MAX_TISSUE_PRESSURE: u64 = 4_000_000_000_000;

/// Inert-gas partial pressures of all compartments.
#[derive(Clone, Copy, Debug)]
pub struct Tissue {
    pub p_n2: [u64; 16],
    pub p_he: [u64; 16],
}

impl Tissue {
    /// Nitrogen pressures as a sequence of integers.
    pub open spec fn n2(self) -> Seq<int> {
        self.p_n2@.map_values(|v: u64| v as int)
    }

    /// Helium pressures as a sequence of integers.
    pub open spec fn he(self) -> Seq<int> {
        self.p_he@.map_values(|v: u64| v as int)
    }

    /// Every compartment pressure is within bounds, and no compartment is
    /// entirely empty of inert gas (the ceiling blend divides by the
    /// compartment's total inert pressure).
    pub open spec fn valid(self) -> bool {
        &&& forall|i: int| 0 <= i < 16 ==> 0 <= #[trigger] self.n2()[i] <= MAX_TISSUE_PRESSURE
        &&& forall|i: int| 0 <= i < 16 ==> 0 <= #[trigger] self.he()[i] <= MAX_TISSUE_PRESSURE
        &&& forall|i: int| 0 <= i < 16 ==> #[trigger] self.n2()[i] + #[trigger] self.he()[i] >= 1
    }

    pub fn new(p_n2: [u64; 16], p_he: [u64; 16]) -> (r: Self)
        requires
            (Tissue { p_n2, p_he }).valid(),
        ensures
            r == (Tissue { p_n2, p_he }),
    {
        Self { p_n2, p_he }
    }

    pub fn p_n2(&self) -> (r: [u64; 16])
        ensures
            r == self.p_n2,
    {
        self.p_n2
    }

    pub fn p_he(&self) -> (r: [u64; 16])
        ensures
            r == self.p_he,
    {
        self.p_he
    }

    /// The nitrogen pressure every compartment of a surface-saturated
    /// air breather holds: 79% of one bar less the water vapour pressure.
    pub open spec fn spec_surface_n2() -> int {
        79 * (PRESSURE_SCALE - WATER_VAPOUR_PRESSURE) / 100
    }

    /// Tissue of a diver who has breathed air at one atmosphere
    /// indefinitely: every nitrogen compartment at
    /// `0.79 * (1 - 0.06257)` bar, every helium compartment empty.
    pub fn surface_air() -> (r: Self)
        ensures
            forall|i: int| 0 <= i < 16 ==> #[trigger] r.n2()[i] == Self::spec_surface_n2(),
            forall|i: int| 0 <= i < 16 ==> #[trigger] r.he()[i] == 0,
            r.valid(),
    {
        let adjusted: u64 = (79 * (PRESSURE_SCALE - WATER_VAPOUR_PRESSURE)) / 100;
        Self { p_n2: [adjusted; 16], p_he: [0u64; 16] }
    }
}

impl Default for Tissue {
    /// The surface-saturated air breather.
    fn default() -> (r: Self)
        ensures
            forall|i: int| 0 <= i < 16 ==> #[trigger] r.n2()[i] == Self::spec_surface_n2(),
            forall|i: int| 0 <= i < 16 ==> #[trigger] r.he()[i] == 0,
            r.valid(),
    {
        Self::surface_air()
    }
}

} // verus!
