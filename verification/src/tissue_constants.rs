//! The published ZHL-16 compartment tables, in the fixed-point form the
//! engine consumes.
//!
//! Half-lives are carried as per-second loading factors: for a half-life
//! of `h` minutes the factor is `(1 - 2^(-1 / (60 h)))` scaled by
//! `LOAD_SCALE`.  One second of exposure moves a compartment that
//! fraction of the way towards the inspired pressure, which iterated
//! gives exactly the Haldane equation.  The `a` and `b` coefficients are
//! scaled by `PRESSURE_SCALE` (so `a` is in nanobar).

use vstd::prelude::*;

verus! {

/// Scale of the per-second loading factors.
pub const LOAD_SCALE: u64 = 1_000_000_000_000;

/// Largest `a` coefficient the model accepts, in nanobar (10 bar).
pub const MAX_A_VALUE: u64 = 10_000_000_000;

/// Per-second nitrogen loading factors of ZHL-16B (half-lives 5.0, 8.0,
/// 12.5, 18.5, 27.0, 38.3, 54.3, 77.0, 109.0, 146.0, 187.0, 239.0,
/// 305.0, 390.0, 498.0 and 635.0 minutes).
pub const ZHL16B_N2_LOAD: [u64; 16] = [
    2_307_823_473, 1_443_014_478, 923_769_303, 624_261_987,
    427_777_107, 301_585_141, 212_729_727, 150_020_603,
    105_980_191, 79_123_260, 61_775_915, 48_335_455,
    37_876_178, 29_621_236, 23_197_428, 18_192_674,
];

/// Per-second helium loading factors of ZHL-16B (half-lives 1.88, 3.02,
/// 4.72, 6.99, 10.21, 14.48, 20.53, 29.11, 41.20, 55.19, 70.69, 90.34,
/// 115.29, 147.42, 188.24 and 240.03 minutes).
pub const ZHL16B_HE_LOAD: [u64; 16] = [
    6_126_080_394, 3_818_008_367, 2_444_560_787, 1_651_346_471,
    1_130_844_247, 797_503_166, 562_552_522, 396_776_399,
    280_360_037, 209_299_583, 163_410_795, 127_869_320,
    100_198_406, 78_361_148, 61_368_989, 48_128_047,
];

/// Per-second nitrogen loading factors of ZHL-16C; compartment 0 uses a
/// 4.0-minute half-life, the rest match ZHL-16B.
pub const ZHL16C_N2_LOAD: [u64; 16] = [
    2_883_946_665, 1_443_014_478, 923_769_303, 624_261_987,
    427_777_107, 301_585_141, 212_729_727, 150_020_603,
    105_980_191, 79_123_260, 61_775_915, 48_335_455,
    37_876_178, 29_621_236, 23_197_428, 18_192_674,
];

/// Per-second helium loading factors of ZHL-16C; compartment 0 uses a
/// 1.51-minute half-life, the rest match ZHL-16B.
pub const ZHL16C_HE_LOAD: [u64; 16] = [
    7_621_439_546, 3_818_008_367, 2_444_560_787, 1_651_346_471,
    1_130_844_247, 797_503_166, 562_552_522, 396_776_399,
    280_360_037, 209_299_583, 163_410_795, 127_869_320,
    100_198_406, 78_361_148, 61_368_989, 48_128_047,
];

/// Nitrogen `a` coefficients of ZHL-16B, in nanobar.
pub const ZHL16B_N2_A: [u64; 16] = [
    1_169_600_000, 1_000_000_000, 861_800_000, 756_200_000,
    666_700_000, 560_000_000, 494_700_000, 450_000_000,
    418_700_000, 379_800_000, 349_700_000, 322_300_000,
    285_000_000, 273_700_000, 252_300_000, 232_700_000,
];

/// Nitrogen `b` coefficients of ZHL-16B, scaled by `PRESSURE_SCALE`.
pub const ZHL16B_N2_B: [u64; 16] = [
    557_800_000, 651_400_000, 722_200_000, 782_500_000,
    812_600_000, 843_400_000, 869_300_000, 891_000_000,
    909_200_000, 922_200_000, 931_900_000, 940_300_000,
    947_700_000, 954_400_000, 960_200_000, 965_300_000,
];

/// Helium `a` coefficients of ZHL-16B, in nanobar.
pub const ZHL16B_HE_A: [u64; 16] = [
    1_618_900_000, 1_383_000_000, 1_191_900_000, 1_045_800_000,
    922_000_000, 820_500_000, 730_500_000, 650_200_000,
    595_000_000, 554_500_000, 533_300_000, 518_900_000,
    518_100_000, 517_600_000, 517_200_000, 511_900_000,
];

/// Helium `b` coefficients of ZHL-16B, scaled by `PRESSURE_SCALE`.
pub const ZHL16B_HE_B: [u64; 16] = [
    477_000_000, 574_700_000, 652_700_000, 722_300_000,
    758_200_000, 795_700_000, 827_900_000, 855_300_000,
    875_700_000, 890_300_000, 899_700_000, 907_300_000,
    912_200_000, 917_100_000, 921_700_000, 926_700_000,
];

/// Nitrogen `a` coefficients of ZHL-16C, in nanobar.
pub const ZHL16C_N2_A: [u64; 16] = [
    1_259_900_000, 1_000_000_000, 861_800_000, 756_200_000,
    620_000_000, 504_300_000, 441_000_000, 400_000_000,
    375_000_000, 350_000_000, 329_500_000, 306_500_000,
    283_500_000, 261_000_000, 248_000_000, 232_700_000,
];

/// Nitrogen `b` coefficients of ZHL-16C, scaled by `PRESSURE_SCALE`.
pub const ZHL16C_N2_B: [u64; 16] = [
    505_000_000, 651_400_000, 722_200_000, 782_500_000,
    812_600_000, 843_400_000, 869_300_000, 891_000_000,
    909_200_000, 922_200_000, 931_900_000, 940_300_000,
    947_700_000, 954_400_000, 960_200_000, 965_300_000,
];

/// Helium `a` coefficients of ZHL-16C, in nanobar.
pub const ZHL16C_HE_A: [u64; 16] = [
    1_742_400_000, 1_383_000_000, 1_191_900_000, 1_045_800_000,
    922_000_000, 820_500_000, 730_500_000, 650_200_000,
    595_000_000, 554_500_000, 533_300_000, 518_900_000,
    518_100_000, 517_600_000, 517_200_000, 511_900_000,
];

/// Helium `b` coefficients of ZHL-16C, scaled by `PRESSURE_SCALE`.
pub const ZHL16C_HE_B: [u64; 16] = [
    424_500_000, 574_700_000, 652_700_000, 722_300_000,
    758_200_000, 795_700_000, 827_900_000, 855_300_000,
    875_700_000, 890_300_000, 899_700_000, 907_300_000,
    912_200_000, 917_100_000, 921_700_000, 926_700_000,
];

/// Which published parameter set to use.
#[derive(Clone, Copy, Debug, PartialEq, Eq, Structural)]
pub enum Variant {
    B,
    C,
}

/// One full set of compartment constants.
#[derive(Clone, Copy, Debug)]
pub struct TissueConstants {
    pub n2_load: [u64; 16],
    pub n2_a: [u64; 16],
    pub n2_b: [u64; 16],
    pub he_load: [u64; 16],
    pub he_a: [u64; 16],
    pub he_b: [u64; 16],
}

impl TissueConstants {
    /// Bounds every set of constants must meet: loading factors strictly
    /// under one (a second of loading never overshoots the inspired
    /// pressure and never empties a loaded compartment), `a` at most ten
    /// bar, `b` at most one.
    pub open spec fn valid(self) -> bool {
        &&& forall|i: int| 0 <= i < 16 ==> #[trigger] self.n2_load@[i] < LOAD_SCALE
        &&& forall|i: int| 0 <= i < 16 ==> #[trigger] self.he_load@[i] < LOAD_SCALE
        &&& forall|i: int| 0 <= i < 16 ==> #[trigger] self.n2_a@[i] <= MAX_A_VALUE
        &&& forall|i: int| 0 <= i < 16 ==> #[trigger] self.he_a@[i] <= MAX_A_VALUE
        &&& forall|i: int| 0 <= i < 16 ==> #[trigger] self.n2_b@[i] <= 1_000_000_000
        &&& forall|i: int| 0 <= i < 16 ==> #[trigger] self.he_b@[i] <= 1_000_000_000
    }

    /// Builds a set from caller-supplied tables, in the same fixed-point
    /// form the published ones use.
    pub fn new(
        n2_load: [u64; 16],
        n2_a: [u64; 16],
        n2_b: [u64; 16],
        he_load: [u64; 16],
        he_a: [u64; 16],
        he_b: [u64; 16],
    ) -> (r: Self)
        requires
            (TissueConstants { n2_load, n2_a, n2_b, he_load, he_a, he_b }).valid(),
        ensures
            r == (TissueConstants { n2_load, n2_a, n2_b, he_load, he_a, he_b }),
    {
        Self { n2_load, n2_a, n2_b, he_load, he_a, he_b }
    }

    /// The published tables of the chosen variant.
    pub fn new_by_variant(variant: Variant) -> (r: Self)
        ensures
            variant is B ==> r == (TissueConstants {
                n2_load: ZHL16B_N2_LOAD,
                n2_a: ZHL16B_N2_A,
                n2_b: ZHL16B_N2_B,
                he_load: ZHL16B_HE_LOAD,
                he_a: ZHL16B_HE_A,
                he_b: ZHL16B_HE_B,
            }),
            variant is C ==> r == (TissueConstants {
                n2_load: ZHL16C_N2_LOAD,
                n2_a: ZHL16C_N2_A,
                n2_b: ZHL16C_N2_B,
                he_load: ZHL16C_HE_LOAD,
                he_a: ZHL16C_HE_A,
                he_b: ZHL16C_HE_B,
            }),
            r.valid(),
    {
        match variant {
            Variant::B => Self {
                n2_load: ZHL16B_N2_LOAD,
                n2_a: ZHL16B_N2_A,
                n2_b: ZHL16B_N2_B,
                he_load: ZHL16B_HE_LOAD,
                he_a: ZHL16B_HE_A,
                he_b: ZHL16B_HE_B,
            },
            Variant::C => Self {
                n2_load: ZHL16C_N2_LOAD,
                n2_a: ZHL16C_N2_A,
                n2_b: ZHL16C_N2_B,
                he_load: ZHL16C_HE_LOAD,
                he_a: ZHL16C_HE_A,
                he_b: ZHL16C_HE_B,
            },
        }
    }

    pub fn n2_load(&self) -> (r: [u64; 16])
        ensures
            r == self.n2_load,
    {
        self.n2_load
    }

    pub fn n2_a(&self) -> (r: [u64; 16])
        ensures
            r == self.n2_a,
    {
        self.n2_a
    }

    pub fn n2_b(&self) -> (r: [u64; 16])
        ensures
            r == self.n2_b,
    {
        self.n2_b
    }

    pub fn he_load(&self) -> (r: [u64; 16])
        ensures
            r == self.he_load,
    {
        self.he_load
    }

    pub fn he_a(&self) -> (r: [u64; 16])
        ensures
            r == self.he_a,
    {
        self.he_a
    }

    pub fn he_b(&self) -> (r: [u64; 16])
        ensures
            r == self.he_b,
    {
        self.he_b
    }
}

} // verus!
