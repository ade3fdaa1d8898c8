//! The ZHL-16 decompression engine: tissue state plus the constants,
//! depth, gradient factors and first-stop latch that drive it.

use vstd::prelude::*;
use crate::environment::Environment;
use crate::gas::Gas;
use crate::gradient_factor::GradientFactor;
use crate::model::{
    flat_steps, gas_seq_ok, inspired_pressure, lemma_blend_coeff_bound,
    lemma_comp_ceiling_bound, lemma_flat_steps_ok, lemma_ramp_ambient_bounds,
    lemma_ramp_steps_ok, lemma_scaled_distance, lemma_step_comp_bounds, lemma_step_gas_ok,
    loads_ok, ramp_ambient, ramp_steps, spec_flat_inspired, spec_stop_depth,
    spec_stop_threshold, st_apply, st_bottom_minute, st_ceiling, st_ceiling_upto,
    st_comp_ceiling, st_deco_loop, st_gf, st_ndl, st_ndl_search, st_next_stop, st_stop_minute,
    st_stop_search, st_surface, step_comp, step_gas, EngineParams, EngineState, MAX_CEILING,
    MAX_INSPIRED_PRESSURE, NDL_CAP_MINUTES, STOP_SEARCH_FUEL, SURFACE_FUEL,
};
use crate::tissue_constants::MAX_A_VALUE;
use crate::segment::{Segment, SegmentType};
use crate::tissue::{Tissue, MAX_TISSUE_PRESSURE};
use crate::tissue_constants::{TissueConstants, Variant, LOAD_SCALE};
use crate::units::{Depth, Rate, MAX_DEPTH, MAX_SEGMENT_SECONDS, PRESSURE_SCALE, WATER_VAPOUR_PRESSURE};

verus! {

/// A ZHL-16 decompression model of a diver.
#[derive(Clone, Copy, Debug)]
pub struct ZHL16 {
    /// Current tissue loadings of the diver.
    pub tissue: Tissue,
    /// Compartment constants in use.
    pub tissue_constants: TissueConstants,
    /// Current depth of the diver.
    pub diver_depth: Depth,
    /// Depth of the first committed decompression stop, once one exists.
    pub first_deco_depth: Option<Depth>,
    /// Gradient factor pair in use.
    pub gf: GradientFactor,
}

impl ZHL16 {
    /// Nitrogen pressures as integers.
    pub open spec fn n2(self) -> Seq<int> {
        self.tissue.n2()
    }

    /// Helium pressures as integers.
    pub open spec fn he(self) -> Seq<int> {
        self.tissue.he()
    }

    /// Nitrogen loading factors as integers.
    pub open spec fn n2_load_view(self) -> Seq<int> {
        self.tissue_constants.n2_load@.map_values(|v: u64| v as int)
    }

    /// Helium loading factors as integers.
    pub open spec fn he_load_view(self) -> Seq<int> {
        self.tissue_constants.he_load@.map_values(|v: u64| v as int)
    }

    /// What every engine a caller can hold looks like.
    pub open spec fn valid(self) -> bool {
        &&& self.tissue.valid()
        &&& self.tissue_constants.valid()
        &&& self.gf.valid()
        &&& self.diver_depth.0 <= MAX_DEPTH
        &&& (self.first_deco_depth matches Some(d) ==> d.0 <= MAX_DEPTH)
    }

    /// Returns an engine over the given tissue and constants, with the
    /// diver at the surface and decompression not yet begun.
    pub fn new(tissue: Tissue, tissue_constants: TissueConstants, gf: GradientFactor) -> (r: Self)
        requires
            tissue.valid(),
            tissue_constants.valid(),
            gf.valid(),
        ensures
            r == (ZHL16 {
                tissue,
                tissue_constants,
                diver_depth: Depth(0),
                first_deco_depth: None::<Depth>,
                gf,
            }),
            r.valid(),
    {
        Self { tissue, tissue_constants, diver_depth: Depth(0), first_deco_depth: None, gf }
    }

    /// Returns an engine using the published tables of `variant`.
    pub fn new_by_variant(tissue: Tissue, gf_low: u8, gf_high: u8, variant: Variant) -> (r: Self)
        requires
            tissue.valid(),
            1 <= gf_low <= gf_high <= 100,
        ensures
            r == (ZHL16 {
                tissue,
                tissue_constants: spec_variant_constants(variant),
                diver_depth: Depth(0),
                first_deco_depth: None::<Depth>,
                gf: GradientFactor { low: gf_low, high: gf_high },
            }),
            r.valid(),
    {
        Self::new(
            tissue,
            TissueConstants::new_by_variant(variant),
            GradientFactor::new(gf_low, gf_high),
        )
    }

    /// Current tissue loadings.
    pub fn tissue(&self) -> (r: Tissue)
        ensures
            r == self.tissue,
    {
        self.tissue
    }

    /// Current depth of the model.
    pub fn model_depth(&self) -> (r: Depth)
        ensures
            r == self.diver_depth,
    {
        self.diver_depth
    }

    /// One second of loading for every compartment of both gases, at the
    /// given inspired pressures.
    fn step_all(&mut self, pi_n2: u64, pi_he: u64)
        requires
            old(self).valid(),
            pi_n2 <= MAX_INSPIRED_PRESSURE,
            pi_he <= MAX_INSPIRED_PRESSURE,
        ensures
            final(self).tissue.n2() == step_gas(old(self).n2(), old(self).n2_load_view(), pi_n2 as int),
            final(self).tissue.he() == step_gas(old(self).he(), old(self).he_load_view(), pi_he as int),
            final(self).tissue_constants == old(self).tissue_constants,
            final(self).diver_depth == old(self).diver_depth,
            final(self).first_deco_depth == old(self).first_deco_depth,
            final(self).gf == old(self).gf,
            final(self).valid(),
    {
        let ghost orig_n2 = self.n2();
        let ghost orig_he = self.he();
        let ghost load_n2 = self.n2_load_view();
        let ghost load_he = self.he_load_view();
        proof {
            assert(gas_seq_ok(orig_n2));
            assert(gas_seq_ok(orig_he));
            assert(loads_ok(load_n2));
            assert(loads_ok(load_he));
        }
        let mut i: usize = 0;
        while i < 16
            invariant
                0 <= i <= 16,
                self.tissue_constants == old(self).tissue_constants,
                self.diver_depth == old(self).diver_depth,
                self.first_deco_depth == old(self).first_deco_depth,
                self.gf == old(self).gf,
                old(self).valid(),
                pi_n2 <= MAX_INSPIRED_PRESSURE,
                pi_he <= MAX_INSPIRED_PRESSURE,
                orig_n2 == old(self).n2(),
                orig_he == old(self).he(),
                load_n2 == old(self).n2_load_view(),
                load_he == old(self).he_load_view(),
                gas_seq_ok(orig_n2),
                gas_seq_ok(orig_he),
                loads_ok(load_n2),
                loads_ok(load_he),
                forall|k: int| 0 <= k < i ==> (#[trigger] self.tissue.p_n2@[k]) as int
                    == step_comp(orig_n2[k], pi_n2 as int, load_n2[k]),
                forall|k: int| 0 <= k < i ==> (#[trigger] self.tissue.p_he@[k]) as int
                    == step_comp(orig_he[k], pi_he as int, load_he[k]),
                forall|k: int| i <= k < 16 ==> (#[trigger] self.tissue.p_n2@[k]) as int == orig_n2[k],
                forall|k: int| i <= k < 16 ==> (#[trigger] self.tissue.p_he@[k]) as int == orig_he[k],
            decreases 16 - i,
        {
            proof {
                lemma_step_comp_bounds(
                    self.tissue.p_n2@[i as int] as int,
                    pi_n2 as int,
                    self.tissue_constants.n2_load@[i as int] as int,
                );
                lemma_step_comp_bounds(
                    self.tissue.p_he@[i as int] as int,
                    pi_he as int,
                    self.tissue_constants.he_load@[i as int] as int,
                );
            }
            let new_n2 = step_value(
                self.tissue.p_n2[i],
                pi_n2,
                self.tissue_constants.n2_load[i],
            );
            let new_he = step_value(
                self.tissue.p_he[i],
                pi_he,
                self.tissue_constants.he_load[i],
            );
            self.tissue.p_n2[i] = new_n2;
            self.tissue.p_he[i] = new_he;
            i = i + 1;
        }
        proof {
            assert(self.tissue.n2() =~= step_gas(orig_n2, load_n2, pi_n2 as int));
            assert(self.tissue.he() =~= step_gas(orig_he, load_he, pi_he as int));
            lemma_step_gas_ok(orig_n2, load_n2, pi_n2 as int);
            lemma_step_gas_ok(orig_he, load_he, pi_he as int);
            assert forall|k: int| 0 <= k < 16 implies #[trigger] self.n2()[k] + self.he()[k]
                >= 1 by {
                lemma_step_comp_bounds(orig_n2[k], pi_n2 as int, load_n2[k]);
                lemma_step_comp_bounds(orig_he[k], pi_he as int, load_he[k]);
            }
        }
    }
}

/// An `Option<u8>` argument as the spec-level `Option<int>` it stands
/// for.
pub open spec fn opt_int(o: Option<u8>) -> Option<int> {
    match o {
        Some(g) => Some(g as int),
        None => None,
    }
}

impl ZHL16 {
    /// The changing half of this engine as a ghost state.
    pub open spec fn state_of(self) -> EngineState {
        EngineState {
            n2: self.n2(),
            he: self.he(),
            depth: self.diver_depth.0 as int,
            fdd: match self.first_deco_depth {
                None => None,
                Some(d) => Some(d.0 as int),
            },
        }
    }

    /// The fixed half of this engine as ghost parameters.
    pub open spec fn params_of(self) -> EngineParams {
        EngineParams {
            n2_load: self.n2_load_view(),
            n2_a: self.n2_a_view(),
            n2_b: self.n2_b_view(),
            he_load: self.he_load_view(),
            he_a: self.he_a_view(),
            he_b: self.he_b_view(),
            gf_low: self.gf.low as int,
            gf_high: self.gf.high as int,
        }
    }

    /// Nitrogen `a` coefficients as integers.
    pub open spec fn n2_a_view(self) -> Seq<int> {
        self.tissue_constants.n2_a@.map_values(|v: u64| v as int)
    }

    /// Nitrogen `b` coefficients as integers.
    pub open spec fn n2_b_view(self) -> Seq<int> {
        self.tissue_constants.n2_b@.map_values(|v: u64| v as int)
    }

    /// Helium `a` coefficients as integers.
    pub open spec fn he_a_view(self) -> Seq<int> {
        self.tissue_constants.he_a@.map_values(|v: u64| v as int)
    }

    /// Helium `b` coefficients as integers.
    pub open spec fn he_b_view(self) -> Seq<int> {
        self.tissue_constants.he_b@.map_values(|v: u64| v as int)
    }

    /// The gradient factor a ceiling query uses, as the rational
    /// `gn / (100 gd)` of the allowance: an explicit override verbatim;
    /// otherwise `gf_low` until decompression has begun; afterwards the
    /// line from `gf_low` at the first stop to `gf_high` at the surface,
    /// evaluated at the diver's depth and clamped to the pair's range.
    pub open spec fn spec_gf_pair(self, fr_gf_override: Option<int>) -> (int, int) {
        st_gf(self.state_of(), self.params_of(), fr_gf_override)
    }

    /// Ceiling of compartment `i` under gradient factor `gn / (100 gd)`.
    pub open spec fn spec_comp_ceiling_at(self, gn: int, gd: int, i: int) -> int {
        st_comp_ceiling(self.state_of(), self.params_of(), gn, gd, i)
    }

    /// Largest compartment ceiling among the first `k` compartments.
    pub open spec fn spec_ceiling_upto(self, gn: int, gd: int, k: nat) -> int {
        st_ceiling_upto(self.state_of(), self.params_of(), gn, gd, k)
    }

    /// The model's ascent ceiling: the largest compartment ceiling under
    /// the gradient factor the query uses.
    pub open spec fn spec_ascent_ceiling(self, fr_gf_override: Option<int>) -> int {
        st_ceiling(self.state_of(), self.params_of(), fr_gf_override)
    }

    /// The shallowest ambient pressure the diver may ascend to, under an
    /// optional gradient-factor override in whole percent.
    pub fn ascent_ceiling(&self, fr_gf_override: Option<u8>) -> (r: crate::units::Pressure)
        requires
            self.valid(),
            fr_gf_override matches Some(g) ==> 1 <= g <= 100,
        ensures
            r.0 as int == self.spec_ascent_ceiling(opt_int(fr_gf_override)),
            r.0 <= MAX_CEILING,
    {
        let (gn, gd): (u64, u64) = match fr_gf_override {
            Some(g) => (g as u64, 1),
            None => match self.first_deco_depth {
                None => (self.gf.low as u64, 1),
                Some(fdd) => {
                    if fdd.0 == 0 {
                        (self.gf.high as u64, 1)
                    } else {
                        let gd: u64 = fdd.0 as u64;
                        proof {
                            vstd::arithmetic::mul::lemma_mul_upper_bound(
                                self.gf.high as int,
                                100,
                                gd as int,
                                MAX_DEPTH as int,
                            );
                            vstd::arithmetic::mul::lemma_mul_upper_bound(
                                self.gf.low as int,
                                100,
                                gd as int,
                                MAX_DEPTH as int,
                            );
                            vstd::arithmetic::mul::lemma_mul_upper_bound(
                                (self.gf.high - self.gf.low) as int,
                                100,
                                self.diver_depth.0 as int,
                                MAX_DEPTH as int,
                            );
                        }
                        let hi: u64 = (self.gf.high as u64) * gd;
                        let lo: u64 = (self.gf.low as u64) * gd;
                        let fall: u64 = ((self.gf.high - self.gf.low) as u64)
                            * (self.diver_depth.0 as u64);
                        let gn: u64 = if hi < lo + fall {
                            lo
                        } else {
                            hi - fall
                        };
                        (gn, gd)
                    }
                },
            },
        };
        let ghost gf = self.spec_gf_pair(opt_int(fr_gf_override));
        proof {
            assert(gn as int == gf.0 && gd as int == gf.1);
            assert(1 <= gd <= MAX_DEPTH);
            vstd::arithmetic::mul::lemma_mul_inequality(1, self.gf.low as int, gd as int);
            vstd::arithmetic::mul::lemma_mul_inequality(self.gf.low as int, self.gf.high as int, gd as int);
            vstd::arithmetic::mul::lemma_mul_inequality(self.gf.high as int, 100, gd as int);
            vstd::arithmetic::mul::lemma_mul_is_commutative(self.gf.low as int, gd as int);
            vstd::arithmetic::mul::lemma_mul_is_commutative(self.gf.high as int, gd as int);
            vstd::arithmetic::mul::lemma_mul_is_commutative(100, gd as int);
            assert(gd <= gn <= 100 * gd);
        }
        let mut best: u64 = 0;
        let mut i: usize = 0;
        while i < 16
            invariant
                0 <= i <= 16,
                self.valid(),
                1 <= gd <= MAX_DEPTH,
                gd <= gn <= 100 * gd,
                gn as int == gf.0,
                gd as int == gf.1,
                best as int == self.spec_ceiling_upto(gf.0, gf.1, i as nat),
                best <= MAX_CEILING,
            decreases 16 - i,
        {
            let ceil_i = self.comp_ceiling_value(i, gn, gd);
            if ceil_i > best {
                best = ceil_i;
            }
            i = i + 1;
        }
        crate::units::Pressure(best)
    }

    /// Ceiling of compartment `i`, in executable form.
    fn comp_ceiling_value(&self, i: usize, gn: u64, gd: u64) -> (r: u64)
        requires
            self.valid(),
            i < 16,
            1 <= gd <= MAX_DEPTH,
            gd <= gn <= 100 * gd,
        ensures
            r as int == self.spec_comp_ceiling_at(gn as int, gd as int, i as int),
            r <= 100 * (self.n2()[i as int] + self.he()[i as int]),
            r <= MAX_CEILING,
    {
        let pn: u64 = self.tissue.p_n2[i];
        let ph: u64 = self.tissue.p_he[i];
        let an: u64 = self.tissue_constants.n2_a[i];
        let ah: u64 = self.tissue_constants.he_a[i];
        let bn: u64 = self.tissue_constants.n2_b[i];
        let bh: u64 = self.tissue_constants.he_b[i];
        proof {
            assert(pn as int == self.n2()[i as int]);
            assert(ph as int == self.he()[i as int]);
            assert(an as int == self.n2_a_view()[i as int]);
            assert(ah as int == self.he_a_view()[i as int]);
            assert(bn as int == self.n2_b_view()[i as int]);
            assert(bh as int == self.he_b_view()[i as int]);
            assert(0 <= pn as int <= MAX_TISSUE_PRESSURE);
            assert(0 <= ph as int <= MAX_TISSUE_PRESSURE);
            assert(pn as int + ph as int >= 1);
        }
        let total: u64 = pn + ph;
        proof {
            vstd::arithmetic::mul::lemma_mul_upper_bound(
                an as int,
                MAX_A_VALUE as int,
                pn as int,
                MAX_TISSUE_PRESSURE as int,
            );
            vstd::arithmetic::mul::lemma_mul_upper_bound(
                ah as int,
                MAX_A_VALUE as int,
                ph as int,
                MAX_TISSUE_PRESSURE as int,
            );
            vstd::arithmetic::mul::lemma_mul_upper_bound(
                bn as int,
                1_000_000_000,
                pn as int,
                MAX_TISSUE_PRESSURE as int,
            );
            vstd::arithmetic::mul::lemma_mul_upper_bound(
                bh as int,
                1_000_000_000,
                ph as int,
                MAX_TISSUE_PRESSURE as int,
            );
            lemma_blend_coeff_bound(an as int, ah as int, pn as int, ph as int, MAX_A_VALUE as int);
            lemma_blend_coeff_bound(bn as int, bh as int, pn as int, ph as int, 1_000_000_000);
        }
        let a_bl: u64 = (((an as u128) * (pn as u128) + (ah as u128) * (ph as u128))
            / (total as u128)) as u64;
        let b_bl: u64 = (((bn as u128) * (pn as u128) + (bh as u128) * (ph as u128))
            / (total as u128)) as u64;
        proof {
            vstd::arithmetic::mul::lemma_mul_upper_bound(
                100 * (total as int),
                100 * 2 * MAX_TISSUE_PRESSURE as int,
                gd as int,
                MAX_DEPTH as int,
            );
            vstd::arithmetic::mul::lemma_mul_upper_bound(
                a_bl as int,
                MAX_A_VALUE as int,
                gn as int,
                100 * MAX_DEPTH as int,
            );
            lemma_comp_ceiling_bound(
                pn as int,
                ph as int,
                a_bl as int,
                b_bl as int,
                gn as int,
                gd as int,
            );
        }
        let lhs: u128 = 100 * (total as u128) * (gd as u128);
        let rhs: u128 = (a_bl as u128) * (gn as u128);
        if lhs <= rhs {
            0
        } else {
            let num_inner: u128 = lhs - rhs;
            proof {
                vstd::arithmetic::mul::lemma_mul_upper_bound(
                    b_bl as int,
                    1_000_000_000,
                    num_inner as int,
                    100 * 2 * MAX_TISSUE_PRESSURE as int * MAX_DEPTH as int,
                );
                vstd::arithmetic::mul::lemma_mul_upper_bound(
                    b_bl as int,
                    1_000_000_000,
                    100 * (gd as int) - gn as int,
                    100 * MAX_DEPTH as int,
                );
            }
            let den: u128 = (gn as u128) * 1_000_000_000 + (b_bl as u128)
                * (100 * (gd as u128) - (gn as u128));
            (((b_bl as u128) * num_inner) / den) as u64
        }
    }
}

impl ZHL16 {
    /// Nitrogen pressures after this engine applies `seg` breathing
    /// `gas`: Haldane loading at the end depth for flat segments, the
    /// Schreiner ramp for depth changes.
    pub open spec fn spec_n2_after(self, seg: Segment, gas: Gas, env: Environment) -> Seq<int> {
        st_apply(self.state_of(), self.params_of(), env, seg, gas).n2
    }

    /// Helium pressures after this engine applies `seg` breathing `gas`.
    pub open spec fn spec_he_after(self, seg: Segment, gas: Gas, env: Environment) -> Seq<int> {
        st_apply(self.state_of(), self.params_of(), env, seg, gas).he
    }

    /// The first-stop latch after applying `seg`: set to the stop's
    /// start depth by the first decompression stop, untouched after.
    pub open spec fn spec_first_deco_after(self, seg: Segment) -> Option<Depth> {
        if seg.segment_type is DecoStop && self.first_deco_depth is None {
            Some(seg.start_depth)
        } else {
            self.first_deco_depth
        }
    }

    /// Loads both gases for `seconds` at fixed inspired pressures.
    fn run_flat(&mut self, pi_n2: u64, pi_he: u64, seconds: u64)
        requires
            old(self).valid(),
            pi_n2 <= MAX_INSPIRED_PRESSURE,
            pi_he <= MAX_INSPIRED_PRESSURE,
        ensures
            final(self).tissue.n2() == flat_steps(
                old(self).n2(),
                old(self).n2_load_view(),
                pi_n2 as int,
                seconds as nat,
            ),
            final(self).tissue.he() == flat_steps(
                old(self).he(),
                old(self).he_load_view(),
                pi_he as int,
                seconds as nat,
            ),
            final(self).tissue_constants == old(self).tissue_constants,
            final(self).diver_depth == old(self).diver_depth,
            final(self).first_deco_depth == old(self).first_deco_depth,
            final(self).gf == old(self).gf,
            final(self).valid(),
    {
        let ghost orig = *self;
        let mut sec: u64 = 0;
        while sec < seconds
            invariant
                0 <= sec <= seconds,
                orig == *old(self),
                orig.valid(),
                pi_n2 <= MAX_INSPIRED_PRESSURE,
                pi_he <= MAX_INSPIRED_PRESSURE,
                self.tissue.n2() == flat_steps(orig.n2(), orig.n2_load_view(), pi_n2 as int, sec as nat),
                self.tissue.he() == flat_steps(orig.he(), orig.he_load_view(), pi_he as int, sec as nat),
                self.tissue_constants == orig.tissue_constants,
                self.diver_depth == orig.diver_depth,
                self.first_deco_depth == orig.first_deco_depth,
                self.gf == orig.gf,
                self.valid(),
            decreases seconds - sec,
        {
            self.step_all(pi_n2, pi_he);
            sec = sec + 1;
        }
    }

    /// Loads both gases along a depth change from `start` to `end`
    /// taking `seconds`, at the linearly interpolated depth of each
    /// second.
    fn run_ramp(&mut self, start: Depth, end: Depth, seconds: u64, gas: &Gas, env: Environment)
        requires
            old(self).valid(),
            gas.valid(),
            env.valid(),
            start.0 <= MAX_DEPTH,
            end.0 <= MAX_DEPTH,
            seconds <= MAX_SEGMENT_SECONDS,
        ensures
            final(self).tissue.n2() == ramp_steps(
                old(self).n2(),
                old(self).n2_load_view(),
                env,
                start.0 as int,
                end.0 as int,
                seconds as int,
                gas.n2 as int,
                seconds as nat,
            ),
            final(self).tissue.he() == ramp_steps(
                old(self).he(),
                old(self).he_load_view(),
                env,
                start.0 as int,
                end.0 as int,
                seconds as int,
                gas.he as int,
                seconds as nat,
            ),
            final(self).tissue_constants == old(self).tissue_constants,
            final(self).diver_depth == old(self).diver_depth,
            final(self).first_deco_depth == old(self).first_deco_depth,
            final(self).gf == old(self).gf,
            final(self).valid(),
    {
        let ghost orig = *self;
        let mut sec: u64 = 0;
        while sec < seconds
            invariant
                0 <= sec <= seconds,
                orig == *old(self),
                orig.valid(),
                gas.valid(),
                env.valid(),
                start.0 <= MAX_DEPTH,
                end.0 <= MAX_DEPTH,
                seconds <= MAX_SEGMENT_SECONDS,
                self.tissue.n2() == ramp_steps(
                    orig.n2(),
                    orig.n2_load_view(),
                    env,
                    start.0 as int,
                    end.0 as int,
                    seconds as int,
                    gas.n2 as int,
                    sec as nat,
                ),
                self.tissue.he() == ramp_steps(
                    orig.he(),
                    orig.he_load_view(),
                    env,
                    start.0 as int,
                    end.0 as int,
                    seconds as int,
                    gas.he as int,
                    sec as nat,
                ),
                self.tissue_constants == orig.tissue_constants,
                self.diver_depth == orig.diver_depth,
                self.first_deco_depth == orig.first_deco_depth,
                self.gf == orig.gf,
                self.valid(),
            decreases seconds - sec,
        {
            let remaining: u64 = seconds - sec - 1;
            proof {
                vstd::arithmetic::mul::lemma_mul_upper_bound(
                    start.0 as int,
                    MAX_DEPTH as int,
                    remaining as int,
                    MAX_SEGMENT_SECONDS as int,
                );
                vstd::arithmetic::mul::lemma_mul_upper_bound(
                    end.0 as int,
                    MAX_DEPTH as int,
                    sec as int + 1,
                    MAX_SEGMENT_SECONDS as int,
                );
            }
            let num: u64 = (start.0 as u64) * remaining + (end.0 as u64) * (sec + 1);
            proof {
                assert(num <= MAX_DEPTH as int * (seconds as int)) by (nonlinear_arith)
                    requires
                        num as int == (start.0 as int) * (remaining as int) + (end.0 as int) * (
                        sec as int + 1) && start.0 <= MAX_DEPTH && end.0 <= MAX_DEPTH
                            && remaining as int + sec as int + 1 == seconds as int && 0
                            <= remaining && 0 <= sec,
                ;
                vstd::arithmetic::mul::lemma_mul_upper_bound(
                    num as int,
                    MAX_DEPTH as int * MAX_SEGMENT_SECONDS as int,
                    env.water_density.0 as int,
                    20_000,
                );
                let x = num as int * (env.water_density.0 as int) * 10_000;
                assert(x <= (2_000_000_000_000) * (seconds as int)) by (nonlinear_arith)
                    requires
                        0 <= num as int * (env.water_density.0 as int) && num
                            <= MAX_DEPTH as int * (seconds as int) && 0 < env.water_density.0
                            <= 20_000 && x == num as int * (env.water_density.0 as int) * 10_000
                            && MAX_DEPTH == 10_000,
                ;
                vstd::arithmetic::mul::lemma_mul_nonnegative(
                    num as int,
                    env.water_density.0 as int,
                );
                vstd::arithmetic::div_mod::lemma_div_of0(seconds as int);
                vstd::arithmetic::div_mod::lemma_div_is_ordered(0, x, seconds as int);
                vstd::arithmetic::div_mod::lemma_div_is_ordered(
                    x,
                    2_000_000_000_000 * (seconds as int),
                    seconds as int,
                );
                vstd::arithmetic::div_mod::lemma_div_multiples_vanish(
                    2_000_000_000_000,
                    seconds as int,
                );
            }
            let water: u64 = (((num as u128) * (env.water_density.0 as u128) * 10_000)
                / (seconds as u128)) as u64;
            let ambient: u64 = env.atmospheric_pressure.0 + water;
            proof {
                assert(ambient as int == ramp_ambient(
                    env,
                    start.0 as int,
                    end.0 as int,
                    seconds as int,
                    sec as int,
                ));
                lemma_ramp_ambient_bounds(
                    env,
                    start.0 as int,
                    end.0 as int,
                    seconds as int,
                    sec as int,
                );
            }
            let pi_n2 = inspired_from_ambient(ambient, gas.n2());
            let pi_he = inspired_from_ambient(ambient, gas.he());
            self.step_all(pi_n2, pi_he);
            sec = sec + 1;
        }
    }

    /// Applies one segment to the model and returns the loaded engine:
    /// Haldane loading at the end depth for flat segments (a no-deco
    /// segment is treated as bottom time), the Schreiner ramp for depth
    /// changes; a decompression stop also latches the first-stop depth.
    /// The diver's depth moves to the segment's end depth.
    pub fn add_segment(self, segment: &Segment, gas: &Gas, environment: Environment) -> (r: Self)
        requires
            self.valid(),
            segment.valid(),
            gas.valid(),
            environment.valid(),
        ensures
            r.tissue.n2() == self.spec_n2_after(*segment, *gas, environment),
            r.tissue.he() == self.spec_he_after(*segment, *gas, environment),
            r.diver_depth == segment.end_depth,
            r.first_deco_depth == self.spec_first_deco_after(*segment),
            r.tissue_constants == self.tissue_constants,
            r.gf == self.gf,
            r.valid(),
    {
        let mut updated = self;
        match segment.segment_type() {
            SegmentType::AscDesc => {
                updated.run_ramp(
                    segment.start_depth(),
                    segment.end_depth(),
                    segment.time(),
                    gas,
                    environment,
                );
                proof {
                    if segment.time >= 1 {
                        lemma_ramp_steps_ok(
                            self.n2(),
                            self.n2_load_view(),
                            environment,
                            segment.start_depth.0 as int,
                            segment.end_depth.0 as int,
                            segment.time as int,
                            gas.n2 as int,
                            segment.time as nat,
                        );
                        lemma_ramp_steps_ok(
                            self.he(),
                            self.he_load_view(),
                            environment,
                            segment.start_depth.0 as int,
                            segment.end_depth.0 as int,
                            segment.time as int,
                            gas.he as int,
                            segment.time as nat,
                        );
                    }
                }
            },
            _ => {
                let ambient = segment.end_depth().pressure(environment);
                let pi_n2 = inspired_from_ambient(ambient.0, gas.n2());
                let pi_he = inspired_from_ambient(ambient.0, gas.he());
                proof {
                    lemma_flat_steps_ok(
                        self.n2(),
                        self.n2_load_view(),
                        pi_n2 as int,
                        segment.time as nat,
                    );
                    lemma_flat_steps_ok(
                        self.he(),
                        self.he_load_view(),
                        pi_he as int,
                        segment.time as nat,
                    );
                }
                updated.run_flat(pi_n2, pi_he, segment.time());
                if matches!(segment.segment_type(), SegmentType::DecoStop) {
                    updated.update_first_deco_depth(segment.start_depth());
                }
            },
        }
        updated.diver_depth = segment.end_depth();
        updated
    }

    /// The next decompression stop for the current state: an ascent to
    /// the candidate stop depth when the diver is not already there, and
    /// the stop itself, its whole-minute time found by trying ever longer
    /// stays on a virtual copy until its ceiling clears the next stop up.
    pub fn find_next_stop(
        &self,
        ascent_rate: Rate,
        descent_rate: Rate,
        gas: &Gas,
        environment: Environment,
    ) -> (r: (Option<Segment>, Segment))
        requires
            self.valid(),
            gas.valid(),
            environment.valid(),
            ascent_rate.0 != 0,
        ensures
            r == st_next_stop(
                self.state_of(),
                self.params_of(),
                environment,
                *gas,
                ascent_rate,
                descent_rate,
            ),
            r.1.valid(),
            r.1.segment_type is DecoStop,
            r.1.start_depth == r.1.end_depth,
            r.1.start_depth.0 % 3 == 0,
            r.0 matches Some(s) ==> s.valid() && s.segment_type is AscDesc && s.start_depth
                == self.diver_depth && s.end_depth == r.1.start_depth,
            r.0 is None ==> r.1.start_depth == self.diver_depth,
    {
        let ceiling = self.ascent_ceiling(None);
        let sd = stop_depth_for(ceiling, environment);
        let mut vm = *self;
        let mut asc: Option<Segment> = None;
        if vm.diver_depth.0 != sd.0 {
            let t = crate::units::time_taken(ascent_rate, vm.diver_depth, sd);
            let seg = Segment {
                segment_type: SegmentType::AscDesc,
                start_depth: vm.diver_depth,
                end_depth: sd,
                time: t,
                ascent_rate,
                descent_rate,
            };
            vm = vm.add_segment(&seg, gas, environment);
            asc = Some(seg);
        }
        vm.update_first_deco_depth(sd);
        let thr = stop_threshold(sd, environment);
        let one_minute = Segment {
            segment_type: SegmentType::DecoStop,
            start_depth: sd,
            end_depth: sd,
            time: 60,
            ascent_rate,
            descent_rate,
        };
        let ghost pr = self.params_of();
        let ghost base = vm.state_of();
        let ghost full = st_stop_search(
            base,
            pr,
            environment,
            *gas,
            sd.0 as int,
            spec_stop_threshold(sd.0 as int, environment),
            0,
            STOP_SEARCH_FUEL as nat,
        );
        proof {
            let pair = st_next_stop(
                self.state_of(),
                self.params_of(),
                environment,
                *gas,
                ascent_rate,
                descent_rate,
            );
            assert(vm.params_of() == pr);
            assert(base == ({
                let st1 = match asc {
                    Some(seg) => st_apply(self.state_of(), pr, environment, seg, *gas),
                    None => self.state_of(),
                };
                EngineState {
                    fdd: if st1.fdd is None {
                        Some(sd.0 as int)
                    } else {
                        st1.fdd
                    },
                    ..st1
                }
            }));
        }
        let mut minutes: u64 = 0;
        loop
            invariant_except_break
                self.valid(),
                gas.valid(),
                environment.valid(),
                vm.valid(),
                vm.params_of() == pr,
                vm.diver_depth == sd,
                vm.first_deco_depth is Some,
                sd.0 <= MAX_DEPTH,
                0 <= minutes < STOP_SEARCH_FUEL,
                thr as int == spec_stop_threshold(sd.0 as int, environment),
                one_minute == (Segment {
                    segment_type: SegmentType::DecoStop,
                    start_depth: sd,
                    end_depth: sd,
                    time: 60u64,
                    ascent_rate,
                    descent_rate,
                }),
                full == st_stop_search(
                    vm.state_of(),
                    pr,
                    environment,
                    *gas,
                    sd.0 as int,
                    thr as int,
                    minutes as int,
                    (STOP_SEARCH_FUEL - minutes) as nat,
                ),
            ensures
                1 <= minutes <= STOP_SEARCH_FUEL,
                minutes as int == full,
            decreases STOP_SEARCH_FUEL - minutes,
        {
            let ghost before = vm.state_of();
            vm = vm.add_segment(&one_minute, gas, environment);
            minutes = minutes + 1;
            proof {
                assert(vm.state_of() == st_stop_minute(
                    before,
                    pr,
                    environment,
                    *gas,
                    sd.0 as int,
                ));
            }
            let c = vm.ascent_ceiling(None);
            if c.0 < thr || minutes >= STOP_SEARCH_FUEL {
                break;
            }
        }
        (
            asc,
            Segment {
                segment_type: SegmentType::DecoStop,
                start_depth: sd,
                end_depth: sd,
                time: minutes * 60,
                ascent_rate,
                descent_rate,
            },
        )
    }

    /// The no-decompression limit at the current depth on `gas`, in
    /// whole minutes: the longest stay after which the ceiling under a
    /// `gf_high` override still allows a direct ascent.  `None` means
    /// decompression is already mandatory; the cap value stands for an
    /// unlimited stay.
    pub fn ndl(&self, gas: &Gas, environment: Environment) -> (r: Option<u64>)
        requires
            self.valid(),
            gas.valid(),
            environment.valid(),
        ensures
            ({
                let m = st_ndl(self.state_of(), self.params_of(), environment, *gas);
                match (r, m) {
                    (Some(a), Some(b)) => a as int == b,
                    (None, None) => true,
                    _ => false,
                }
            }),
            r matches Some(m) ==> m <= NDL_CAP_MINUTES,
    {
        let ghost pr = self.params_of();
        let mut vm = *self;
        let bottom_minute = Segment {
            segment_type: SegmentType::Bottom,
            start_depth: self.diver_depth,
            end_depth: self.diver_depth,
            time: 60,
            ascent_rate: Rate(0),
            descent_rate: Rate(0),
        };
        let mut t: u64 = 0;
        loop
            invariant
                self.valid(),
                gas.valid(),
                environment.valid(),
                vm.valid(),
                pr == self.params_of(),
                vm.params_of() == pr,
                vm.diver_depth == self.diver_depth,
                0 <= t <= NDL_CAP_MINUTES,
                bottom_minute == (Segment {
                    segment_type: SegmentType::Bottom,
                    start_depth: self.diver_depth,
                    end_depth: self.diver_depth,
                    time: 60u64,
                    ascent_rate: Rate(0),
                    descent_rate: Rate(0),
                }),
                st_ndl(self.state_of(), pr, environment, *gas) == st_ndl_search(
                    vm.state_of(),
                    pr,
                    environment,
                    *gas,
                    t as int,
                    (NDL_CAP_MINUTES + 1 - t) as nat,
                ),
            decreases NDL_CAP_MINUTES - t,
        {
            let c = vm.ascent_ceiling(Some(self.gf.high()));
            if c.0 > PRESSURE_SCALE {
                if t == 0 {
                    return None;
                } else {
                    return Some(t - 1);
                }
            }
            if t >= NDL_CAP_MINUTES {
                return Some(NDL_CAP_MINUTES);
            }
            let ghost before = vm.state_of();
            vm = vm.add_segment(&bottom_minute, gas, environment);
            t = t + 1;
            proof {
                assert(vm.state_of() == st_bottom_minute(before, pr, environment, *gas));
            }
        }
    }

    /// Drives the model to the surface, returning the segments
    /// performed: a dive still inside its no-stop time yields a single
    /// no-deco segment carrying the remaining limit and leaves the model
    /// untouched; otherwise ascents and stops are applied and emitted
    /// until the ceiling clears one bar.
    pub fn surface(
        &mut self,
        ascent_rate: Rate,
        descent_rate: Rate,
        gas: &Gas,
        environment: Environment,
    ) -> (r: Vec<Segment>)
        requires
            old(self).valid(),
            gas.valid(),
            environment.valid(),
            ascent_rate.0 != 0,
        ensures
            ({
                let out = st_surface(
                    old(self).state_of(),
                    old(self).params_of(),
                    environment,
                    *gas,
                    ascent_rate,
                    descent_rate,
                );
                r@ == out.0 && final(self).state_of() == out.1
            }),
            forall|j: int| 0 <= j < r@.len() ==> (#[trigger] r@[j]).valid(),
            final(self).valid(),
            final(self).tissue_constants == old(self).tissue_constants,
            final(self).gf == old(self).gf,
    {
        let ghost pr = self.params_of();
        let mut stops: Vec<Segment> = Vec::new();
        let c0 = self.ascent_ceiling(Some(self.gf.high()));
        if c0.0 < PRESSURE_SCALE {
            let minutes: u64 = match self.ndl(gas, environment) {
                Some(m) => m,
                None => 0,
            };
            stops.push(
                Segment {
                    segment_type: SegmentType::NoDeco,
                    start_depth: self.diver_depth,
                    end_depth: self.diver_depth,
                    time: minutes * 60,
                    ascent_rate: Rate(0),
                    descent_rate: Rate(0),
                },
            );
            return stops;
        }
        let ghost base = self.state_of();
        let ghost full = st_deco_loop(
            base,
            pr,
            environment,
            *gas,
            ascent_rate,
            descent_rate,
            SURFACE_FUEL as nat,
        );
        let mut iters: u64 = 0;
        loop
            invariant_except_break
                gas.valid(),
                environment.valid(),
                ascent_rate.0 != 0,
                self.valid(),
                self.params_of() == pr,
                self.tissue_constants == old(self).tissue_constants,
                self.gf == old(self).gf,
                0 <= iters < SURFACE_FUEL,
                forall|j: int| 0 <= j < stops@.len() ==> (#[trigger] stops@[j]).valid(),
                full == ({
                    let rest = st_deco_loop(
                        self.state_of(),
                        pr,
                        environment,
                        *gas,
                        ascent_rate,
                        descent_rate,
                        (SURFACE_FUEL - iters) as nat,
                    );
                    (stops@ + rest.0, rest.1)
                }),
            ensures
                stops@ == full.0,
                forall|j: int| 0 <= j < stops@.len() ==> (#[trigger] stops@[j]).valid(),
                self.state_of() == full.1,
                self.valid(),
                self.params_of() == pr,
                self.tissue_constants == old(self).tissue_constants,
                self.gf == old(self).gf,
            decreases SURFACE_FUEL - iters,
        {
            let ghost entry = self.state_of();
            let ghost fuel_here = (SURFACE_FUEL - iters) as nat;
            let pair = self.find_next_stop(ascent_rate, descent_rate, gas, environment);
            let (asc, stop) = pair;
            if let Some(a) = asc {
                *self = (*self).add_segment(&a, gas, environment);
                stops.push(a);
            }
            *self = (*self).add_segment(&stop, gas, environment);
            stops.push(stop);
            iters = iters + 1;
            proof {
                let spec_pair = st_next_stop(entry, pr, environment, *gas, ascent_rate, descent_rate);
                assert(spec_pair == pair);
                let st1 = match spec_pair.0 {
                    Some(seg) => st_apply(entry, pr, environment, seg, *gas),
                    None => entry,
                };
                let st2 = st_apply(st1, pr, environment, spec_pair.1, *gas);
                assert(self.state_of() == st2);
            }
            let c = self.ascent_ceiling(None);
            if c.0 < PRESSURE_SCALE || iters >= SURFACE_FUEL {
                break;
            }
        }
        stops
    }

    /// The decompression stops required to surface the model, computed
    /// on a copy: the model itself is unchanged.
    pub fn get_stops(
        &self,
        ascent_rate: Rate,
        descent_rate: Rate,
        gas: &Gas,
        environment: Environment,
    ) -> (r: Vec<Segment>)
        requires
            self.valid(),
            gas.valid(),
            environment.valid(),
            ascent_rate.0 != 0,
        ensures
            r@ == st_surface(
                self.state_of(),
                self.params_of(),
                environment,
                *gas,
                ascent_rate,
                descent_rate,
            ).0,
            forall|j: int| 0 <= j < r@.len() ==> (#[trigger] r@[j]).valid(),
    {
        let mut virtual_model = *self;
        virtual_model.surface(ascent_rate, descent_rate, gas, environment)
    }

    /// Latches the depth of the first decompression stop; a later call
    /// leaves the earlier depth in place.
    fn update_first_deco_depth(&mut self, depth: Depth)
        ensures
            *final(self) == (ZHL16 {
                first_deco_depth: if old(self).first_deco_depth is None {
                    Some(depth)
                } else {
                    old(self).first_deco_depth
                },
                ..*old(self)
            }),
    {
        if self.first_deco_depth.is_none() {
            self.first_deco_depth = Some(depth);
        }
    }
}

/// The inspired pressure of a valid component at a valid ambient
/// pressure stays within the model's inspired-pressure bound.
proof fn lemma_inspired_in_range(ambient: int, percent: int)
    requires
        WATER_VAPOUR_PRESSURE <= ambient <= MAX_INSPIRED_PRESSURE,
        0 <= percent <= 100,
    ensures
        0 <= inspired_pressure(ambient, percent) <= MAX_INSPIRED_PRESSURE,
{
    let x = (ambient - WATER_VAPOUR_PRESSURE) * percent;
    assert(0 <= x <= MAX_INSPIRED_PRESSURE as int * 100) by (nonlinear_arith)
        requires
            0 <= ambient - WATER_VAPOUR_PRESSURE <= MAX_INSPIRED_PRESSURE && 0 <= percent <= 100
                && x == (ambient - WATER_VAPOUR_PRESSURE) * percent,
    ;
    vstd::arithmetic::div_mod::lemma_div_of0(100);
    vstd::arithmetic::div_mod::lemma_div_is_ordered(0, x, 100);
    vstd::arithmetic::div_mod::lemma_div_is_ordered(x, MAX_INSPIRED_PRESSURE as int * 100, 100);
    vstd::arithmetic::div_mod::lemma_div_multiples_vanish(MAX_INSPIRED_PRESSURE as int, 100);
}

/// The published constants of a variant, as a spec value.
pub open spec fn spec_variant_constants(variant: Variant) -> TissueConstants {
    match variant {
        Variant::B => TissueConstants {
            n2_load: crate::tissue_constants::ZHL16B_N2_LOAD,
            n2_a: crate::tissue_constants::ZHL16B_N2_A,
            n2_b: crate::tissue_constants::ZHL16B_N2_B,
            he_load: crate::tissue_constants::ZHL16B_HE_LOAD,
            he_a: crate::tissue_constants::ZHL16B_HE_A,
            he_b: crate::tissue_constants::ZHL16B_HE_B,
        },
        Variant::C => TissueConstants {
            n2_load: crate::tissue_constants::ZHL16C_N2_LOAD,
            n2_a: crate::tissue_constants::ZHL16C_N2_A,
            n2_b: crate::tissue_constants::ZHL16C_N2_B,
            he_load: crate::tissue_constants::ZHL16C_HE_LOAD,
            he_a: crate::tissue_constants::ZHL16C_HE_A,
            he_b: crate::tissue_constants::ZHL16C_HE_B,
        },
    }
}

/// Inspired partial pressure of a component at ambient pressure
/// `ambient`, in executable form.
fn inspired_from_ambient(ambient: u64, percent: u8) -> (r: u64)
    requires
        WATER_VAPOUR_PRESSURE <= ambient <= MAX_INSPIRED_PRESSURE,
        percent <= 100,
    ensures
        r as int == inspired_pressure(ambient as int, percent as int),
        r <= MAX_INSPIRED_PRESSURE,
{
    proof {
        lemma_inspired_in_range(ambient as int, percent as int);
        vstd::arithmetic::mul::lemma_mul_upper_bound(
            (ambient - WATER_VAPOUR_PRESSURE) as int,
            MAX_INSPIRED_PRESSURE as int,
            percent as int,
            100,
        );
    }
    (((ambient - WATER_VAPOUR_PRESSURE) as u128 * (percent as u128)) / 100) as u64
}

/// The candidate stop depth for `ceiling`: its exact equivalent depth
/// rounded up to the next three-metre multiple.
fn stop_depth_for(ceiling: crate::units::Pressure, environment: Environment) -> (r: Depth)
    requires
        environment.valid(),
        ceiling.0 <= MAX_CEILING,
    ensures
        r.0 as int == spec_stop_depth(ceiling.0 as int, environment),
        r.0 <= MAX_DEPTH,
        r.0 % 3 == 0,
{
    if ceiling.0 <= PRESSURE_SCALE {
        Depth(0)
    } else {
        let per3: u64 = 3 * ((environment.water_density.0 as u64) * 10_000);
        let q: u64 = (ceiling.0 - PRESSURE_SCALE + per3 - 1) / per3;
        proof {
            vstd::arithmetic::div_mod::lemma_div_nonincreasing(
                (ceiling.0 - PRESSURE_SCALE + per3 - 1) as int,
                per3 as int,
            );
            vstd::arithmetic::div_mod::lemma_div_of0(per3 as int);
            vstd::arithmetic::div_mod::lemma_div_is_ordered(
                0,
                (ceiling.0 - PRESSURE_SCALE + per3 - 1) as int,
                per3 as int,
            );
        }
        let d: u64 = 3 * q;
        if d > 9999 {
            Depth(9999)
        } else {
            Depth(d as u32)
        }
    }
}

/// The ceiling a stop at `sd` must clear before the diver may move to
/// the next stop three metres up.
fn stop_threshold(sd: Depth, environment: Environment) -> (r: u64)
    requires
        environment.valid(),
        sd.0 <= MAX_DEPTH,
    ensures
        r as int == spec_stop_threshold(sd.0 as int, environment),
{
    let per_metre: u64 = (environment.water_density.0 as u64) * 10_000;
    if sd.0 >= 3 {
        proof {
            vstd::arithmetic::mul::lemma_mul_upper_bound(
                (sd.0 - 3) as int,
                MAX_DEPTH as int,
                per_metre as int,
                200_000_000,
            );
        }
        PRESSURE_SCALE + ((sd.0 - 3) as u64) * per_metre
    } else {
        proof {
            vstd::arithmetic::mul::lemma_mul_upper_bound(
                (3 - sd.0) as int,
                3,
                per_metre as int,
                200_000_000,
            );
            assert((3 - sd.0 as int) * per_metre == -((sd.0 as int - 3) * per_metre))
                by (nonlinear_arith);
        }
        PRESSURE_SCALE - ((3 - sd.0) as u64) * per_metre
    }
}

/// One second of loading for a single compartment, in executable form.
fn step_value(p: u64, pi: u64, c: u64) -> (r: u64)
    requires
        p <= MAX_TISSUE_PRESSURE,
        pi <= MAX_INSPIRED_PRESSURE,
        c < LOAD_SCALE,
    ensures
        r as int == step_comp(p as int, pi as int, c as int),
{
    proof {
        if pi >= p {
            lemma_scaled_distance(pi - p, c as int);
        } else {
            lemma_scaled_distance(p - pi, c as int);
        }
    }
    if pi >= p {
        p + ((((pi - p) as u128) * (c as u128)) / (LOAD_SCALE as u128)) as u64
    } else {
        p - ((((p - pi) as u128) * (c as u128)) / (LOAD_SCALE as u128)) as u64
    }
}

} // verus!
