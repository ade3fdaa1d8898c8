//! General laws of the model, each proved once and for all inputs.

use vstd::prelude::*;
use crate::environment::Environment;
use crate::gas::Gas;
use crate::model::{
    comp_ceiling, gas_seq_ok, lemma_flat_steps_add, lemma_flat_steps_ok, loads_ok,
    spec_flat_inspired, spec_stop_depth, st_apply, st_ceiling, st_ceiling_upto, st_comp_ceiling,
    st_deco_loop, st_gf, st_next_stop, EngineParams, EngineState,
};
use crate::segment::{Segment, SegmentType};
use crate::units::{Depth, Rate, MAX_DEPTH, PRESSURE_SCALE};

verus! {

/// Compartment pressures are never negative: every valid engine state
/// keeps all nitrogen and helium loadings at or above zero, and
/// `ZHL16::add_segment` returns a valid state whenever it is given one.
pub proof fn law_pressures_nonnegative(e: crate::engine::ZHL16)
    requires
        e.valid(),
    ensures
        forall|i: int| 0 <= i < 16 ==> #[trigger] e.n2()[i] >= 0,
        forall|i: int| 0 <= i < 16 ==> #[trigger] e.he()[i] >= 0,
{
}

/// The first-stop latch is written once: a single application never
/// clears it and never moves it once set.
pub proof fn law_first_deco_latched_apply(
    st: EngineState,
    pr: EngineParams,
    env: Environment,
    seg: Segment,
    gas: Gas,
    d: int,
)
    requires
        st.fdd == Some(d),
    ensures
        st_apply(st, pr, env, seg, gas).fdd == Some(d),
{
}

/// The first-stop latch stays put through a whole decompression run:
/// once some stop depth is latched, every later state of the loop still
/// carries it.
pub proof fn law_first_deco_latched_deco_loop(
    st: EngineState,
    pr: EngineParams,
    env: Environment,
    gas: Gas,
    ascent_rate: Rate,
    descent_rate: Rate,
    fuel: nat,
    d: int,
)
    requires
        st.fdd == Some(d),
    ensures
        st_deco_loop(st, pr, env, gas, ascent_rate, descent_rate, fuel).1.fdd == Some(d),
    decreases fuel,
{
    let pair = st_next_stop(st, pr, env, gas, ascent_rate, descent_rate);
    let st1 = match pair.0 {
        Some(seg) => st_apply(st, pr, env, seg, gas),
        None => st,
    };
    let st2 = st_apply(st1, pr, env, pair.1, gas);
    assert(st1.fdd == Some(d));
    assert(st2.fdd == Some(d));
    if !(st_ceiling(st2, pr, None) < PRESSURE_SCALE || fuel <= 1) {
        law_first_deco_latched_deco_loop(
            st2,
            pr,
            env,
            gas,
            ascent_rate,
            descent_rate,
            (fuel - 1) as nat,
            d,
        );
    }
}

/// A zero-duration segment of any type leaves every compartment
/// pressure exactly unchanged.
pub proof fn law_zero_duration_segment(
    st: EngineState,
    pr: EngineParams,
    env: Environment,
    seg: Segment,
    gas: Gas,
)
    requires
        seg.time == 0,
    ensures
        st_apply(st, pr, env, seg, gas).n2 == st.n2,
        st_apply(st, pr, env, seg, gas).he == st.he,
{
}

/// Breathing a gas with no nitrogen never raises any nitrogen
/// compartment: a flat segment on such a gas moves every nitrogen
/// loading monotonically downward, and the same holds of helium for a
/// helium-free gas.
pub proof fn law_inert_free_gas_monotone(
    st: EngineState,
    pr: EngineParams,
    env: Environment,
    seg: Segment,
    gas: Gas,
)
    requires
        gas_seq_ok(st.n2),
        gas_seq_ok(st.he),
        loads_ok(pr.n2_load),
        loads_ok(pr.he_load),
        !(seg.segment_type is AscDesc),
        env.valid(),
        0 <= seg.end_depth.0 <= MAX_DEPTH,
    ensures
        gas.n2 == 0 ==> forall|i: int| 0 <= i < 16 ==> #[trigger] st_apply(
            st,
            pr,
            env,
            seg,
            gas,
        ).n2[i] <= st.n2[i],
        gas.he == 0 ==> forall|i: int| 0 <= i < 16 ==> #[trigger] st_apply(
            st,
            pr,
            env,
            seg,
            gas,
        ).he[i] <= st.he[i],
{
    if gas.n2 == 0 {
        assert(spec_flat_inspired(env, seg.end_depth.0 as int, 0) == 0) by {
            assert((env.spec_pressure(seg.end_depth.0 as int)
                - crate::units::WATER_VAPOUR_PRESSURE) * 0 == 0);
        }
        lemma_flat_steps_ok(st.n2, pr.n2_load, 0, seg.time as nat);
    }
    if gas.he == 0 {
        assert(spec_flat_inspired(env, seg.end_depth.0 as int, 0) == 0) by {
            assert((env.spec_pressure(seg.end_depth.0 as int)
                - crate::units::WATER_VAPOUR_PRESSURE) * 0 == 0);
        }
        lemma_flat_steps_ok(st.he, pr.he_load, 0, seg.time as nat);
    }
}

/// A compartment ceiling does not depend on the scale of the
/// gradient-factor rational: multiplying numerator and denominator by
/// the same positive factor leaves it unchanged.
proof fn lemma_comp_ceiling_scale(pn: int, ph: int, a: int, b: int, gn: int, gd: int, f: int)
    requires
        0 <= pn,
        0 <= ph,
        0 <= a,
        0 <= b,
        1 <= gd,
        gd <= gn <= 100 * gd,
        1 <= f,
    ensures
        comp_ceiling(pn, ph, a, b, f * gn, f * gd) == comp_ceiling(pn, ph, a, b, gn, gd),
{
    let s = PRESSURE_SCALE as int;
    let num_inner = 100 * (pn + ph) * gd - a * gn;
    let den = gn * s + b * (100 * gd - gn);
    let num_inner_f = 100 * (pn + ph) * (f * gd) - a * (f * gn);
    let den_f = (f * gn) * s + b * (100 * (f * gd) - f * gn);
    assert(num_inner_f == f * num_inner) by (nonlinear_arith)
        requires
            num_inner == 100 * (pn + ph) * gd - a * gn && num_inner_f == 100 * (pn + ph) * (f
                * gd) - a * (f * gn),
    ;
    assert(den_f == f * den) by (nonlinear_arith)
        requires
            den == gn * s + b * (100 * gd - gn) && den_f == (f * gn) * s + b * (100 * (f * gd) - f
                * gn),
    ;
    assert(den > 0) by (nonlinear_arith)
        requires
            den == gn * s + b * (100 * gd - gn) && gn >= 1 && s > 0 && b >= 0 && 100 * gd - gn
                >= 0,
    ;
    if num_inner <= 0 {
        assert(num_inner_f <= 0) by (nonlinear_arith)
            requires
                num_inner_f == f * num_inner && num_inner <= 0 && f >= 1,
        ;
    } else {
        assert(num_inner_f > 0) by (nonlinear_arith)
            requires
                num_inner_f == f * num_inner && num_inner > 0 && f >= 1,
        ;
        let x = b * num_inner;
        assert(b * num_inner_f == f * x) by (nonlinear_arith)
            requires
                num_inner_f == f * num_inner && x == b * num_inner,
        ;
        assert(x >= 0) by (nonlinear_arith)
            requires
                b >= 0 && num_inner > 0 && x == b * num_inner,
        ;
        assert(f * den > 0) by (nonlinear_arith)
            requires
                f >= 1 && den > 0,
        ;
        vstd::arithmetic::div_mod::lemma_div_denominator(f * x, f, den);
        vstd::arithmetic::mul::lemma_mul_is_commutative(x, f);
        vstd::arithmetic::div_mod::lemma_div_by_multiple(x, f);
        assert((f * x) / (f * den) == x / den);
        assert(b * num_inner_f / den_f == b * num_inner / den);
    }
}

/// The largest compartment ceiling is likewise scale-invariant in the
/// gradient-factor rational.
proof fn lemma_ceiling_upto_scale(
    st: EngineState,
    pr: EngineParams,
    gn: int,
    gd: int,
    f: int,
    k: nat,
)
    requires
        forall|i: int| 0 <= i < 16 ==> #[trigger] st.n2[i] >= 0,
        forall|i: int| 0 <= i < 16 ==> #[trigger] st.he[i] >= 0,
        forall|i: int| 0 <= i < 16 ==> #[trigger] pr.n2_a[i] >= 0,
        forall|i: int| 0 <= i < 16 ==> #[trigger] pr.he_a[i] >= 0,
        forall|i: int| 0 <= i < 16 ==> #[trigger] pr.n2_b[i] >= 0,
        forall|i: int| 0 <= i < 16 ==> #[trigger] pr.he_b[i] >= 0,
        forall|i: int| 0 <= i < 16 ==> #[trigger] st.n2[i] + st.he[i] >= 1,
        1 <= gd,
        gd <= gn <= 100 * gd,
        1 <= f,
        k <= 16,
    ensures
        st_ceiling_upto(st, pr, f * gn, f * gd, k) == st_ceiling_upto(st, pr, gn, gd, k),
    decreases k,
{
    if k > 0 {
        lemma_ceiling_upto_scale(st, pr, gn, gd, f, (k - 1) as nat);
        let i = k - 1;
        crate::model::lemma_blend_coeff_bound(
            pr.n2_a[i],
            pr.he_a[i],
            st.n2[i],
            st.he[i],
            if pr.n2_a[i] > pr.he_a[i] {
                pr.n2_a[i]
            } else {
                pr.he_a[i]
            },
        );
        crate::model::lemma_blend_coeff_bound(
            pr.n2_b[i],
            pr.he_b[i],
            st.n2[i],
            st.he[i],
            if pr.n2_b[i] > pr.he_b[i] {
                pr.n2_b[i]
            } else {
                pr.he_b[i]
            },
        );
        lemma_comp_ceiling_scale(
            st.n2[i],
            st.he[i],
            crate::model::blend_coeff(pr.n2_a[i], pr.he_a[i], st.n2[i], st.he[i]),
            crate::model::blend_coeff(pr.n2_b[i], pr.he_b[i], st.n2[i], st.he[i]),
            gn,
            gd,
            f,
        );
    }
}

/// At the surface, once decompression has begun, the gradient-factor
/// adjusted ceiling equals the ceiling computed with `gf_high` exactly.
pub proof fn law_surface_ceiling_is_gf_high(st: EngineState, pr: EngineParams, d: int)
    requires
        forall|i: int| 0 <= i < 16 ==> #[trigger] st.n2[i] >= 0,
        forall|i: int| 0 <= i < 16 ==> #[trigger] st.he[i] >= 0,
        forall|i: int| 0 <= i < 16 ==> #[trigger] pr.n2_a[i] >= 0,
        forall|i: int| 0 <= i < 16 ==> #[trigger] pr.he_a[i] >= 0,
        forall|i: int| 0 <= i < 16 ==> #[trigger] pr.n2_b[i] >= 0,
        forall|i: int| 0 <= i < 16 ==> #[trigger] pr.he_b[i] >= 0,
        forall|i: int| 0 <= i < 16 ==> #[trigger] st.n2[i] + st.he[i] >= 1,
        1 <= pr.gf_low <= pr.gf_high <= 100,
        st.depth == 0,
        st.fdd == Some(d),
        0 <= d,
    ensures
        st_ceiling(st, pr, None) == st_ceiling(st, pr, Some(pr.gf_high)),
{
    if d == 0 {
        assert(st_gf(st, pr, None) == (pr.gf_high, 1int));
    } else {
        let raw = pr.gf_high * d - (pr.gf_high - pr.gf_low) * st.depth;
        assert((pr.gf_high - pr.gf_low) * 0 == 0);
        assert(raw == pr.gf_high * d);
        assert(pr.gf_low * d <= pr.gf_high * d) by (nonlinear_arith)
            requires
                pr.gf_low <= pr.gf_high && d >= 1,
        ;
        assert(st_gf(st, pr, None) == (pr.gf_high * d, d));
        assert(d <= pr.gf_high * d <= 100 * d) by (nonlinear_arith)
            requires
                1 <= pr.gf_high <= 100 && d >= 1,
        ;
        vstd::arithmetic::mul::lemma_mul_is_commutative(pr.gf_high, d);
        lemma_ceiling_upto_scale(st, pr, pr.gf_high, 1, d, 16);
        assert(d * (1int) == d);
    }
}

/// Every candidate stop depth sits on the three-metre grid, at or above
/// the ceiling's equivalent depth rounded up to the next multiple of
/// three.
pub proof fn law_stop_depth_grid(ceiling: int, env: Environment)
    requires
        env.valid(),
    ensures
        spec_stop_depth(ceiling, env) >= 0,
        spec_stop_depth(ceiling, env) % 3 == 0,
        ceiling <= PRESSURE_SCALE ==> spec_stop_depth(ceiling, env) == 0,
        ceiling > PRESSURE_SCALE ==> spec_stop_depth(ceiling, env) <= 3 * ((ceiling
            - PRESSURE_SCALE + 3 * (env.water_density.0 * 10_000) - 1) / (3 * (
        env.water_density.0 * 10_000))),
{
    if ceiling > PRESSURE_SCALE {
        let per3 = 3 * (env.water_density.0 * 10_000);
        let q = (ceiling - PRESSURE_SCALE + per3 - 1) / per3;
        vstd::arithmetic::div_mod::lemma_div_of0(per3);
        if ceiling - PRESSURE_SCALE + per3 - 1 >= 0 {
            vstd::arithmetic::div_mod::lemma_div_is_ordered(
                0,
                ceiling - PRESSURE_SCALE + per3 - 1,
                per3,
            );
        }
        assert(q >= 0);
        assert((3 * q) % 3 == 0) by (nonlinear_arith);
        assert(9999int % 3 == 0);
    }
}

/// Bottom time composes exactly: a flat segment of `t1 + t2` seconds
/// loads the tissue precisely as a segment of `t1` seconds followed by
/// one of `t2` seconds at the same depth on the same gas.
pub proof fn law_flat_segment_additive(
    st: EngineState,
    pr: EngineParams,
    env: Environment,
    d: Depth,
    gas: Gas,
    t1: u64,
    t2: u64,
    whole: Segment,
    first: Segment,
    second: Segment,
)
    requires
        whole == (Segment {
            segment_type: SegmentType::Bottom,
            start_depth: d,
            end_depth: d,
            time: (t1 + t2) as u64,
            ascent_rate: Rate(0),
            descent_rate: Rate(0),
        }),
        first == (Segment { time: t1, ..whole }),
        second == (Segment { time: t2, ..whole }),
        t1 + t2 <= u64::MAX,
    ensures
        st_apply(st, pr, env, whole, gas) == st_apply(
            st_apply(st, pr, env, first, gas),
            pr,
            env,
            second,
            gas,
        ),
{
    lemma_flat_steps_add(
        st.n2,
        pr.n2_load,
        spec_flat_inspired(env, d.0 as int, gas.n2 as int),
        t1 as nat,
        t2 as nat,
    );
    lemma_flat_steps_add(
        st.he,
        pr.he_load,
        spec_flat_inspired(env, d.0 as int, gas.he as int),
        t1 as nat,
        t2 as nat,
    );
}

} // verus!
