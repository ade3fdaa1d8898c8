//! The mathematical model of the decompression engine.
//!
//! Every executable routine of the engine promises that its result equals
//! one of these specification functions.  The model advances tissue one
//! second at a time: a compartment with per-second loading factor `c`
//! moves `c / LOAD_SCALE` of the way from its pressure towards the
//! inspired pressure.  Iterated, this is the Haldane equation at constant
//! depth; under the linearly interpolated depth of a depth change it is
//! the Schreiner ramp.

use vstd::prelude::*;
use crate::environment::Environment;
use crate::gas::Gas;
use crate::segment::{Segment, SegmentType};
use crate::tissue::MAX_TISSUE_PRESSURE;
use crate::tissue_constants::LOAD_SCALE;
use crate::units::{spec_time_taken, Depth, Rate, MAX_DEPTH, PRESSURE_SCALE, WATER_VAPOUR_PRESSURE};

verus! {

/// Minutes a single stop-time search will try before giving up.
pub const STOP_SEARCH_FUEL: u64 = 10_000;

/// Stops a surfacing run will emit before giving up.
pub const SURFACE_FUEL: u64 = 1_000;

/// Minute cap of the no-decompression-limit search; at the cap the
/// limit is reported as this many minutes, a conventional stand-in for
/// "unlimited".
pub const NDL_CAP_MINUTES: u64 = 999;

/// Largest inspired pressure a valid environment and depth can produce,
/// in nanobar.
pub const MAX_INSPIRED_PRESSURE: u64 = 2_002_000_000_000;

/// One second of loading for one compartment: move `c / LOAD_SCALE` of
/// the distance from `p` to the inspired pressure `pi`, rounded towards
/// `p`.
pub open spec fn step_comp(p: int, pi: int, c: int) -> int {
    if pi >= p {
        p + (pi - p) * c / (LOAD_SCALE as int)
    } else {
        p - (p - pi) * c / (LOAD_SCALE as int)
    }
}

/// One second of loading for all compartments of one inert gas.
pub open spec fn step_gas(s: Seq<int>, load: Seq<int>, pi: int) -> Seq<int> {
    Seq::new(s.len(), |i: int| step_comp(s[i], pi, load[i]))
}

/// `t` seconds of loading at a fixed inspired pressure.
pub open spec fn flat_steps(s: Seq<int>, load: Seq<int>, pi: int, t: nat) -> Seq<int>
    decreases t,
{
    if t == 0 {
        s
    } else {
        step_gas(flat_steps(s, load, pi, (t - 1) as nat), load, pi)
    }
}

/// Pressure absorbed by the lungs at ambient pressure `ambient`, for a
/// component making up `percent` of the mix.
pub open spec fn inspired_pressure(ambient: int, percent: int) -> int {
    (ambient - WATER_VAPOUR_PRESSURE) * percent / 100
}

/// Ambient pressure during second `j` (counted from zero) of a depth
/// change from `start` to `end` metres taking `t_total` seconds: the
/// pressure at the linearly interpolated depth reached when the second
/// ends.
pub open spec fn ramp_ambient(env: Environment, start: int, end: int, t_total: int, j: int) -> int {
    let num = start * (t_total - (j + 1)) + end * (j + 1);
    env.atmospheric_pressure.0 + num * env.water_density.0 * 10_000 / t_total
}

/// `t` seconds of loading along a depth change from `start` to `end`
/// taking `t_total` seconds, for one inert gas making up `percent` of
/// the mix.
pub open spec fn ramp_steps(
    s: Seq<int>,
    load: Seq<int>,
    env: Environment,
    start: int,
    end: int,
    t_total: int,
    percent: int,
    t: nat,
) -> Seq<int>
    decreases t,
{
    if t == 0 {
        s
    } else {
        step_gas(
            ramp_steps(s, load, env, start, end, t_total, percent, (t - 1) as nat),
            load,
            inspired_pressure(ramp_ambient(env, start, end, t_total, t - 1), percent),
        )
    }
}

/// Inspired partial pressure of a component breathed at `depth` in
/// `env`, for a component making up `percent` of the mix.
pub open spec fn spec_flat_inspired(env: Environment, depth: int, percent: int) -> int {
    inspired_pressure(env.spec_pressure(depth), percent)
}

/// The changing half of an engine: compartment pressures, the diver's
/// depth, and the first-stop latch.
pub ghost struct EngineState {
    pub n2: Seq<int>,
    pub he: Seq<int>,
    pub depth: int,
    pub fdd: Option<int>,
}

/// The fixed half of an engine: compartment constants and the gradient
/// factor pair.
pub ghost struct EngineParams {
    pub n2_load: Seq<int>,
    pub n2_a: Seq<int>,
    pub n2_b: Seq<int>,
    pub he_load: Seq<int>,
    pub he_a: Seq<int>,
    pub he_b: Seq<int>,
    pub gf_low: int,
    pub gf_high: int,
}

/// Applying a segment: Haldane loading at the end depth for flat
/// segments, the Schreiner ramp for depth changes; the diver moves to
/// the segment's end depth and a decompression stop latches the
/// first-stop depth.
pub open spec fn st_apply(
    st: EngineState,
    pr: EngineParams,
    env: Environment,
    seg: Segment,
    gas: Gas,
) -> EngineState {
    let n2 = if seg.segment_type is AscDesc {
        ramp_steps(
            st.n2,
            pr.n2_load,
            env,
            seg.start_depth.0 as int,
            seg.end_depth.0 as int,
            seg.time as int,
            gas.n2 as int,
            seg.time as nat,
        )
    } else {
        flat_steps(
            st.n2,
            pr.n2_load,
            spec_flat_inspired(env, seg.end_depth.0 as int, gas.n2 as int),
            seg.time as nat,
        )
    };
    let he = if seg.segment_type is AscDesc {
        ramp_steps(
            st.he,
            pr.he_load,
            env,
            seg.start_depth.0 as int,
            seg.end_depth.0 as int,
            seg.time as int,
            gas.he as int,
            seg.time as nat,
        )
    } else {
        flat_steps(
            st.he,
            pr.he_load,
            spec_flat_inspired(env, seg.end_depth.0 as int, gas.he as int),
            seg.time as nat,
        )
    };
    EngineState {
        n2,
        he,
        depth: seg.end_depth.0 as int,
        fdd: if seg.segment_type is DecoStop && st.fdd is None {
            Some(seg.start_depth.0 as int)
        } else {
            st.fdd
        },
    }
}

/// The gradient factor a ceiling query uses, as the rational
/// `gn / (100 gd)`: an override verbatim; `gf_low` until decompression
/// has begun; afterwards the line from `gf_low` at the first stop to
/// `gf_high` at the surface, evaluated at the diver's depth and clamped
/// to the pair's range.
pub open spec fn st_gf(st: EngineState, pr: EngineParams, fr_gf_override: Option<int>) -> (
    int,
    int,
) {
    match fr_gf_override {
        Some(g) => (g, 1int),
        None => match st.fdd {
            None => (pr.gf_low, 1int),
            Some(fdd) => if fdd == 0 {
                (pr.gf_high, 1int)
            } else {
                let raw = pr.gf_high * fdd - (pr.gf_high - pr.gf_low) * st.depth;
                let lo = pr.gf_low * fdd;
                let hi = pr.gf_high * fdd;
                let gn = if raw < lo {
                    lo
                } else if raw > hi {
                    hi
                } else {
                    raw
                };
                (gn, fdd)
            },
        },
    }
}

/// Ceiling of compartment `i` under gradient factor `gn / (100 gd)`.
pub open spec fn st_comp_ceiling(
    st: EngineState,
    pr: EngineParams,
    gn: int,
    gd: int,
    i: int,
) -> int {
    comp_ceiling_full(st.n2[i], st.he[i], pr.n2_a[i], pr.he_a[i], pr.n2_b[i], pr.he_b[i], gn, gd)
}

/// Largest compartment ceiling among the first `k` compartments.
pub open spec fn st_ceiling_upto(
    st: EngineState,
    pr: EngineParams,
    gn: int,
    gd: int,
    k: nat,
) -> int
    decreases k,
{
    if k == 0 {
        0
    } else {
        let prev = st_ceiling_upto(st, pr, gn, gd, (k - 1) as nat);
        let cur = st_comp_ceiling(st, pr, gn, gd, k - 1);
        if cur > prev {
            cur
        } else {
            prev
        }
    }
}

/// The ascent ceiling: the largest compartment ceiling under the
/// gradient factor the query uses.
pub open spec fn st_ceiling(st: EngineState, pr: EngineParams, fr_gf_override: Option<int>) -> int {
    let gf = st_gf(st, pr, fr_gf_override);
    st_ceiling_upto(st, pr, gf.0, gf.1, 16)
}

/// The candidate stop depth for an ascent ceiling: the ceiling's exact
/// equivalent depth rounded up to the next multiple of three metres,
/// held to the deepest three-metre multiple the model accepts.
pub open spec fn spec_stop_depth(ceiling: int, env: Environment) -> int {
    if ceiling <= PRESSURE_SCALE {
        0
    } else {
        let per3 = 3 * (env.water_density.0 * 10_000);
        let d = 3 * ((ceiling - PRESSURE_SCALE + per3 - 1) / per3);
        if d > 9999 {
            9999
        } else {
            d
        }
    }
}

/// The ceiling a stop at `sd` must reach before the diver may leave for
/// the next stop three metres up: the stop's own ambient pressure less
/// the water pressure of three metres, plus one bar.
pub open spec fn spec_stop_threshold(sd: int, env: Environment) -> int {
    PRESSURE_SCALE + (sd - 3) * (env.water_density.0 * 10_000)
}

/// One minute of stop time at depth `sd`.
pub open spec fn st_stop_minute(
    st: EngineState,
    pr: EngineParams,
    env: Environment,
    gas: Gas,
    sd: int,
) -> EngineState {
    EngineState {
        n2: flat_steps(st.n2, pr.n2_load, spec_flat_inspired(env, sd, gas.n2 as int), 60),
        he: flat_steps(st.he, pr.he_load, spec_flat_inspired(env, sd, gas.he as int), 60),
        depth: sd,
        fdd: st.fdd,
    }
}

/// The stop-time search: whole minutes are added until the ceiling
/// clears the threshold, or the fuel runs out.  `st` is the state after
/// `t` minutes at the stop; the result counts minutes from the start of
/// the search.
pub open spec fn st_stop_search(
    st: EngineState,
    pr: EngineParams,
    env: Environment,
    gas: Gas,
    sd: int,
    thr: int,
    t: int,
    fuel: nat,
) -> int
    decreases fuel,
{
    let nxt = st_stop_minute(st, pr, env, gas, sd);
    if st_ceiling(nxt, pr, None) < thr || fuel <= 1 {
        t + 1
    } else {
        st_stop_search(nxt, pr, env, gas, sd, thr, t + 1, (fuel - 1) as nat)
    }
}

/// The next decompression stop: an ascent to the candidate stop depth
/// when the diver is not already there, and the stop itself, its time
/// found by the stop-time search on a virtual copy with the first-stop
/// latch set.
pub open spec fn st_next_stop(
    st: EngineState,
    pr: EngineParams,
    env: Environment,
    gas: Gas,
    ascent_rate: Rate,
    descent_rate: Rate,
) -> (Option<Segment>, Segment) {
    let sd = spec_stop_depth(st_ceiling(st, pr, None), env);
    let asc = if st.depth != sd {
        Some(
            Segment {
                segment_type: SegmentType::AscDesc,
                start_depth: Depth(st.depth as u32),
                end_depth: Depth(sd as u32),
                time: spec_time_taken(ascent_rate.0 as int, st.depth, sd) as u64,
                ascent_rate,
                descent_rate,
            },
        )
    } else {
        None
    };
    let st1 = match asc {
        Some(seg) => st_apply(st, pr, env, seg, gas),
        None => st,
    };
    let st2 = EngineState {
        fdd: if st1.fdd is None {
            Some(sd)
        } else {
            st1.fdd
        },
        ..st1
    };
    let minutes = st_stop_search(
        st2,
        pr,
        env,
        gas,
        sd,
        spec_stop_threshold(sd, env),
        0,
        STOP_SEARCH_FUEL as nat,
    );
    (
        asc,
        Segment {
            segment_type: SegmentType::DecoStop,
            start_depth: Depth(sd as u32),
            end_depth: Depth(sd as u32),
            time: (minutes * 60) as u64,
            ascent_rate,
            descent_rate,
        },
    )
}

/// One minute of bottom time at the diver's own depth.
pub open spec fn st_bottom_minute(
    st: EngineState,
    pr: EngineParams,
    env: Environment,
    gas: Gas,
) -> EngineState {
    EngineState {
        n2: flat_steps(st.n2, pr.n2_load, spec_flat_inspired(env, st.depth, gas.n2 as int), 60),
        he: flat_steps(st.he, pr.he_load, spec_flat_inspired(env, st.depth, gas.he as int), 60),
        depth: st.depth,
        fdd: st.fdd,
    }
}

/// The no-decompression-limit search.  `st` is the state after `t`
/// minutes of bottom time: the first minute count whose ceiling under a
/// `gf_high` override exceeds one bar ends the search and the previous
/// count is the limit; zero failing at once means decompression is
/// already mandatory; past the cap the limit counts as unlimited.
pub open spec fn st_ndl_search(
    st: EngineState,
    pr: EngineParams,
    env: Environment,
    gas: Gas,
    t: int,
    fuel: nat,
) -> Option<int>
    decreases fuel,
{
    if st_ceiling(st, pr, Some(pr.gf_high)) > PRESSURE_SCALE {
        if t == 0 {
            None
        } else {
            Some(t - 1)
        }
    } else if t >= NDL_CAP_MINUTES || fuel == 0 {
        Some(NDL_CAP_MINUTES as int)
    } else {
        st_ndl_search(st_bottom_minute(st, pr, env, gas), pr, env, gas, t + 1, (fuel - 1) as nat)
    }
}

/// The no-decompression limit of a state, in whole minutes.
pub open spec fn st_ndl(st: EngineState, pr: EngineParams, env: Environment, gas: Gas) -> Option<
    int,
> {
    st_ndl_search(st, pr, env, gas, 0, (NDL_CAP_MINUTES + 1) as nat)
}

/// The decompression loop of a surfacing run: find the next stop, apply
/// the ascent and the stop, and repeat until the ceiling clears one bar
/// or the fuel runs out.  Returns the emitted segments and the state
/// they leave behind.
pub open spec fn st_deco_loop(
    st: EngineState,
    pr: EngineParams,
    env: Environment,
    gas: Gas,
    ascent_rate: Rate,
    descent_rate: Rate,
    fuel: nat,
) -> (Seq<Segment>, EngineState)
    decreases fuel,
{
    let pair = st_next_stop(st, pr, env, gas, ascent_rate, descent_rate);
    let st1 = match pair.0 {
        Some(seg) => st_apply(st, pr, env, seg, gas),
        None => st,
    };
    let st2 = st_apply(st1, pr, env, pair.1, gas);
    let segs = match pair.0 {
        Some(seg) => seq![seg, pair.1],
        None => seq![pair.1],
    };
    if st_ceiling(st2, pr, None) < PRESSURE_SCALE || fuel <= 1 {
        (segs, st2)
    } else {
        let rest = st_deco_loop(st2, pr, env, gas, ascent_rate, descent_rate, (fuel - 1) as nat);
        (segs + rest.0, rest.1)
    }
}

/// A surfacing run: a dive still inside its no-stop time yields a
/// single no-deco segment carrying the remaining limit; otherwise the
/// decompression loop runs.
pub open spec fn st_surface(
    st: EngineState,
    pr: EngineParams,
    env: Environment,
    gas: Gas,
    ascent_rate: Rate,
    descent_rate: Rate,
) -> (Seq<Segment>, EngineState) {
    if st_ceiling(st, pr, Some(pr.gf_high)) < PRESSURE_SCALE {
        let minutes = match st_ndl(st, pr, env, gas) {
            Some(m) => m,
            None => 0,
        };
        (
            seq![
                Segment {
                    segment_type: SegmentType::NoDeco,
                    start_depth: Depth(st.depth as u32),
                    end_depth: Depth(st.depth as u32),
                    time: (minutes * 60) as u64,
                    ascent_rate: Rate(0),
                    descent_rate: Rate(0),
                },
            ],
            st,
        )
    } else {
        st_deco_loop(st, pr, env, gas, ascent_rate, descent_rate, SURFACE_FUEL as nat)
    }
}

/// How far one second of loading moves a compartment: at most the whole
/// distance to the inspired pressure, and strictly less whenever that
/// distance is at least one unit.
pub proof fn lemma_scaled_distance(d: int, c: int)
    requires
        0 <= d,
        0 <= c < LOAD_SCALE,
    ensures
        0 <= d * c / (LOAD_SCALE as int) <= d,
        d >= 1 ==> d * c / (LOAD_SCALE as int) < d,
{
    let ls = LOAD_SCALE as int;
    vstd::arithmetic::mul::lemma_mul_nonnegative(d, c);
    vstd::arithmetic::div_mod::lemma_div_of0(ls);
    vstd::arithmetic::div_mod::lemma_div_is_ordered(0, d * c, ls);
    vstd::arithmetic::mul::lemma_mul_inequality(c, ls, d);
    vstd::arithmetic::mul::lemma_mul_is_commutative(c, d);
    vstd::arithmetic::mul::lemma_mul_is_commutative(ls, d);
    vstd::arithmetic::div_mod::lemma_div_is_ordered(d * c, d * ls, ls);
    vstd::arithmetic::div_mod::lemma_div_multiples_vanish(d, ls);
    if d >= 1 {
        vstd::arithmetic::mul::lemma_mul_strict_inequality(c, ls, d);
        assert(c * d < ls * d);
        if d * c / ls >= d {
            vstd::arithmetic::div_mod::lemma_fundamental_div_mod(d * c, ls);
            vstd::arithmetic::mul::lemma_mul_inequality(d, d * c / ls, ls);
            assert(false);
        }
    }
}

/// One second of loading keeps a compartment between its old pressure
/// and the inspired pressure, and never empties a loaded compartment.
pub proof fn lemma_step_comp_bounds(p: int, pi: int, c: int)
    requires
        0 <= p,
        0 <= pi,
        0 <= c < LOAD_SCALE,
    ensures
        step_comp(p, pi, c) >= 0,
        p <= pi ==> p <= step_comp(p, pi, c) <= pi,
        pi <= p ==> pi <= step_comp(p, pi, c) <= p,
        p >= 1 ==> step_comp(p, pi, c) >= 1,
        pi == 0 ==> step_comp(p, pi, c) <= p,
{
    if pi >= p {
        lemma_scaled_distance(pi - p, c);
    } else {
        lemma_scaled_distance(p - pi, c);
        if p >= 1 {
            if pi >= 1 {
            } else {
                assert(p - pi >= 1);
                assert((p - pi) * c / (LOAD_SCALE as int) < p - pi);
            }
        }
    }
}

/// Largest value the ceiling calculation can produce, in nanobar.
pub const MAX_CEILING: u64 = 800_000_000_000_000;

/// Coefficient for a compartment holding both inert gases: the published
/// per-gas coefficients weighted by the partial pressures.
pub open spec fn blend_coeff(xn: int, xh: int, pn: int, ph: int) -> int {
    (xn * pn + xh * ph) / (pn + ph)
}

/// Gradient-factor-adjusted ceiling of one compartment, as an ambient
/// pressure in nanobar, floored at zero.  The gradient factor is the
/// rational `gn / (100 gd)` of the supersaturation allowance; `a` is in
/// nanobar and `b` scaled by `PRESSURE_SCALE`.
pub open spec fn comp_ceiling(pn: int, ph: int, a: int, b: int, gn: int, gd: int) -> int {
    let num_inner = 100 * (pn + ph) * gd - a * gn;
    let den = gn * (PRESSURE_SCALE as int) + b * (100 * gd - gn);
    if num_inner <= 0 {
        0
    } else {
        b * num_inner / den
    }
}

/// Ceiling of one compartment with blended coefficients.
pub open spec fn comp_ceiling_full(
    pn: int,
    ph: int,
    an: int,
    ah: int,
    bn: int,
    bh: int,
    gn: int,
    gd: int,
) -> int {
    comp_ceiling(pn, ph, blend_coeff(an, ah, pn, ph), blend_coeff(bn, bh, pn, ph), gn, gd)
}

/// A blended coefficient lies between zero and the larger input bound.
pub proof fn lemma_blend_coeff_bound(xn: int, xh: int, pn: int, ph: int, m: int)
    requires
        0 <= xn <= m,
        0 <= xh <= m,
        0 <= pn,
        0 <= ph,
        pn + ph >= 1,
    ensures
        0 <= blend_coeff(xn, xh, pn, ph) <= m,
{
    let total = pn + ph;
    let num = xn * pn + xh * ph;
    assert(0 <= num && num <= m * total) by (nonlinear_arith)
        requires
            0 <= xn <= m && 0 <= xh <= m && 0 <= pn && 0 <= ph && num == xn * pn + xh * ph
                && total == pn + ph,
    ;
    vstd::arithmetic::div_mod::lemma_div_of0(total);
    vstd::arithmetic::div_mod::lemma_div_is_ordered(0, num, total);
    vstd::arithmetic::div_mod::lemma_div_is_ordered(num, m * total, total);
    vstd::arithmetic::div_mod::lemma_div_multiples_vanish(m, total);
}

/// A compartment ceiling is nonnegative and at most one hundred times
/// the compartment's total inert pressure.
pub proof fn lemma_comp_ceiling_bound(pn: int, ph: int, a: int, b: int, gn: int, gd: int)
    requires
        0 <= pn,
        0 <= ph,
        pn + ph >= 1,
        0 <= a,
        0 <= b <= PRESSURE_SCALE,
        1 <= gd,
        gd <= gn <= 100 * gd,
    ensures
        0 <= comp_ceiling(pn, ph, a, b, gn, gd) <= 100 * (pn + ph),
{
    let s = PRESSURE_SCALE as int;
    let total = pn + ph;
    let num_inner = 100 * total * gd - a * gn;
    let den = gn * s + b * (100 * gd - gn);
    if num_inner <= 0 {
    } else {
        assert(b * (100 * gd - gn) >= 0) by (nonlinear_arith)
            requires
                b >= 0 && 100 * gd - gn >= 0,
        ;
        assert(gn * s >= gd * s) by (nonlinear_arith)
            requires
                gn >= gd && s > 0,
        ;
        assert(den >= gd * s);
        assert(gd * s >= s) by (nonlinear_arith)
            requires
                gd >= 1 && s > 0,
        ;
        vstd::arithmetic::mul::lemma_mul_nonnegative(b, num_inner);
        vstd::arithmetic::div_mod::lemma_div_of0(den);
        vstd::arithmetic::div_mod::lemma_div_is_ordered(0, b * num_inner, den);
        vstd::arithmetic::div_mod::lemma_div_is_ordered_by_denominator(
            b * num_inner,
            gd * s,
            den,
        );
        assert(b * num_inner <= (100 * total) * (gd * s)) by (nonlinear_arith)
            requires
                0 <= b <= s && 0 < num_inner && num_inner <= 100 * total * gd && 0 < gd && 0 < s,
        ;
        vstd::arithmetic::div_mod::lemma_div_is_ordered(
            b * num_inner,
            (100 * total) * (gd * s),
            gd * s,
        );
        vstd::arithmetic::div_mod::lemma_div_multiples_vanish(100 * total, gd * s);
    }
}

/// Pressures a compartment sequence may hold.
pub open spec fn gas_seq_ok(s: Seq<int>) -> bool {
    &&& s.len() == 16
    &&& forall|i: int| 0 <= i < 16 ==> 0 <= #[trigger] s[i] <= MAX_TISSUE_PRESSURE
}

/// Loading factors the model accepts: strictly below one, so that a
/// loaded compartment never empties in a single second.
pub open spec fn loads_ok(l: Seq<int>) -> bool {
    &&& l.len() == 16
    &&& forall|i: int| 0 <= i < 16 ==> 0 <= #[trigger] l[i] < LOAD_SCALE
}

/// One second of loading keeps a compartment sequence within bounds,
/// never empties a loaded compartment, and with nothing inspired never
/// raises any compartment.
pub proof fn lemma_step_gas_ok(s: Seq<int>, load: Seq<int>, pi: int)
    requires
        gas_seq_ok(s),
        loads_ok(load),
        0 <= pi <= MAX_INSPIRED_PRESSURE,
    ensures
        gas_seq_ok(step_gas(s, load, pi)),
        forall|i: int| 0 <= i < 16 && s[i] >= 1 ==> #[trigger] step_gas(s, load, pi)[i] >= 1,
        pi == 0 ==> forall|i: int| 0 <= i < 16 ==> #[trigger] step_gas(s, load, pi)[i] <= s[i],
{
    assert forall|i: int| 0 <= i < 16 implies {
        &&& 0 <= #[trigger] step_gas(s, load, pi)[i] <= MAX_TISSUE_PRESSURE
        &&& (s[i] >= 1 ==> step_gas(s, load, pi)[i] >= 1)
        &&& (pi == 0 ==> step_gas(s, load, pi)[i] <= s[i])
    } by {
        lemma_step_comp_bounds(s[i], pi, load[i]);
    }
}

/// `flat_steps` keeps the same guarantees over any duration.
pub proof fn lemma_flat_steps_ok(s: Seq<int>, load: Seq<int>, pi: int, t: nat)
    requires
        gas_seq_ok(s),
        loads_ok(load),
        0 <= pi <= MAX_INSPIRED_PRESSURE,
    ensures
        gas_seq_ok(flat_steps(s, load, pi, t)),
        forall|i: int| 0 <= i < 16 && s[i] >= 1 ==> #[trigger] flat_steps(s, load, pi, t)[i] >= 1,
        pi == 0 ==> forall|i: int| 0 <= i < 16 ==> #[trigger] flat_steps(s, load, pi, t)[i]
            <= s[i],
    decreases t,
{
    if t > 0 {
        lemma_flat_steps_ok(s, load, pi, (t - 1) as nat);
        lemma_step_gas_ok(flat_steps(s, load, pi, (t - 1) as nat), load, pi);
    }
}

/// Loading `t1 + t2` seconds at one inspired pressure is loading `t1`
/// seconds and then `t2` seconds.
pub proof fn lemma_flat_steps_add(s: Seq<int>, load: Seq<int>, pi: int, t1: nat, t2: nat)
    ensures
        flat_steps(s, load, pi, t1 + t2) == flat_steps(flat_steps(s, load, pi, t1), load, pi, t2),
    decreases t2,
{
    if t2 > 0 {
        lemma_flat_steps_add(s, load, pi, t1, (t2 - 1) as nat);
        assert(t1 + t2 - 1 == t1 + ((t2 - 1) as nat));
    }
}

/// Ambient pressure along a ramp stays between the surface pressure and
/// the pressure of the deepest point the model accepts.
pub proof fn lemma_ramp_ambient_bounds(
    env: Environment,
    start: int,
    end: int,
    t_total: int,
    j: int,
)
    requires
        env.valid(),
        0 <= start <= MAX_DEPTH,
        0 <= end <= MAX_DEPTH,
        1 <= t_total,
        0 <= j < t_total,
    ensures
        env.atmospheric_pressure.0 <= ramp_ambient(env, start, end, t_total, j)
            <= MAX_INSPIRED_PRESSURE,
{
    let den = env.water_density.0 as int;
    let num = start * (t_total - (j + 1)) + end * (j + 1);
    assert(num >= 0) by (nonlinear_arith)
        requires
            0 <= start && 0 <= end && 0 <= t_total - (j + 1) && 0 <= j + 1 && num == start * (
            t_total - (j + 1)) + end * (j + 1),
    ;
    assert(num <= MAX_DEPTH * t_total) by (nonlinear_arith)
        requires
            start <= MAX_DEPTH && end <= MAX_DEPTH && 0 <= t_total - (j + 1) && 0 <= j + 1
                && num == start * (t_total - (j + 1)) + end * (j + 1),
    ;
    vstd::arithmetic::mul::lemma_mul_nonnegative(num, den * 10_000);
    vstd::arithmetic::div_mod::lemma_div_of0(t_total);
    vstd::arithmetic::div_mod::lemma_div_is_ordered(0, num * den * 10_000, t_total);
    assert(num * den * 10_000 <= (MAX_DEPTH * den * 10_000) * t_total) by (nonlinear_arith)
        requires
            0 <= num && num <= MAX_DEPTH * t_total && 0 < den,
    ;
    vstd::arithmetic::div_mod::lemma_div_is_ordered(
        num * den * 10_000,
        (MAX_DEPTH * den * 10_000) * t_total,
        t_total,
    );
    vstd::arithmetic::div_mod::lemma_div_multiples_vanish(MAX_DEPTH * den * 10_000, t_total);
    assert(MAX_DEPTH * den * 10_000 <= 2_000_000_000_000) by (nonlinear_arith)
        requires
            den <= 20_000,
    ;
}

/// `ramp_steps` keeps compartment sequences within bounds.
pub proof fn lemma_ramp_steps_ok(
    s: Seq<int>,
    load: Seq<int>,
    env: Environment,
    start: int,
    end: int,
    t_total: int,
    percent: int,
    t: nat,
)
    requires
        gas_seq_ok(s),
        loads_ok(load),
        env.valid(),
        0 <= start <= MAX_DEPTH,
        0 <= end <= MAX_DEPTH,
        1 <= t_total,
        0 <= percent <= 100,
        t <= t_total,
    ensures
        gas_seq_ok(ramp_steps(s, load, env, start, end, t_total, percent, t)),
        forall|i: int| 0 <= i < 16 && s[i] >= 1 ==> #[trigger] ramp_steps(
            s,
            load,
            env,
            start,
            end,
            t_total,
            percent,
            t,
        )[i] >= 1,
    decreases t,
{
    if t > 0 {
        lemma_ramp_steps_ok(s, load, env, start, end, t_total, percent, (t - 1) as nat);
        lemma_ramp_ambient_bounds(env, start, end, t_total, t - 1);
        let ambient = ramp_ambient(env, start, end, t_total, t - 1);
        let pi = inspired_pressure(ambient, percent);
        assert(0 <= (ambient - WATER_VAPOUR_PRESSURE) * percent) by (nonlinear_arith)
            requires
                ambient >= WATER_VAPOUR_PRESSURE && percent >= 0,
        ;
        assert((ambient - WATER_VAPOUR_PRESSURE) * percent <= MAX_INSPIRED_PRESSURE * 100)
            by (nonlinear_arith)
            requires
                0 <= ambient - WATER_VAPOUR_PRESSURE <= MAX_INSPIRED_PRESSURE && 0 <= percent
                    <= 100,
        ;
        vstd::arithmetic::div_mod::lemma_div_of0(100);
        vstd::arithmetic::div_mod::lemma_div_is_ordered(
            0,
            (ambient - WATER_VAPOUR_PRESSURE) * percent,
            100,
        );
        vstd::arithmetic::div_mod::lemma_div_is_ordered(
            (ambient - WATER_VAPOUR_PRESSURE) * percent,
            MAX_INSPIRED_PRESSURE as int * 100,
            100,
        );
        vstd::arithmetic::div_mod::lemma_div_multiples_vanish(MAX_INSPIRED_PRESSURE as int, 100);
        assert(0 <= pi <= MAX_INSPIRED_PRESSURE);
        lemma_step_gas_ok(
            ramp_steps(s, load, env, start, end, t_total, percent, (t - 1) as nat),
            load,
            pi,
        );
    }
}

} // verus!
