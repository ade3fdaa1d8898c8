//! The mathematical model of the open-circuit planner.

use vstd::prelude::*;
use crate::environment::Environment;
use crate::gas::{spec_narcotic_depth, spec_partial_pressure, Gas};
use crate::model::{st_apply, st_surface, EngineParams, EngineState};
use crate::segment::{Segment, SegmentType};
use crate::units::{
    spec_time_taken, Depth, Rate, PPO2_MAXIMUM_DECO, PPO2_MINIMUM,
};

verus! {

/// Gas switches a single leg will perform before settling.
pub const SWITCH_FUEL: u64 = 64;

/// Whether `gas` may be breathed at a stop of depth `depth`: its
/// maximum operating depth (explicit, or computed for the deco ppO2
/// ceiling) covers the stop, its ppO2 there lies in the deco window,
/// and its narcotic depth does not exceed the stop.
pub open spec fn pl_eligible(gas: Gas, mod_depth: Option<Depth>, depth: int, env: Environment) -> bool {
    let ppo2 = spec_partial_pressure(env.spec_pressure(depth), gas.o2 as int);
    &&& match mod_depth {
        Some(m) => m.0 >= depth,
        None => gas.o2 == 0 || env.spec_equivalent_depth(
            PPO2_MAXIMUM_DECO as int * 100 / (gas.o2 as int),
        ) >= depth,
    }
    &&& PPO2_MINIMUM <= ppo2 <= PPO2_MAXIMUM_DECO
    &&& spec_narcotic_depth(depth, gas.he as int) <= depth
}

/// The best gas for a stop at `depth` among the tail of `gases`
/// starting at `i`: the eligible gas with the highest ppO2 there,
/// earliest listed winning ties.
pub open spec fn pl_best_from(
    gases: Seq<(Gas, Option<Depth>)>,
    depth: int,
    env: Environment,
    i: int,
) -> Option<Gas>
    decreases gases.len() - i,
{
    if i < 0 || i >= gases.len() {
        None
    } else {
        let rest = pl_best_from(gases, depth, env, i + 1);
        if pl_eligible(gases[i].0, gases[i].1, depth, env) {
            match rest {
                None => Some(gases[i].0),
                Some(g) => if spec_partial_pressure(env.spec_pressure(depth), g.o2 as int)
                    > spec_partial_pressure(env.spec_pressure(depth), gases[i].0.o2 as int) {
                    Some(g)
                } else {
                    Some(gases[i].0)
                },
            }
        } else {
            rest
        }
    }
}

/// The first stop, walking from `j` and skipping depth changes, whose
/// best gas differs from the current one, with that gas.
pub open spec fn pl_switch_point(
    stops: Seq<Segment>,
    current: Gas,
    gases: Seq<(Gas, Option<Depth>)>,
    env: Environment,
    j: int,
) -> Option<(Segment, Gas)>
    decreases stops.len() - j,
{
    if j < 0 || j >= stops.len() {
        None
    } else if stops[j].segment_type is AscDesc {
        pl_switch_point(stops, current, gases, env, j + 1)
    } else {
        match pl_best_from(gases, stops[j].start_depth.0 as int, env, 0) {
            Some(b) => if b != current {
                Some((stops[j], b))
            } else {
                pl_switch_point(stops, current, gases, env, j + 1)
            },
            None => pl_switch_point(stops, current, gases, env, j + 1),
        }
    }
}

/// The longest prefix of `s`, from `j` on, whose segments start deeper
/// than `target`.
pub open spec fn take_deeper_from(s: Seq<Segment>, target: int, j: int) -> Seq<Segment>
    decreases s.len() - j,
{
    if j < 0 || j >= s.len() {
        Seq::<Segment>::empty()
    } else if s[j].start_depth.0 > target {
        seq![s[j]] + take_deeper_from(s, target, j + 1)
    } else {
        Seq::<Segment>::empty()
    }
}

/// The longest prefix of `s` whose segments start deeper than `target`.
pub open spec fn take_deeper(s: Seq<Segment>, target: int) -> Seq<Segment> {
    take_deeper_from(s, target, 0)
}

/// The kept prefix is the subrange up to the first segment at or above
/// the target.
pub proof fn lemma_take_deeper_subrange(s: Seq<Segment>, target: int, j: int, cut: int)
    requires
        0 <= j <= cut <= s.len(),
        forall|k: int| j <= k < cut ==> (#[trigger] s[k]).start_depth.0 > target,
        cut == s.len() || !(s[cut].start_depth.0 > target),
    ensures
        take_deeper_from(s, target, j) == s.subrange(j, cut),
    decreases cut - j,
{
    if j < cut {
        lemma_take_deeper_subrange(s, target, j + 1, cut);
        assert(take_deeper_from(s, target, j) =~= s.subrange(j, cut));
    } else {
        assert(take_deeper_from(s, target, j) =~= s.subrange(j, cut));
    }
}

/// The first decompression stop in `s`, from `j` on, whose start depth
/// is exactly `depth`.
pub open spec fn find_stop_at(s: Seq<Segment>, depth: int, j: int) -> Option<Segment>
    decreases s.len() - j,
{
    if j < 0 || j >= s.len() {
        None
    } else if s[j].segment_type is DecoStop && s[j].start_depth.0 == depth {
        Some(s[j])
    } else {
        find_stop_at(s, depth, j + 1)
    }
}

/// Whether `s` holds any decompression stop.
pub open spec fn has_deco_stop(s: Seq<Segment>) -> bool {
    exists|k: int| 0 <= k < s.len() && (#[trigger] s[k]).segment_type is DecoStop
}

/// Applies segments `j` onward of a run on one gas, in order; no-deco
/// segments carry remaining time rather than performed time and leave
/// the state untouched.
pub open spec fn apply_all_from(
    st: EngineState,
    pr: EngineParams,
    env: Environment,
    segs: Seq<Segment>,
    gas: Gas,
    j: int,
) -> EngineState
    decreases segs.len() - j,
{
    if j < 0 || j >= segs.len() {
        st
    } else {
        let st1 = if segs[j].segment_type is NoDeco {
            st
        } else {
            st_apply(st, pr, env, segs[j], gas)
        };
        apply_all_from(st1, pr, env, segs, gas, j + 1)
    }
}

/// Applies a whole run of segments on one gas.
pub open spec fn apply_all(
    st: EngineState,
    pr: EngineParams,
    env: Environment,
    segs: Seq<Segment>,
    gas: Gas,
) -> EngineState {
    apply_all_from(st, pr, env, segs, gas, 0)
}

/// Segments of a run paired with the one gas they are breathed on.
pub open spec fn zip_gas(s: Seq<Segment>, gas: Gas) -> Seq<(Segment, Gas)> {
    s.map_values(|seg: Segment| (seg, gas))
}

/// One leg of the plan: the decompression and depth-change segments
/// between the end of `start` and the start of `end`, or the surface
/// when `end` is absent.  Candidate stops come from surfacing a virtual
/// copy on the current gas; a stop whose best eligible gas differs
/// starts a switch, after which the leg is recomputed on the new gas.
pub open spec fn pl_level(
    st: EngineState,
    pr: EngineParams,
    env: Environment,
    start_seg: Segment,
    start_gas: Gas,
    end: Option<(Segment, Gas)>,
    ascent_rate: Rate,
    descent_rate: Rate,
    deco_gases: Seq<(Gas, Option<Depth>)>,
    fuel: nat,
) -> (Seq<(Segment, Gas)>, EngineState)
    decreases fuel, 1int,
{
    match end {
        Some(pair) => {
            let eseg = pair.0;
            let egas = pair.1;
            if start_seg.end_depth.0 < eseg.start_depth.0 {
                let descent = Segment {
                    segment_type: SegmentType::AscDesc,
                    start_depth: start_seg.end_depth,
                    end_depth: eseg.start_depth,
                    time: spec_time_taken(
                        descent_rate.0 as int,
                        start_seg.end_depth.0 as int,
                        eseg.start_depth.0 as int,
                    ) as u64,
                    ascent_rate,
                    descent_rate,
                };
                (seq![(descent, start_gas)], st_apply(st, pr, env, descent, start_gas))
            } else if start_seg.end_depth.0 == eseg.start_depth.0 {
                (Seq::<(Segment, Gas)>::empty(), st)
            } else {
                pl_level_ascend(
                    st,
                    pr,
                    env,
                    start_gas,
                    end,
                    eseg.start_depth.0 as int,
                    seq![(start_gas, None::<Depth>), (egas, None::<Depth>)],
                    ascent_rate,
                    descent_rate,
                    deco_gases,
                    fuel,
                )
            }
        },
        None => pl_level_ascend(
            st,
            pr,
            env,
            start_gas,
            end,
            0,
            deco_gases,
            ascent_rate,
            descent_rate,
            deco_gases,
            fuel,
        ),
    }
}

/// The ascending part of a leg: candidate stops above `target` from a
/// virtual surfacing run, a possible gas switch, and the recursion on
/// the new gas.
pub open spec fn pl_level_ascend(
    st: EngineState,
    pr: EngineParams,
    env: Environment,
    start_gas: Gas,
    end: Option<(Segment, Gas)>,
    target: int,
    avail: Seq<(Gas, Option<Depth>)>,
    ascent_rate: Rate,
    descent_rate: Rate,
    deco_gases: Seq<(Gas, Option<Depth>)>,
    fuel: nat,
) -> (Seq<(Segment, Gas)>, EngineState)
    decreases fuel, 0int,
{
    let stops = take_deeper(st_surface(st, pr, env, start_gas, ascent_rate, descent_rate).0, target);
    let done = (zip_gas(stops, start_gas), apply_all(st, pr, env, stops, start_gas));
    match pl_switch_point(stops, start_gas, avail, env, 0) {
        Some(sw) => {
            let sw_seg = sw.0;
            let sw_gas = sw.1;
            if has_deco_stop(stops) && fuel >= 1 {
                let replay = take_deeper(stops, sw_seg.start_depth.0 as int);
                let st1 = apply_all(st, pr, env, replay, start_gas);
                let new_stop = match find_stop_at(
                    st_surface(st1, pr, env, sw_gas, ascent_rate, descent_rate).0,
                    sw_seg.start_depth.0 as int,
                    0,
                ) {
                    Some(ns) => ns,
                    None => Segment {
                        segment_type: SegmentType::DecoStop,
                        start_depth: sw_seg.start_depth,
                        end_depth: sw_seg.end_depth,
                        time: 60,
                        ascent_rate,
                        descent_rate,
                    },
                };
                let st2 = st_apply(st1, pr, env, new_stop, sw_gas);
                let rest = pl_level(
                    st2,
                    pr,
                    env,
                    new_stop,
                    sw_gas,
                    end,
                    ascent_rate,
                    descent_rate,
                    deco_gases,
                    (fuel - 1) as nat,
                );
                (zip_gas(replay, start_gas) + seq![(new_stop, sw_gas)] + rest.0, rest.1)
            } else {
                done
            }
        },
        None => done,
    }
}

/// The walk over the bottom segments: apply and emit each, run the leg
/// to the next one (or to the surface after the last).
pub open spec fn pl_walk(
    st: EngineState,
    pr: EngineParams,
    env: Environment,
    segs: Seq<(Segment, Gas)>,
    i: int,
    ascent_rate: Rate,
    descent_rate: Rate,
    deco_gases: Seq<(Gas, Option<Depth>)>,
) -> (Seq<(Segment, Gas)>, EngineState)
    decreases segs.len() - i,
{
    if i < 0 || i >= segs.len() {
        (Seq::<(Segment, Gas)>::empty(), st)
    } else {
        let sg = segs[i].0;
        let g = segs[i].1;
        let st1 = st_apply(st, pr, env, sg, g);
        let end = if i + 1 < segs.len() {
            Some(segs[i + 1])
        } else {
            None
        };
        let leg = pl_level(
            st1,
            pr,
            env,
            sg,
            g,
            end,
            ascent_rate,
            descent_rate,
            deco_gases,
            SWITCH_FUEL as nat,
        );
        let rest = pl_walk(leg.1, pr, env, segs, i + 1, ascent_rate, descent_rate, deco_gases);
        (seq![(sg, g)] + leg.0 + rest.0, rest.1)
    }
}

/// The whole plan: a depth change from the model's depth to the first
/// bottom segment, the walk over the bottom segments with their legs,
/// and a final ascent to the surface when the model is still below it.
pub open spec fn pl_plan(
    st0: EngineState,
    pr: EngineParams,
    env: Environment,
    segs: Seq<(Segment, Gas)>,
    deco_gases: Seq<(Gas, Option<Depth>)>,
    ascent_rate: Rate,
    descent_rate: Rate,
) -> (Seq<(Segment, Gas)>, EngineState) {
    let first = segs[0];
    let pre = if st0.depth != first.0.start_depth.0 {
        let rate = if st0.depth < first.0.start_depth.0 {
            descent_rate
        } else {
            ascent_rate
        };
        let seg = Segment {
            segment_type: SegmentType::AscDesc,
            start_depth: Depth(st0.depth as u32),
            end_depth: first.0.start_depth,
            time: spec_time_taken(rate.0 as int, st0.depth, first.0.start_depth.0 as int) as u64,
            ascent_rate,
            descent_rate,
        };
        (seq![(seg, first.1)], st_apply(st0, pr, env, seg, first.1))
    } else {
        (Seq::<(Segment, Gas)>::empty(), st0)
    };
    let walked = pl_walk(pre.1, pr, env, segs, 0, ascent_rate, descent_rate, deco_gases);
    let mid = pre.0 + walked.0;
    let stf = walked.1;
    if stf.depth != 0 {
        let gas_f = mid.last().1;
        let fin = Segment {
            segment_type: SegmentType::AscDesc,
            start_depth: Depth(stf.depth as u32),
            end_depth: Depth(0),
            time: spec_time_taken(ascent_rate.0 as int, stf.depth, 0) as u64,
            ascent_rate,
            descent_rate,
        };
        (mid + seq![(fin, gas_f)], st_apply(stf, pr, env, fin, gas_f))
    } else {
        (mid, stf)
    }
}

/// The kept prefix repeats the elements of the source in place.
pub proof fn lemma_take_deeper_elements(s: Seq<Segment>, target: int, j: int)
    requires
        0 <= j <= s.len(),
    ensures
        take_deeper_from(s, target, j).len() <= s.len() - j,
        forall|m: int| 0 <= m < take_deeper_from(s, target, j).len() ==> #[trigger] take_deeper_from(
            s,
            target,
            j,
        )[m] == s[j + m],
    decreases s.len() - j,
{
    if j < s.len() && s[j].start_depth.0 > target {
        lemma_take_deeper_elements(s, target, j + 1);
    }
}

/// Applying a run whose last segment is a real one leaves the diver at
/// that segment's end depth.
pub proof fn lemma_apply_all_last(
    st: EngineState,
    pr: EngineParams,
    env: Environment,
    segs: Seq<Segment>,
    gas: Gas,
    j: int,
)
    requires
        0 <= j < segs.len(),
        !(segs.last().segment_type is NoDeco),
    ensures
        apply_all_from(st, pr, env, segs, gas, j).depth == segs.last().end_depth.0 as int,
    decreases segs.len() - j,
{
    let st1 = if segs[j].segment_type is NoDeco {
        st
    } else {
        st_apply(st, pr, env, segs[j], gas)
    };
    if j + 1 < segs.len() {
        lemma_apply_all_last(st1, pr, env, segs, gas, j + 1);
    } else {
        assert(segs[j] == segs.last());
        assert(apply_all_from(st1, pr, env, segs, gas, j + 1) == st1);
        assert(st1.depth == segs.last().end_depth.0 as int);
    }
}

/// Every state the decompression loop returns has a depth drawn from a
/// segment end, its emitted run is nonempty, holds no no-deco segment,
/// and its last segment ends at the returned depth.
pub proof fn lemma_deco_loop_shape(
    st: EngineState,
    pr: EngineParams,
    env: Environment,
    gas: Gas,
    ascent_rate: Rate,
    descent_rate: Rate,
    fuel: nat,
)
    ensures
        ({
            let r = crate::model::st_deco_loop(st, pr, env, gas, ascent_rate, descent_rate, fuel);
            &&& r.0.len() >= 1
            &&& forall|k: int| 0 <= k < r.0.len() ==> !((#[trigger] r.0[k]).segment_type
                is NoDeco)
            &&& r.0.last().end_depth.0 as int == r.1.depth
            &&& 0 <= r.1.depth <= u32::MAX
        }),
    decreases fuel,
{
    let pair = crate::model::st_next_stop(st, pr, env, gas, ascent_rate, descent_rate);
    let st1 = match pair.0 {
        Some(seg) => st_apply(st, pr, env, seg, gas),
        None => st,
    };
    let st2 = st_apply(st1, pr, env, pair.1, gas);
    if !(crate::model::st_ceiling(st2, pr, None) < crate::units::PRESSURE_SCALE || fuel <= 1) {
        lemma_deco_loop_shape(st2, pr, env, gas, ascent_rate, descent_rate, (fuel - 1) as nat);
    }
}

/// Every surfacing run emits something; it emits a single no-deco
/// segment exactly when the model was inside its no-stop time, in which
/// case the state is untouched; and its last segment always ends at the
/// returned state's depth.
pub proof fn lemma_surface_shape(
    st: EngineState,
    pr: EngineParams,
    env: Environment,
    gas: Gas,
    ascent_rate: Rate,
    descent_rate: Rate,
)
    requires
        0 <= st.depth <= u32::MAX,
    ensures
        ({
            let r = st_surface(st, pr, env, gas, ascent_rate, descent_rate);
            &&& r.0.len() >= 1
            &&& r.0.last().end_depth.0 as int == r.1.depth
            &&& 0 <= r.1.depth <= u32::MAX
            &&& (r.0[0].segment_type is NoDeco ==> r.0.len() == 1 && r.1 == st)
            &&& (!(r.0[0].segment_type is NoDeco) ==> forall|k: int| 0 <= k < r.0.len()
                ==> !((#[trigger] r.0[k]).segment_type is NoDeco))
        }),
{
    if !(crate::model::st_ceiling(st, pr, Some(pr.gf_high)) < crate::units::PRESSURE_SCALE) {
        lemma_deco_loop_shape(
            st,
            pr,
            env,
            gas,
            ascent_rate,
            descent_rate,
            crate::model::SURFACE_FUEL as nat,
        );
    }
}

/// A leg leaves the state untouched when it emits nothing, and
/// otherwise ends exactly where its last emitted segment does.
pub proof fn lemma_pl_level_last(
    st: EngineState,
    pr: EngineParams,
    env: Environment,
    start_seg: Segment,
    start_gas: Gas,
    end: Option<(Segment, Gas)>,
    ascent_rate: Rate,
    descent_rate: Rate,
    deco_gases: Seq<(Gas, Option<Depth>)>,
    fuel: nat,
)
    requires
        0 <= st.depth <= u32::MAX,
    ensures
        ({
            let r = pl_level(
                st,
                pr,
                env,
                start_seg,
                start_gas,
                end,
                ascent_rate,
                descent_rate,
                deco_gases,
                fuel,
            );
            &&& (r.0.len() == 0 ==> r.1 == st)
            &&& (r.0.len() > 0 ==> r.0.last().0.end_depth.0 as int == r.1.depth)
            &&& 0 <= r.1.depth <= u32::MAX
        }),
    decreases fuel, 1int,
{
    match end {
        Some(pair) => {
            if start_seg.end_depth.0 < pair.0.start_depth.0 {
            } else if start_seg.end_depth.0 == pair.0.start_depth.0 {
            } else {
                lemma_pl_level_ascend_last(
                    st,
                    pr,
                    env,
                    start_gas,
                    end,
                    pair.0.start_depth.0 as int,
                    seq![(start_gas, None::<Depth>), (pair.1, None::<Depth>)],
                    ascent_rate,
                    descent_rate,
                    deco_gases,
                    fuel,
                );
            }
        },
        None => {
            lemma_pl_level_ascend_last(
                st,
                pr,
                env,
                start_gas,
                end,
                0,
                deco_gases,
                ascent_rate,
                descent_rate,
                deco_gases,
                fuel,
            );
        },
    }
}

/// As `lemma_pl_level_last`, for the ascending part of a leg.
proof fn lemma_pl_level_ascend_last(
    st: EngineState,
    pr: EngineParams,
    env: Environment,
    start_gas: Gas,
    end: Option<(Segment, Gas)>,
    target: int,
    avail: Seq<(Gas, Option<Depth>)>,
    ascent_rate: Rate,
    descent_rate: Rate,
    deco_gases: Seq<(Gas, Option<Depth>)>,
    fuel: nat,
)
    requires
        0 <= st.depth <= u32::MAX,
    ensures
        ({
            let r = pl_level_ascend(
                st,
                pr,
                env,
                start_gas,
                end,
                target,
                avail,
                ascent_rate,
                descent_rate,
                deco_gases,
                fuel,
            );
            &&& (r.0.len() == 0 ==> r.1 == st)
            &&& (r.0.len() > 0 ==> r.0.last().0.end_depth.0 as int == r.1.depth)
            &&& 0 <= r.1.depth <= u32::MAX
        }),
    decreases fuel, 0int,
{
    lemma_surface_shape(st, pr, env, start_gas, ascent_rate, descent_rate);
    let run = st_surface(st, pr, env, start_gas, ascent_rate, descent_rate).0;
    let stops = take_deeper(run, target);
    lemma_take_deeper_elements(run, target, 0);
    let done_state = apply_all(st, pr, env, stops, start_gas);
    if stops.len() > 0 {
        assert(stops.last() == run[stops.len() - 1]);
        if stops.last().segment_type is NoDeco {
            assert(run[0].segment_type is NoDeco) by {
                if !(run[0].segment_type is NoDeco) {
                    assert(!(run[stops.len() - 1].segment_type is NoDeco));
                }
            }
            assert(stops.len() == 1);
            assert(stops =~= seq![run[0]]);
            assert(apply_all_from(st, pr, env, stops, start_gas, 1) == st);
            assert(done_state == st);
            assert(stops.last().end_depth.0 as int == st.depth);
        } else {
            lemma_apply_all_last(st, pr, env, stops, start_gas, 0);
        }
    }
    match pl_switch_point(stops, start_gas, avail, env, 0) {
        Some(sw) => {
            if has_deco_stop(stops) && fuel >= 1 {
                let replay = take_deeper(stops, sw.0.start_depth.0 as int);
                let st1 = apply_all(st, pr, env, replay, start_gas);
                let new_stop = match find_stop_at(
                    st_surface(st1, pr, env, sw.1, ascent_rate, descent_rate).0,
                    sw.0.start_depth.0 as int,
                    0,
                ) {
                    Some(ns) => ns,
                    None => Segment {
                        segment_type: SegmentType::DecoStop,
                        start_depth: sw.0.start_depth,
                        end_depth: sw.0.end_depth,
                        time: 60,
                        ascent_rate,
                        descent_rate,
                    },
                };
                let st2 = st_apply(st1, pr, env, new_stop, sw.1);
                lemma_pl_level_last(
                    st2,
                    pr,
                    env,
                    new_stop,
                    sw.1,
                    end,
                    ascent_rate,
                    descent_rate,
                    deco_gases,
                    (fuel - 1) as nat,
                );
                let rest = pl_level(
                    st2,
                    pr,
                    env,
                    new_stop,
                    sw.1,
                    end,
                    ascent_rate,
                    descent_rate,
                    deco_gases,
                    (fuel - 1) as nat,
                );
                let emitted = zip_gas(replay, start_gas) + seq![(new_stop, sw.1)] + rest.0;
                if rest.0.len() == 0 {
                    assert(emitted.last() == (new_stop, sw.1));
                } else {
                    assert(emitted.last() == rest.0.last());
                }
            }
        },
        None => {},
    }
}

/// The walk over the bottom segments always emits something, and its
/// last segment ends at the depth the walk's final state reports.
pub proof fn lemma_pl_walk_last(
    st: EngineState,
    pr: EngineParams,
    env: Environment,
    segs: Seq<(Segment, Gas)>,
    i: int,
    ascent_rate: Rate,
    descent_rate: Rate,
    deco_gases: Seq<(Gas, Option<Depth>)>,
)
    requires
        0 <= i < segs.len(),
    ensures
        ({
            let r = pl_walk(st, pr, env, segs, i, ascent_rate, descent_rate, deco_gases);
            &&& r.0.len() >= 1
            &&& r.0.last().0.end_depth.0 as int == r.1.depth
            &&& 0 <= r.1.depth <= u32::MAX
        }),
    decreases segs.len() - i,
{
    let sg = segs[i].0;
    let g = segs[i].1;
    let st1 = st_apply(st, pr, env, sg, g);
    let end = if i + 1 < segs.len() {
        Some(segs[i + 1])
    } else {
        None
    };
    lemma_pl_level_last(
        st1,
        pr,
        env,
        sg,
        g,
        end,
        ascent_rate,
        descent_rate,
        deco_gases,
        SWITCH_FUEL as nat,
    );
    let leg = pl_level(
        st1,
        pr,
        env,
        sg,
        g,
        end,
        ascent_rate,
        descent_rate,
        deco_gases,
        SWITCH_FUEL as nat,
    );
    let emitted = seq![(sg, g)] + leg.0;
    if i + 1 < segs.len() {
        lemma_pl_walk_last(leg.1, pr, env, segs, i + 1, ascent_rate, descent_rate, deco_gases);
        let rest = pl_walk(leg.1, pr, env, segs, i + 1, ascent_rate, descent_rate, deco_gases);
        assert((emitted + rest.0).last() == rest.0.last());
    } else {
        let rest = pl_walk(leg.1, pr, env, segs, i + 1, ascent_rate, descent_rate, deco_gases);
        assert(rest.0.len() == 0);
        if leg.0.len() == 0 {
            assert((emitted + rest.0).last() == (sg, g));
        } else {
            assert((emitted + rest.0).last() == leg.0.last());
        }
    }
}

/// The plan's schedule is never empty and its final segment ends at the
/// surface.
pub proof fn lemma_pl_plan_surfaces(
    st0: EngineState,
    pr: EngineParams,
    env: Environment,
    segs: Seq<(Segment, Gas)>,
    deco_gases: Seq<(Gas, Option<Depth>)>,
    ascent_rate: Rate,
    descent_rate: Rate,
)
    requires
        segs.len() >= 1,
        0 <= st0.depth <= u32::MAX,
    ensures
        ({
            let r = pl_plan(st0, pr, env, segs, deco_gases, ascent_rate, descent_rate);
            &&& r.0.len() >= 1
            &&& r.0.last().0.end_depth.0 == 0
        }),
{
    let first = segs[0];
    let pre = if st0.depth != first.0.start_depth.0 {
        let rate = if st0.depth < first.0.start_depth.0 {
            descent_rate
        } else {
            ascent_rate
        };
        let seg = Segment {
            segment_type: SegmentType::AscDesc,
            start_depth: Depth(st0.depth as u32),
            end_depth: first.0.start_depth,
            time: spec_time_taken(rate.0 as int, st0.depth, first.0.start_depth.0 as int) as u64,
            ascent_rate,
            descent_rate,
        };
        (seq![(seg, first.1)], st_apply(st0, pr, env, seg, first.1))
    } else {
        (Seq::<(Segment, Gas)>::empty(), st0)
    };
    lemma_pl_walk_last(pre.1, pr, env, segs, 0, ascent_rate, descent_rate, deco_gases);
    let walked = pl_walk(pre.1, pr, env, segs, 0, ascent_rate, descent_rate, deco_gases);
    let mid = pre.0 + walked.0;
    assert(mid.last() == walked.0.last());
    if walked.1.depth != 0 {
    } else {
        assert(mid.last().0.end_depth.0 as int == 0);
    }
}

/// Gas consumed by the schedule on gas `g`: the sum over its segments
/// breathed on `g` of each one's consumption, priced at the deco rate
/// for stops and the bottom rate otherwise; no-deco segments stand for
/// remaining time and consume nothing.
pub open spec fn consumed_for(
    segs: Seq<(Segment, Gas)>,
    g: Gas,
    sac_bottom: int,
    sac_deco: int,
    env: Environment,
) -> int
    decreases segs.len(),
{
    if segs.len() == 0 {
        0
    } else {
        let hd = segs.last();
        let contribution = if hd.1 == g && !(hd.0.segment_type is NoDeco) {
            let sac = if hd.0.segment_type is DecoStop {
                sac_deco
            } else {
                sac_bottom
            };
            hd.0.spec_gas_consumed(sac, env)
        } else {
            0
        };
        consumed_for(segs.drop_last(), g, sac_bottom, sac_deco, env) + contribution
    }
}

/// Largest volume one valid segment can consume at any representable
/// consumption rate, in surface litres.
pub const MAX_SEGMENT_CONSUMPTION: u128 = 150_000_000_000_000_000;

/// One valid segment's gas consumption is nonnegative and bounded.
pub proof fn lemma_gas_consumed_bound(seg: Segment, sac: int, env: Environment)
    requires
        seg.valid(),
        env.valid(),
        0 <= sac <= u32::MAX,
    ensures
        0 <= seg.spec_gas_consumed(sac, env) <= MAX_SEGMENT_CONSUMPTION,
{
    let refd = seg.spec_reference_depth();
    assert(0 <= refd <= crate::units::MAX_DEPTH);
    let p = env.spec_pressure(refd);
    vstd::arithmetic::mul::lemma_mul_upper_bound(
        refd,
        crate::units::MAX_DEPTH as int,
        env.water_density.0 as int,
        20_000,
    );
    vstd::arithmetic::mul::lemma_mul_nonnegative(refd, env.water_density.0 as int);
    assert(0 < p <= 2_002_000_000_000);
    vstd::arithmetic::mul::lemma_mul_upper_bound(
        p,
        2_002_000_000_000,
        seg.time as int,
        crate::units::MAX_SEGMENT_SECONDS as int,
    );
    vstd::arithmetic::mul::lemma_mul_nonnegative(p, seg.time as int);
    vstd::arithmetic::mul::lemma_mul_upper_bound(
        p * seg.time,
        2_002_000_000_000 * crate::units::MAX_SEGMENT_SECONDS,
        sac,
        u32::MAX as int,
    );
    vstd::arithmetic::mul::lemma_mul_nonnegative(p * seg.time, sac);
    let x = p * seg.time * sac;
    vstd::arithmetic::div_mod::lemma_div_of0(60_000_000_000);
    vstd::arithmetic::div_mod::lemma_div_is_ordered(0, x, 60_000_000_000);
    vstd::arithmetic::div_mod::lemma_div_is_ordered(
        x,
        MAX_SEGMENT_CONSUMPTION as int * 60_000_000_000,
        60_000_000_000,
    );
    vstd::arithmetic::div_mod::lemma_div_multiples_vanish(
        MAX_SEGMENT_CONSUMPTION as int,
        60_000_000_000,
    );
}

/// Total consumption on one gas is nonnegative and bounded by the
/// number of segments.
pub proof fn lemma_consumed_for_bound(
    segs: Seq<(Segment, Gas)>,
    g: Gas,
    sac_bottom: int,
    sac_deco: int,
    env: Environment,
)
    requires
        forall|j: int| 0 <= j < segs.len() ==> (#[trigger] segs[j]).0.valid(),
        env.valid(),
        0 <= sac_bottom <= u32::MAX,
        0 <= sac_deco <= u32::MAX,
    ensures
        0 <= consumed_for(segs, g, sac_bottom, sac_deco, env) <= segs.len()
            * MAX_SEGMENT_CONSUMPTION,
    decreases segs.len(),
{
    if segs.len() > 0 {
        lemma_consumed_for_bound(segs.drop_last(), g, sac_bottom, sac_deco, env);
        let hd = segs.last();
        if hd.1 == g && !(hd.0.segment_type is NoDeco) {
            let sac = if hd.0.segment_type is DecoStop {
                sac_deco
            } else {
                sac_bottom
            };
            lemma_gas_consumed_bound(hd.0, sac, env);
        }
    }
}

/// Extending a schedule by one segment adds exactly that segment's
/// contribution.
pub proof fn lemma_consumed_extend(
    segs: Seq<(Segment, Gas)>,
    i: int,
    g: Gas,
    sac_bottom: int,
    sac_deco: int,
    env: Environment,
)
    requires
        0 <= i < segs.len(),
    ensures
        consumed_for(segs.subrange(0, i + 1), g, sac_bottom, sac_deco, env) == consumed_for(
            segs.subrange(0, i),
            g,
            sac_bottom,
            sac_deco,
            env,
        ) + if segs[i].1 == g && !(segs[i].0.segment_type is NoDeco) {
            segs[i].0.spec_gas_consumed(
                if segs[i].0.segment_type is DecoStop {
                    sac_deco
                } else {
                    sac_bottom
                },
                env,
            )
        } else {
            0
        },
{
    let t = segs.subrange(0, i + 1);
    assert(t.drop_last() =~= segs.subrange(0, i));
    assert(t.last() == segs[i]);
}

/// A gas breathed on no real segment of a schedule consumes nothing.
pub proof fn lemma_consumed_absent(
    segs: Seq<(Segment, Gas)>,
    g: Gas,
    sac_bottom: int,
    sac_deco: int,
    env: Environment,
)
    requires
        forall|j: int| 0 <= j < segs.len() && (#[trigger] segs[j]).1 == g ==> segs[j].0.segment_type
            is NoDeco,
    ensures
        consumed_for(segs, g, sac_bottom, sac_deco, env) == 0,
    decreases segs.len(),
{
    if segs.len() > 0 {
        assert(forall|j: int| 0 <= j < segs.drop_last().len() && (#[trigger] segs.drop_last()[j]).1
            == g ==> segs.drop_last()[j].0.segment_type is NoDeco);
        lemma_consumed_absent(segs.drop_last(), g, sac_bottom, sac_deco, env);
    }
}

} // verus!
