//! The open-circuit dive planner: walks the bottom segments, chooses
//! decompression gases, and produces the final schedule with per-gas
//! consumption.

use vstd::prelude::*;
use crate::engine::ZHL16;
use crate::environment::Environment;
use crate::gas::Gas;
use crate::model::{st_apply};
use crate::parameter::Parameters;
use crate::plan_model::{
    apply_all, apply_all_from, consumed_for, find_stop_at, has_deco_stop, lemma_consumed_absent,
    lemma_consumed_extend, lemma_gas_consumed_bound, lemma_pl_plan_surfaces,
    lemma_take_deeper_subrange, pl_best_from, pl_eligible, pl_level, pl_level_ascend, pl_plan,
    pl_switch_point, pl_walk, take_deeper, zip_gas, MAX_SEGMENT_CONSUMPTION, SWITCH_FUEL,
};
use crate::plan_result::PlanResult;
use crate::segment::{Segment, SegmentType};
use crate::tank::Tank;
use crate::units::{
    time_taken, Depth, GasConsumption, Pressure, MAX_DEPTH, PPO2_MAXIMUM_DECO, PPO2_MINIMUM,
};

verus! {

/// Failure of a planning request.
#[derive(Clone, Copy, Debug, PartialEq, Eq, Structural)]
pub enum PlanError {
    /// Backwards planning is declared but has no specification yet.
    NotImplemented,
}

/// Every gas of a deco-gas list is a well-formed mix.
pub open spec fn gases_valid(s: Seq<(Gas, Option<Depth>)>) -> bool {
    forall|i: int| 0 <= i < s.len() ==> (#[trigger] s[i]).0.valid()
}

/// Every entry of a schedule is a well-formed segment on a well-formed
/// mix.
pub open spec fn schedule_valid(s: Seq<(Segment, Gas)>) -> bool {
    forall|i: int| 0 <= i < s.len() ==> (#[trigger] s[i]).0.valid() && s[i].1.valid()
}

/// Whether `gas` may be breathed at a stop of depth `depth`.
fn gas_eligible(gas: &Gas, mod_depth: Option<Depth>, depth: Depth, environment: Environment) -> (r: bool)
    requires
        gas.valid(),
        environment.valid(),
        depth.0 <= MAX_DEPTH,
    ensures
        r == pl_eligible(*gas, mod_depth, depth.0 as int, environment),
{
    let mod_ok = match mod_depth {
        Some(m) => m.0 >= depth.0,
        None => gas.o2() == 0 || gas.max_operating_depth(
            Pressure(PPO2_MAXIMUM_DECO),
            environment,
        ).0 >= depth.0,
    };
    let ppo2_ok = gas.ppo2_in_range(
        depth,
        Pressure(PPO2_MINIMUM),
        Pressure(PPO2_MAXIMUM_DECO),
        environment,
    );
    let end_ok = gas.equivalent_narcotic_depth(depth).0 <= depth.0;
    mod_ok && ppo2_ok && end_ok
}

/// The best gas for a stop at `depth`: the eligible gas with the
/// highest ppO2 there, earliest listed winning ties.
fn best_gas(gases: &Vec<(Gas, Option<Depth>)>, depth: Depth, environment: Environment) -> (r: Option<Gas>)
    requires
        gases_valid(gases@),
        environment.valid(),
        depth.0 <= MAX_DEPTH,
    ensures
        r == pl_best_from(gases@, depth.0 as int, environment, 0),
        r matches Some(g) ==> g.valid(),
{
    let ghost all = gases@;
    let mut i: usize = gases.len();
    let mut cur: Option<Gas> = None;
    while i > 0
        invariant
            0 <= i <= gases@.len(),
            gases@ == all,
            gases_valid(all),
            environment.valid(),
            depth.0 <= MAX_DEPTH,
            cur == pl_best_from(all, depth.0 as int, environment, i as int),
            cur matches Some(g) ==> g.valid(),
        decreases i,
    {
        i = i - 1;
        let pair = gases[i];
        if gas_eligible(&pair.0, pair.1, depth, environment) {
            match cur {
                None => {
                    cur = Some(pair.0);
                },
                Some(b) => {
                    let pb = b.pp_o2(depth, environment);
                    let pg = pair.0.pp_o2(depth, environment);
                    if pb.0 > pg.0 {
                    } else {
                        cur = Some(pair.0);
                    }
                },
            }
        }
    }
    cur
}

/// The first stop, skipping depth changes, whose best gas differs from
/// the current one.
fn find_gas_switch_point(
    stops: &Vec<Segment>,
    current: &Gas,
    avail: &Vec<(Gas, Option<Depth>)>,
    environment: Environment,
) -> (r: Option<(Segment, Gas)>)
    requires
        forall|j: int| 0 <= j < stops@.len() ==> (#[trigger] stops@[j]).valid(),
        gases_valid(avail@),
        environment.valid(),
    ensures
        r == pl_switch_point(stops@, *current, avail@, environment, 0),
        r matches Some(p) ==> p.0.valid() && !(p.0.segment_type is AscDesc) && p.1.valid(),
{
    let mut j: usize = 0;
    while j < stops.len()
        invariant
            0 <= j <= stops@.len(),
            forall|k: int| 0 <= k < stops@.len() ==> (#[trigger] stops@[k]).valid(),
            gases_valid(avail@),
            environment.valid(),
            pl_switch_point(stops@, *current, avail@, environment, 0) == pl_switch_point(
                stops@,
                *current,
                avail@,
                environment,
                j as int,
            ),
        decreases stops@.len() - j,
    {
        let s = stops[j];
        if !matches!(s.segment_type, SegmentType::AscDesc) {
            let best = best_gas(avail, s.start_depth, environment);
            if let Some(b) = best {
                if !(b == *current) {
                    return Some((s, b));
                }
            }
        }
        j = j + 1;
    }
    None
}

/// The longest prefix of `stops` starting deeper than `target`.
fn keep_deeper(stops: &Vec<Segment>, target: u32) -> (r: Vec<Segment>)
    requires
        forall|j: int| 0 <= j < stops@.len() ==> (#[trigger] stops@[j]).valid(),
    ensures
        r@ == take_deeper(stops@, target as int),
        forall|j: int| 0 <= j < r@.len() ==> (#[trigger] r@[j]).valid(),
{
    let mut out: Vec<Segment> = Vec::new();
    let mut j: usize = 0;
    loop
        invariant_except_break
            0 <= j <= stops@.len(),
            forall|k: int| 0 <= k < stops@.len() ==> (#[trigger] stops@[k]).valid(),
            forall|k: int| 0 <= k < j ==> (#[trigger] stops@[k]).start_depth.0 > target,
            out@ == stops@.subrange(0, j as int),
        ensures
            0 <= j <= stops@.len(),
            forall|k: int| 0 <= k < j ==> (#[trigger] stops@[k]).start_depth.0 > target,
            j == stops@.len() || !(stops@[j as int].start_depth.0 > target),
            out@ == stops@.subrange(0, j as int),
        decreases stops@.len() - j,
    {
        if j >= stops.len() {
            break;
        }
        let s = stops[j];
        if s.start_depth.0 > target {
            out.push(s);
            proof {
                assert(out@ =~= stops@.subrange(0, j + 1));
            }
            j = j + 1;
        } else {
            break;
        }
    }
    proof {
        lemma_take_deeper_subrange(stops@, target as int, 0, j as int);
    }
    out
}

/// Whether any segment of `stops` is a decompression stop.
fn contains_deco_stop(stops: &Vec<Segment>) -> (r: bool)
    ensures
        r == has_deco_stop(stops@),
{
    let mut j: usize = 0;
    while j < stops.len()
        invariant
            0 <= j <= stops@.len(),
            forall|k: int| 0 <= k < j ==> !((#[trigger] stops@[k]).segment_type is DecoStop),
        decreases stops@.len() - j,
    {
        if matches!(stops[j].segment_type, SegmentType::DecoStop) {
            return true;
        }
        j = j + 1;
    }
    false
}

/// The first decompression stop of `stops` at exactly `depth`.
fn stop_at_depth(stops: &Vec<Segment>, depth: u32) -> (r: Option<Segment>)
    requires
        forall|j: int| 0 <= j < stops@.len() ==> (#[trigger] stops@[j]).valid(),
    ensures
        r == find_stop_at(stops@, depth as int, 0),
        r matches Some(s) ==> s.valid(),
{
    let mut j: usize = 0;
    while j < stops.len()
        invariant
            0 <= j <= stops@.len(),
            forall|k: int| 0 <= k < stops@.len() ==> (#[trigger] stops@[k]).valid(),
            find_stop_at(stops@, depth as int, 0) == find_stop_at(stops@, depth as int, j as int),
        decreases stops@.len() - j,
    {
        let s = stops[j];
        if matches!(s.segment_type, SegmentType::DecoStop) && s.start_depth.0 == depth {
            return Some(s);
        }
        j = j + 1;
    }
    None
}

/// Applies a run of segments on one gas; no-deco segments stand for
/// remaining time and are not applied.
fn apply_run(model: ZHL16, segs: &Vec<Segment>, gas: &Gas, environment: Environment) -> (r: ZHL16)
    requires
        model.valid(),
        gas.valid(),
        environment.valid(),
        forall|j: int| 0 <= j < segs@.len() ==> (#[trigger] segs@[j]).valid(),
    ensures
        r.state_of() == apply_all(model.state_of(), model.params_of(), environment, segs@, *gas),
        r.valid(),
        r.params_of() == model.params_of(),
        r.tissue_constants == model.tissue_constants,
        r.gf == model.gf,
{
    let ghost pr = model.params_of();
    let ghost full = apply_all(model.state_of(), pr, environment, segs@, *gas);
    let mut m = model;
    let mut j: usize = 0;
    while j < segs.len()
        invariant
            0 <= j <= segs@.len(),
            m.valid(),
            gas.valid(),
            environment.valid(),
            forall|k: int| 0 <= k < segs@.len() ==> (#[trigger] segs@[k]).valid(),
            m.params_of() == pr,
            m.tissue_constants == model.tissue_constants,
            m.gf == model.gf,
            full == apply_all_from(m.state_of(), pr, environment, segs@, *gas, j as int),
        decreases segs@.len() - j,
    {
        let s = segs[j];
        if !matches!(s.segment_type, SegmentType::NoDeco) {
            let ghost before = m.state_of();
            m = m.add_segment(&s, gas, environment);
            proof {
                assert(m.state_of() == st_apply(before, pr, environment, s, *gas));
            }
        }
        j = j + 1;
    }
    m
}

/// Copies a deco-gas list.
fn copy_gases(src: &Vec<(Gas, Option<Depth>)>) -> (r: Vec<(Gas, Option<Depth>)>)
    ensures
        r@ == src@,
{
    let mut out: Vec<(Gas, Option<Depth>)> = Vec::new();
    let mut j: usize = 0;
    while j < src.len()
        invariant
            0 <= j <= src@.len(),
            out@ == src@.subrange(0, j as int),
        decreases src@.len() - j,
    {
        out.push(src[j]);
        proof {
            assert(out@ =~= src@.subrange(0, j + 1));
        }
        j = j + 1;
    }
    proof {
        assert(out@ =~= src@);
    }
    out
}

/// Appends a run of segments, each paired with `gas`.
fn push_zip(dest: &mut Vec<(Segment, Gas)>, segs: &Vec<Segment>, gas: Gas)
    ensures
        final(dest)@ == old(dest)@ + zip_gas(segs@, gas),
{
    let mut j: usize = 0;
    while j < segs.len()
        invariant
            0 <= j <= segs@.len(),
            dest@ == old(dest)@ + zip_gas(segs@.subrange(0, j as int), gas),
        decreases segs@.len() - j,
    {
        dest.push((segs[j], gas));
        proof {
            assert(dest@ =~= old(dest)@ + zip_gas(segs@.subrange(0, j + 1), gas));
        }
        j = j + 1;
    }
    proof {
        assert(segs@.subrange(0, segs@.len() as int) =~= segs@);
    }
}

/// The index of `g` among the keys of a consumption table.
fn find_gas(out: &Vec<(Gas, GasConsumption)>, g: &Gas) -> (r: Option<usize>)
    ensures
        r matches Some(k) ==> k < out@.len() && out@[k as int].0 == *g,
        r is None ==> forall|k: int| 0 <= k < out@.len() ==> (#[trigger] out@[k]).0 != *g,
{
    let mut k: usize = 0;
    while k < out.len()
        invariant
            0 <= k <= out@.len(),
            forall|m: int| 0 <= m < k ==> (#[trigger] out@[m]).0 != *g,
        decreases out@.len() - k,
    {
        if out[k].0 == *g {
            return Some(k);
        }
        k = k + 1;
    }
    None
}

/// Appends one schedule to another.
fn append_pairs(dest: &mut Vec<(Segment, Gas)>, src: &Vec<(Segment, Gas)>)
    ensures
        final(dest)@ == old(dest)@ + src@,
{
    let mut j: usize = 0;
    while j < src.len()
        invariant
            0 <= j <= src@.len(),
            dest@ == old(dest)@ + src@.subrange(0, j as int),
        decreases src@.len() - j,
    {
        dest.push(src[j]);
        proof {
            assert(dest@ =~= old(dest)@ + src@.subrange(0, j + 1));
        }
        j = j + 1;
    }
    proof {
        assert(old(dest)@ + src@.subrange(0, src@.len() as int) =~= old(dest)@ + src@);
    }
}

/// Sums the schedule's consumption into a table keyed by gas: bottom
/// rate for travel and bottom time, deco rate for stops, nothing for
/// no-deco segments.
fn tally(
    segments: &Vec<(Segment, Gas)>,
    sac_bottom: u32,
    sac_deco: u32,
    environment: Environment,
) -> (r: Vec<(Gas, GasConsumption)>)
    requires
        schedule_valid(segments@),
        environment.valid(),
    ensures
        forall|j: int| 0 <= j < r@.len() ==> (#[trigger] r@[j]).1.0 == consumed_for(
            segments@,
            r@[j].0,
            sac_bottom as int,
            sac_deco as int,
            environment,
        ),
        forall|j: int, k: int| 0 <= j < k < r@.len() ==> r@[j].0 != r@[k].0,
        forall|j: int|
            0 <= j < segments@.len() && !((#[trigger] segments@[j]).0.segment_type is NoDeco)
                ==> exists|k: int| 0 <= k < r@.len() && (#[trigger] r@[k]).0 == segments@[j].1,
{
    let ghost all = segments@;
    let mut out: Vec<(Gas, GasConsumption)> = Vec::new();
    let mut i: usize = 0;
    while i < segments.len()
        invariant
            0 <= i <= all.len(),
            segments@ == all,
            schedule_valid(all),
            environment.valid(),
            forall|j: int| 0 <= j < out@.len() ==> (#[trigger] out@[j]).1.0 == consumed_for(
                all.subrange(0, i as int),
                out@[j].0,
                sac_bottom as int,
                sac_deco as int,
                environment,
            ),
            forall|j: int| 0 <= j < out@.len() ==> (#[trigger] out@[j]).1.0 <= (i as int)
                * MAX_SEGMENT_CONSUMPTION,
            forall|j: int, k: int| 0 <= j < k < out@.len() ==> out@[j].0 != out@[k].0,
            forall|j: int|
                0 <= j < i && !((#[trigger] all[j]).0.segment_type is NoDeco) ==> exists|k: int|
                    0 <= k < out@.len() && (#[trigger] out@[k]).0 == all[j].1,
        decreases all.len() - i,
    {
        let pair = segments[i];
        let ghost prev = out@;
        if !matches!(pair.0.segment_type, SegmentType::NoDeco) {
            let sac = if matches!(pair.0.segment_type, SegmentType::DecoStop) {
                sac_deco
            } else {
                sac_bottom
            };
            let c = pair.0.gas_consumed(sac, environment);
            proof {
                lemma_gas_consumed_bound(pair.0, sac as int, environment);
            }
            match find_gas(&out, &pair.1) {
                Some(k) => {
                    let cur = out[k];
                    proof {
                        assert((i as int) * MAX_SEGMENT_CONSUMPTION + MAX_SEGMENT_CONSUMPTION
                            == (i + 1) as int * MAX_SEGMENT_CONSUMPTION) by (nonlinear_arith);
                        assert((i + 1) as int * MAX_SEGMENT_CONSUMPTION <= (
                        0x1_0000_0000_0000_0000int) * MAX_SEGMENT_CONSUMPTION)
                            by (nonlinear_arith)
                            requires
                                i + 1 <= 0x1_0000_0000_0000_0000int,
                        ;
                    }
                    out.set(k, (cur.0, GasConsumption(cur.1.0 + c.0)));
                    proof {
                        assert(out@[k as int].0 == pair.1);
                        assert(forall|m: int| 0 <= m < prev.len() ==> (#[trigger] out@[m]).0
                            == prev[m].0);
                    }
                },
                None => {
                    proof {
                        assert forall|j: int|
                            0 <= j < all.subrange(0, i as int).len() && (#[trigger] all.subrange(
                                0,
                                i as int,
                            )[j]).1 == pair.1 implies all.subrange(0, i as int)[j].0.segment_type
                            is NoDeco by {
                            if !(all[j].0.segment_type is NoDeco) {
                                assert(exists|k: int| 0 <= k < prev.len() && (#[trigger] prev[k]).0
                                    == all[j].1);
                            }
                        }
                        lemma_consumed_absent(
                            all.subrange(0, i as int),
                            pair.1,
                            sac_bottom as int,
                            sac_deco as int,
                            environment,
                        );
                    }
                    out.push((pair.1, c));
                    proof {
                        assert(out@[out@.len() - 1].0 == pair.1);
                        assert(forall|m: int| 0 <= m < prev.len() ==> (#[trigger] out@[m]).0
                            == prev[m].0);
                    }
                },
            }
        }
        proof {
            assert forall|j: int|
                0 <= j < i + 1 && !((#[trigger] all[j]).0.segment_type is NoDeco) implies (exists|k: int|
                0 <= k < out@.len() && (#[trigger] out@[k]).0 == all[j].1) by {
                if j < i {
                    let k0 = choose|k: int| 0 <= k < prev.len() && (#[trigger] prev[k]).0
                        == all[j].1;
                    assert(out@[k0].0 == all[j].1);
                } else {
                    assert(!(all[i as int].0.segment_type is NoDeco));
                    let k1 = choose|k: int| 0 <= k < out@.len() && (#[trigger] out@[k]).0
                        == all[i as int].1;
                    assert(out@[k1].0 == all[j].1);
                }
            }
            assert forall|j: int| 0 <= j < out@.len() implies (#[trigger] out@[j]).1.0 <= ((i
                + 1) as int) * MAX_SEGMENT_CONSUMPTION by {
                assert((i as int) * MAX_SEGMENT_CONSUMPTION + MAX_SEGMENT_CONSUMPTION == ((i
                    + 1) as int) * MAX_SEGMENT_CONSUMPTION) by (nonlinear_arith);
            }
        }
        proof {
            assert forall|j: int| 0 <= j < out@.len() implies (#[trigger] out@[j]).1.0
                == consumed_for(
                all.subrange(0, i + 1),
                out@[j].0,
                sac_bottom as int,
                sac_deco as int,
                environment,
            ) by {
                lemma_consumed_extend(
                    all,
                    i as int,
                    out@[j].0,
                    sac_bottom as int,
                    sac_deco as int,
                    environment,
                );
            }
        }
        i = i + 1;
    }
    proof {
        assert(all.subrange(0, all.len() as int) =~= all);
    }
    out
}

/// A borrowed end segment as the spec-level pair it stands for.
pub open spec fn opt_pair(end: Option<&(Segment, Gas)>) -> Option<(Segment, Gas)> {
    match end {
        Some(e) => Some(*e),
        None => None,
    }
}

/// An open-circuit dive plan: the engine, the bottom segments with
/// their gases, the available decompression gases with optional maximum
/// operating depths, and the fixed parameters.
#[derive(Clone, Debug)]
pub struct OpenCircuit {
    pub deco: ZHL16,
    pub bottom_segments: Vec<(Segment, Gas)>,
    pub deco_gases: Vec<(Gas, Option<Depth>)>,
    pub parameters: Parameters,
}

impl OpenCircuit {
    /// What every plan a caller can run looks like.
    pub open spec fn valid(self) -> bool {
        &&& self.deco.valid()
        &&& self.parameters.valid()
        &&& self.bottom_segments@.len() >= 1
        &&& schedule_valid(self.bottom_segments@)
        &&& gases_valid(self.deco_gases@)
    }

    /// Returns a plan over the given engine, bottom segments, deco
    /// gases and parameters.
    pub fn new(
        deco: ZHL16,
        bottom_segments: Vec<(Segment, Gas)>,
        deco_gases: Vec<(Gas, Option<Depth>)>,
        parameters: Parameters,
    ) -> (r: Self)
        requires
            deco.valid(),
            parameters.valid(),
            bottom_segments@.len() >= 1,
            schedule_valid(bottom_segments@),
            gases_valid(deco_gases@),
        ensures
            r.deco == deco,
            r.bottom_segments == bottom_segments,
            r.deco_gases == deco_gases,
            r.parameters == parameters,
            r.valid(),
    {
        Self { deco, bottom_segments, deco_gases, parameters }
    }

    /// One leg of the plan: emits into `stops_performed` the
    /// decompression and depth-change segments between the end of
    /// `start` and the start of `end` (or the surface), committing each
    /// to the running model, and returns the advanced model.
    #[verifier::rlimit(80)]
    fn level_to_level(
        &self,
        running: ZHL16,
        start: &(Segment, Gas),
        end: Option<&(Segment, Gas)>,
        stops_performed: &mut Vec<(Segment, Gas)>,
    ) -> (r: ZHL16)
        requires
            running.valid(),
            self.parameters.valid(),
            start.0.valid(),
            start.1.valid(),
            opt_pair(end) matches Some(e) ==> e.0.valid() && e.1.valid(),
            gases_valid(self.deco_gases@),
        ensures
            ({
                let leg = pl_level(
                    running.state_of(),
                    running.params_of(),
                    self.parameters.environment,
                    start.0,
                    start.1,
                    opt_pair(end),
                    self.parameters.ascent_rate,
                    self.parameters.descent_rate,
                    self.deco_gases@,
                    SWITCH_FUEL as nat,
                );
                final(stops_performed)@ == old(stops_performed)@ + leg.0 && r.state_of() == leg.1
            }),
            forall|j: int|
                old(stops_performed)@.len() <= j < final(stops_performed)@.len()
                    ==> (#[trigger] final(stops_performed)@[j]).0.valid()
                    && final(stops_performed)@[j].1.valid(),
            r.valid(),
            r.params_of() == running.params_of(),
            r.tissue_constants == running.tissue_constants,
            r.gf == running.gf,
    {
        let environment = self.parameters.environment();
        let ascent_rate = self.parameters.ascent_rate();
        let descent_rate = self.parameters.descent_rate();
        let ghost pr = running.params_of();
        let ghost full = pl_level(
            running.state_of(),
            pr,
            environment,
            start.0,
            start.1,
            opt_pair(end),
            ascent_rate,
            descent_rate,
            self.deco_gases@,
            SWITCH_FUEL as nat,
        );
        let ghost prefix_len = stops_performed@.len();
        let ghost tc0 = running.tissue_constants;
        let ghost gf0 = running.gf;
        let mut running = running;
        let mut cur_seg: Segment = start.0;
        let mut cur_gas: Gas = start.1;
        let mut fuel: u64 = SWITCH_FUEL;
        loop
            invariant_except_break
                self.parameters.valid(),
                environment == self.parameters.environment,
                ascent_rate == self.parameters.ascent_rate,
                descent_rate == self.parameters.descent_rate,
                gases_valid(self.deco_gases@),
                opt_pair(end) matches Some(e) ==> e.0.valid() && e.1.valid(),
                running.valid(),
                running.params_of() == pr,
                running.tissue_constants == tc0,
                running.gf == gf0,
                cur_seg.valid(),
                cur_gas.valid(),
                0 <= fuel <= SWITCH_FUEL,
                prefix_len <= stops_performed@.len(),
                stops_performed@.subrange(0, prefix_len as int) == old(stops_performed)@,
                forall|j: int|
                    prefix_len <= j < stops_performed@.len()
                        ==> (#[trigger] stops_performed@[j]).0.valid()
                        && stops_performed@[j].1.valid(),
                ({
                    let leg = pl_level(
                        running.state_of(),
                        pr,
                        environment,
                        cur_seg,
                        cur_gas,
                        opt_pair(end),
                        ascent_rate,
                        descent_rate,
                        self.deco_gases@,
                        fuel as nat,
                    );
                    full.0 == stops_performed@.subrange(
                        prefix_len as int,
                        stops_performed@.len() as int,
                    ) + leg.0 && full.1 == leg.1
                }),
            ensures
                stops_performed@ == old(stops_performed)@ + full.0,
                forall|j: int|
                    prefix_len <= j < stops_performed@.len()
                        ==> (#[trigger] stops_performed@[j]).0.valid()
                        && stops_performed@[j].1.valid(),
                running.state_of() == full.1,
                running.valid(),
                running.params_of() == pr,
                running.tissue_constants == tc0,
                running.gf == gf0,
            decreases fuel,
        {
            let ghost entry = running.state_of();
            let ghost leg_here = pl_level(
                entry,
                pr,
                environment,
                cur_seg,
                cur_gas,
                opt_pair(end),
                ascent_rate,
                descent_rate,
                self.deco_gases@,
                fuel as nat,
            );
            if let Some(e) = end {
                if cur_seg.end_depth.0 < e.0.start_depth.0 {
                    let t = time_taken(descent_rate, cur_seg.end_depth, e.0.start_depth);
                    let descent = Segment {
                        segment_type: SegmentType::AscDesc,
                        start_depth: cur_seg.end_depth,
                        end_depth: e.0.start_depth,
                        time: t,
                        ascent_rate,
                        descent_rate,
                    };
                    running = running.add_segment(&descent, &cur_gas, environment);
                    stops_performed.push((descent, cur_gas));
                    proof {
                        assert(running.state_of() == st_apply(
                            entry,
                            pr,
                            environment,
                            descent,
                            cur_gas,
                        ));
                        assert(leg_here.0 =~= seq![(descent, cur_gas)]);
                        assert(stops_performed@.subrange(
                            prefix_len as int,
                            stops_performed@.len() as int,
                        ) =~= full.0);
                        assert(stops_performed@ =~= old(stops_performed)@ + full.0);
                    }
                    break;
                } else if cur_seg.end_depth.0 == e.0.start_depth.0 {
                    proof {
                        assert(stops_performed@ =~= old(stops_performed)@ + full.0);
                    }
                    break;
                }
            }
            let target: u32 = match end {
                Some(e) => e.0.start_depth.0,
                None => 0,
            };
            let full_stops = running.get_stops(ascent_rate, descent_rate, &cur_gas, environment);
            let stops = keep_deeper(&full_stops, target);
            let avail: Vec<(Gas, Option<Depth>)> = match end {
                Some(e) => {
                    let mut v: Vec<(Gas, Option<Depth>)> = Vec::new();
                    v.push((cur_gas, None));
                    v.push((e.1, None));
                    v
                },
                None => copy_gases(&self.deco_gases),
            };
            let ghost stops_spec = take_deeper(
                crate::model::st_surface(
                    entry,
                    pr,
                    environment,
                    cur_gas,
                    ascent_rate,
                    descent_rate,
                ).0,
                target as int,
            );
            proof {
                if end is Some {
                    assert(avail@ =~= seq![
                        (cur_gas, None::<Depth>),
                        (opt_pair(end).unwrap().1, None::<Depth>),
                    ]);
                }
                assert(stops@ == stops_spec);
                assert(leg_here == pl_level_ascend(
                    entry,
                    pr,
                    environment,
                    cur_gas,
                    opt_pair(end),
                    target as int,
                    avail@,
                    ascent_rate,
                    descent_rate,
                    self.deco_gases@,
                    fuel as nat,
                ));
            }
            let sw = find_gas_switch_point(&stops, &cur_gas, &avail, environment);
            let mut switched = false;
            if let Some(p) = sw {
                let has = contains_deco_stop(&stops);
                if has && fuel >= 1 {
                    switched = true;
                    let ghost old_gas = cur_gas;
                    let ghost old_mid_len = stops_performed@.len();
                    let replay = keep_deeper(&stops, p.0.start_depth.0);
                    running = apply_run(running, &replay, &cur_gas, environment);
                    push_zip(stops_performed, &replay, cur_gas);
                    let ghost st1 = running.state_of();
                    let new_stops = running.get_stops(
                        ascent_rate,
                        descent_rate,
                        &p.1,
                        environment,
                    );
                    let new_stop = match stop_at_depth(&new_stops, p.0.start_depth.0) {
                        Some(ns) => ns,
                        None => Segment {
                            segment_type: SegmentType::DecoStop,
                            start_depth: p.0.start_depth,
                            end_depth: p.0.end_depth,
                            time: 60,
                            ascent_rate,
                            descent_rate,
                        },
                    };
                    running = running.add_segment(&new_stop, &p.1, environment);
                    stops_performed.push((new_stop, p.1));
                    cur_seg = new_stop;
                    cur_gas = p.1;
                    fuel = fuel - 1;
                    proof {
                        let replay_spec = take_deeper(stops_spec, p.0.start_depth.0 as int);
                        assert(replay@ == replay_spec);
                        assert(st1 == apply_all(entry, pr, environment, replay_spec, old_gas));
                        assert(running.state_of() == st_apply(st1, pr, environment, new_stop, p.1));
                        let rest = pl_level(
                            running.state_of(),
                            pr,
                            environment,
                            new_stop,
                            p.1,
                            opt_pair(end),
                            ascent_rate,
                            descent_rate,
                            self.deco_gases@,
                            fuel as nat,
                        );
                        assert(leg_here.0 == zip_gas(replay_spec, old_gas) + seq![
                            (new_stop, p.1),
                        ] + rest.0 && leg_here.1 == rest.1);
                        assert(stops_performed@.subrange(
                            prefix_len as int,
                            stops_performed@.len() as int,
                        ) =~= stops_performed@.subrange(prefix_len as int, old_mid_len as int)
                            + zip_gas(replay_spec, old_gas) + seq![(new_stop, p.1)]);
                        assert(full.0 =~= stops_performed@.subrange(
                            prefix_len as int,
                            stops_performed@.len() as int,
                        ) + rest.0);
                        assert(stops_performed@.subrange(0, prefix_len as int) =~= old(
                            stops_performed,
                        )@);
                    }
                }
            }
            if !switched {
                running = apply_run(running, &stops, &cur_gas, environment);
                push_zip(stops_performed, &stops, cur_gas);
                proof {
                    assert(leg_here.0 == zip_gas(stops_spec, cur_gas) && leg_here.1 == apply_all(
                        entry,
                        pr,
                        environment,
                        stops_spec,
                        cur_gas,
                    ));
                    assert(stops_performed@.subrange(
                        prefix_len as int,
                        stops_performed@.len() as int,
                    ) =~= full.0);
                    assert(stops_performed@ =~= old(stops_performed)@ + full.0);
                }
                break;
            }
        }
        running
    }

    /// Runs the plan: descend or ascend to the first bottom segment,
    /// walk the bottom segments with a decompression leg after each,
    /// ascend to the surface, and sum the gas used.  The returned
    /// schedule always ends at depth zero.
    #[verifier::rlimit(80)]
    pub fn plan(self) -> (r: PlanResult)
        requires
            self.valid(),
        ensures
            ({
                let out = pl_plan(
                    self.deco.state_of(),
                    self.deco.params_of(),
                    self.parameters.environment,
                    self.bottom_segments@,
                    self.deco_gases@,
                    self.parameters.ascent_rate,
                    self.parameters.descent_rate,
                );
                &&& r.segments@ == out.0
                &&& r.end_tissue.n2() == out.1.n2
                &&& r.end_tissue.he() == out.1.he
            }),
            r.segments@.len() >= 1,
            r.segments@.last().0.end_depth.0 == 0,
            schedule_valid(r.segments@),
            r.end_tissue.valid(),
            forall|j: int| 0 <= j < r.gas_used@.len() ==> (#[trigger] r.gas_used@[j]).1.0
                == consumed_for(
                r.segments@,
                r.gas_used@[j].0,
                self.parameters.sac_bottom as int,
                self.parameters.sac_deco as int,
                self.parameters.environment,
            ),
            forall|j: int, k: int| 0 <= j < k < r.gas_used@.len() ==> r.gas_used@[j].0
                != r.gas_used@[k].0,
            forall|j: int|
                0 <= j < r.segments@.len() && !((#[trigger] r.segments@[j]).0.segment_type
                    is NoDeco) ==> exists|k: int|
                    0 <= k < r.gas_used@.len() && (#[trigger] r.gas_used@[k]).0
                        == r.segments@[j].1,
    {
        let environment = self.parameters.environment();
        let ascent_rate = self.parameters.ascent_rate();
        let descent_rate = self.parameters.descent_rate();
        let ghost st0 = self.deco.state_of();
        let ghost pr = self.deco.params_of();
        let ghost out_spec = pl_plan(
            st0,
            pr,
            environment,
            self.bottom_segments@,
            self.deco_gases@,
            ascent_rate,
            descent_rate,
        );
        proof {
            lemma_pl_plan_surfaces(
                st0,
                pr,
                environment,
                self.bottom_segments@,
                self.deco_gases@,
                ascent_rate,
                descent_rate,
            );
        }
        let mut deco = self.deco;
        let mut segments: Vec<(Segment, Gas)> = Vec::new();
        let first = self.bottom_segments[0];
        if deco.model_depth().0 != first.0.start_depth.0 {
            let rate = if deco.model_depth().0 < first.0.start_depth.0 {
                descent_rate
            } else {
                ascent_rate
            };
            let t = time_taken(rate, deco.model_depth(), first.0.start_depth);
            let seg = Segment {
                segment_type: SegmentType::AscDesc,
                start_depth: deco.model_depth(),
                end_depth: first.0.start_depth,
                time: t,
                ascent_rate,
                descent_rate,
            };
            deco = deco.add_segment(&seg, &first.1, environment);
            segments.push((seg, first.1));
            proof {
                assert(deco.state_of() == st_apply(st0, pr, environment, seg, first.1));
            }
        }
        let ghost pre_seq = segments@;
        let ghost mid0 = segments@.len();
        let ghost walk_entry = deco.state_of();
        let ghost walk_full = pl_walk(
            deco.state_of(),
            pr,
            environment,
            self.bottom_segments@,
            0,
            ascent_rate,
            descent_rate,
            self.deco_gases@,
        );
        let mut i: usize = 0;
        while i < self.bottom_segments.len()
            invariant
                self.valid(),
                environment == self.parameters.environment,
                ascent_rate == self.parameters.ascent_rate,
                descent_rate == self.parameters.descent_rate,
                pr == self.deco.params_of(),
                0 <= i <= self.bottom_segments@.len(),
                deco.valid(),
                deco.params_of() == pr,
                mid0 == pre_seq.len() && mid0 <= segments@.len(),
                segments@.subrange(0, mid0 as int) == pre_seq,
                schedule_valid(segments@),
                walk_full.0 == segments@.subrange(mid0 as int, segments@.len() as int) + pl_walk(
                    deco.state_of(),
                    pr,
                    environment,
                    self.bottom_segments@,
                    i as int,
                    ascent_rate,
                    descent_rate,
                    self.deco_gases@,
                ).0,
                walk_full.1 == pl_walk(
                    deco.state_of(),
                    pr,
                    environment,
                    self.bottom_segments@,
                    i as int,
                    ascent_rate,
                    descent_rate,
                    self.deco_gases@,
                ).1,
            decreases self.bottom_segments@.len() - i,
        {
            let ghost entry = deco.state_of();
            let ghost walk_here = pl_walk(
                entry,
                pr,
                environment,
                self.bottom_segments@,
                i as int,
                ascent_rate,
                descent_rate,
                self.deco_gases@,
            );
            let pair = self.bottom_segments[i];
            deco = deco.add_segment(&pair.0, &pair.1, environment);
            segments.push(pair);
            proof {
                assert(deco.state_of() == st_apply(entry, pr, environment, pair.0, pair.1));
            }
            let mut leg_stops: Vec<(Segment, Gas)> = Vec::new();
            if i + 1 < self.bottom_segments.len() {
                let endp = self.bottom_segments[i + 1];
                proof {
                    assert(endp == self.bottom_segments@[i + 1]);
                }
                deco = self.level_to_level(deco, &pair, Some(&endp), &mut leg_stops);
            } else {
                deco = self.level_to_level(deco, &pair, None, &mut leg_stops);
            }
            append_pairs(&mut segments, &leg_stops);
            i = i + 1;
            proof {
                let leg = pl_level(
                    st_apply(entry, pr, environment, pair.0, pair.1),
                    pr,
                    environment,
                    pair.0,
                    pair.1,
                    if i < self.bottom_segments@.len() {
                        Some(self.bottom_segments@[i as int])
                    } else {
                        None
                    },
                    ascent_rate,
                    descent_rate,
                    self.deco_gases@,
                    SWITCH_FUEL as nat,
                );
                assert(leg_stops@ == leg.0);
                assert(walk_here.0 =~= seq![pair] + leg.0 + pl_walk(
                    deco.state_of(),
                    pr,
                    environment,
                    self.bottom_segments@,
                    i as int,
                    ascent_rate,
                    descent_rate,
                    self.deco_gases@,
                ).0);
                assert(segments@.subrange(0, mid0 as int) =~= pre_seq);
                assert(walk_full.0 =~= segments@.subrange(mid0 as int, segments@.len() as int)
                    + pl_walk(
                    deco.state_of(),
                    pr,
                    environment,
                    self.bottom_segments@,
                    i as int,
                    ascent_rate,
                    descent_rate,
                    self.deco_gases@,
                ).0);
            }
        }
        proof {
            assert(pl_walk(
                deco.state_of(),
                pr,
                environment,
                self.bottom_segments@,
                self.bottom_segments@.len() as int,
                ascent_rate,
                descent_rate,
                self.deco_gases@,
            ).0 =~= Seq::<(Segment, Gas)>::empty());
            assert(segments@ =~= pre_seq + walk_full.0);
            assert(deco.state_of() == walk_full.1);
            crate::plan_model::lemma_pl_walk_last(
                walk_entry,
                pr,
                environment,
                self.bottom_segments@,
                0,
                ascent_rate,
                descent_rate,
                self.deco_gases@,
            );
        }
        if deco.model_depth().0 != 0 {
            let last_gas = segments[segments.len() - 1].1;
            let t = time_taken(ascent_rate, deco.model_depth(), Depth(0));
            let fin = Segment {
                segment_type: SegmentType::AscDesc,
                start_depth: deco.model_depth(),
                end_depth: Depth(0),
                time: t,
                ascent_rate,
                descent_rate,
            };
            let ghost before = deco.state_of();
            deco = deco.add_segment(&fin, &last_gas, environment);
            segments.push((fin, last_gas));
            proof {
                assert(deco.state_of() == st_apply(before, pr, environment, fin, last_gas));
            }
        }
        let gas_used = tally(
            &segments,
            self.parameters.sac_bottom(),
            self.parameters.sac_deco(),
            environment,
        );
        PlanResult::new(deco.tissue(), segments, gas_used)
    }

    /// Backwards planning - given the tanks, how much of the dive is
    /// feasible - is declared but unspecified; it always reports so.
    pub fn plan_backwards(&self, tanks: &Vec<Tank>) -> (r: Result<PlanResult, PlanError>)
        ensures
            r matches Err(e) ==> e == PlanError::NotImplemented,
            r is Err,
    {
        let _ = tanks.len();
        Err(PlanError::NotImplemented)
    }
}

} // verus!
