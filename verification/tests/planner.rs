use capra::engine::ZHL16;
use capra::environment::Environment;
use capra::gas::Gas;
use capra::open_circuit::OpenCircuit;
use capra::parameter::Parameters;
use capra::segment::{Segment, SegmentType};
use capra::tissue::Tissue;
use capra::tissue_constants::Variant;
use capra::units::{Depth, GasConsumption, Pressure, Rate, WaterDensity};

fn salt_env() -> Environment {
    Environment::new(WaterDensity(10236), Pressure(1_000_000_000))
}

fn params(sac_bottom: u32, sac_deco: u32) -> Parameters {
    Parameters::new(Rate(-10), Rate(20), salt_env(), sac_bottom, sac_deco)
}

fn air() -> Gas {
    Gas::new(21, 0, 79).unwrap()
}

fn bottom(depth: u32, minutes: u64) -> Segment {
    Segment::new(
        SegmentType::Bottom,
        Depth(depth),
        Depth(depth),
        minutes * 60,
        Rate(-10),
        Rate(20),
    )
    .unwrap()
}

#[test]
fn no_decompression_dive_surfaces_directly() {
    // Air at 18 m for 20 minutes: no stop required, the remaining
    // no-stop time is positive, and the schedule ends at the surface.
    let engine = ZHL16::new_by_variant(Tissue::default(), 100, 100, Variant::B);
    let plan = OpenCircuit::new(engine, vec![(bottom(18, 20), air())], vec![], params(20, 15));
    let result = plan.plan();
    let segments = result.segments();
    assert!(!segments.is_empty());
    assert_eq!(segments.last().unwrap().0.end_depth().0, 0);
    for (seg, _) in segments.iter() {
        assert!(!matches!(seg.segment_type(), SegmentType::DecoStop));
        if matches!(seg.segment_type(), SegmentType::NoDeco) {
            assert!(seg.time() > 0);
        }
    }
}

#[test]
fn trimix_dive_requires_stops_and_surfaces() {
    // Trimix 21/35 at 45 m for 60 minutes, GF 50/70, one deco gas
    // 50/50 without a depth restriction.
    let trimix = Gas::new(21, 35, 44).unwrap();
    let half_half = Gas::new(50, 50, 0).unwrap();
    let engine = ZHL16::new_by_variant(Tissue::default(), 50, 70, Variant::B);
    let plan = OpenCircuit::new(
        engine,
        vec![(bottom(45, 60), trimix)],
        vec![(half_half, None)],
        params(20, 15),
    );
    let result = plan.plan();
    let segments = result.segments();
    assert_eq!(segments.last().unwrap().0.end_depth().0, 0);
    let first_stop = segments
        .iter()
        .find(|(seg, _)| matches!(seg.segment_type(), SegmentType::DecoStop));
    let (stop, _) = first_stop.expect("a 60-minute exposure at 45 m demands stops");
    assert!(stop.start_depth().0 > 0);
    assert_eq!(stop.start_depth().0 % 3, 0);
}

#[test]
fn planner_switches_to_nitrox_at_twenty_one_metres() {
    // Air bottom gas with nitrox 50 carried for decompression: its
    // ppO2 ceiling of 1.6 bar is first met at 21 m, so every stop from
    // 21 m up burns nitrox, and the 21 m stop recomputed on nitrox
    // never exceeds the stop an all-air schedule would hold there.
    let n50 = Gas::new(50, 0, 50).unwrap();
    let engine = ZHL16::new_by_variant(Tissue::default(), 50, 70, Variant::B);
    let with_nitrox = OpenCircuit::new(
        engine,
        vec![(bottom(51, 35), air())],
        vec![(n50, None)],
        params(20, 15),
    )
    .plan();
    let air_only = OpenCircuit::new(
        engine,
        vec![(bottom(51, 35), air())],
        vec![],
        params(20, 15),
    )
    .plan();
    let stop_on = |result: &capra::plan_result::PlanResult, depth: u32| -> Option<(u64, Gas)> {
        result
            .segments()
            .iter()
            .find(|(seg, _)| {
                matches!(seg.segment_type(), SegmentType::DecoStop) && seg.start_depth().0 == depth
            })
            .map(|(seg, gas)| (seg.time(), *gas))
    };
    let (t_nitrox, gas_at_21) = stop_on(&with_nitrox, 21).expect("a stop at 21 m");
    assert_eq!(gas_at_21, n50);
    let (t_air, air_gas) = stop_on(&air_only, 21).expect("an all-air stop at 21 m");
    assert_eq!(air_gas, air());
    assert!(t_nitrox <= t_air);
    // Deeper than its operating depth the nitrox is never breathed.
    for (seg, gas) in with_nitrox.segments().iter() {
        if seg.start_depth().0 > 21 {
            assert_eq!(*gas, air());
        }
    }
}

#[test]
fn consumption_totals_match_the_schedule() {
    let trimix = Gas::new(21, 35, 44).unwrap();
    let half_half = Gas::new(50, 50, 0).unwrap();
    let engine = ZHL16::new_by_variant(Tissue::default(), 50, 70, Variant::B);
    let result = OpenCircuit::new(
        engine,
        vec![(bottom(45, 60), trimix)],
        vec![(half_half, None)],
        params(20, 15),
    )
    .plan();
    let env = salt_env();
    for (gas, total) in result.gas_used().iter() {
        let mut expected: u128 = 0;
        for (seg, seg_gas) in result.segments().iter() {
            if seg_gas == gas && !matches!(seg.segment_type(), SegmentType::NoDeco) {
                let sac = if matches!(seg.segment_type(), SegmentType::DecoStop) { 15 } else { 20 };
                expected += seg.gas_consumed(sac, env).0;
            }
        }
        assert_eq!(*total, GasConsumption(expected));
    }
    // Both gases of the dive appear in the table.
    assert!(result.gas_used().iter().any(|(g, _)| *g == trimix));
    assert!(result.gas_used().iter().any(|(g, _)| *g == half_half));
}

#[test]
fn multi_level_dive_links_the_levels() {
    // 30 m for 20 min, then 18 m for 10 min, all on air: the schedule
    // walks both levels and ends at the surface.
    let engine = ZHL16::new_by_variant(Tissue::default(), 85, 85, Variant::B);
    let result = OpenCircuit::new(
        engine,
        vec![(bottom(30, 20), air()), (bottom(18, 10), air())],
        vec![],
        params(20, 15),
    )
    .plan();
    let segments = result.segments();
    assert_eq!(segments.last().unwrap().0.end_depth().0, 0);
    // The first emitted segment descends from the surface to 30 m.
    assert!(matches!(segments[0].0.segment_type(), SegmentType::AscDesc));
    assert_eq!(segments[0].0.start_depth().0, 0);
    assert_eq!(segments[0].0.end_depth().0, 30);
    // Both bottom levels appear in order.
    let depths: Vec<u32> = segments
        .iter()
        .filter(|(seg, _)| matches!(seg.segment_type(), SegmentType::Bottom))
        .map(|(seg, _)| seg.start_depth().0)
        .collect();
    assert_eq!(depths, vec![30, 18]);
}

#[test]
fn plan_result_reports_final_tissue() {
    let engine = ZHL16::new_by_variant(Tissue::default(), 100, 100, Variant::B);
    let before = Tissue::default();
    let result = OpenCircuit::new(
        engine,
        vec![(bottom(18, 20), air())],
        vec![],
        params(20, 15),
    )
    .plan();
    // The dive loaded nitrogen: the reported end tissue is no longer
    // surface-saturated.
    let after = result.end_tissue();
    assert!(after.p_n2()[0] > before.p_n2()[0]);
}
