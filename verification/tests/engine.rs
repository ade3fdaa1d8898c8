use capra::engine::ZHL16;
use capra::environment::Environment;
use capra::gas::Gas;
use capra::segment::{Segment, SegmentType};
use capra::tissue::Tissue;
use capra::tissue_constants::Variant;
use capra::units::{time_taken, Depth, Pressure, Rate, WaterDensity};

fn salt_env() -> Environment {
    Environment::new(WaterDensity(10236), Pressure(1_000_000_000))
}

fn air() -> Gas {
    Gas::new(21, 0, 79).unwrap()
}

fn fresh_engine(gf_low: u8, gf_high: u8) -> ZHL16 {
    ZHL16::new_by_variant(Tissue::default(), gf_low, gf_high, Variant::B)
}

fn bottom(depth: u32, seconds: u64) -> Segment {
    Segment::new(SegmentType::Bottom, Depth(depth), Depth(depth), seconds, Rate(-10), Rate(20))
        .unwrap()
}

fn descend(from: u32, to: u32) -> Segment {
    let t = time_taken(Rate(20), Depth(from), Depth(to));
    Segment::new(SegmentType::AscDesc, Depth(from), Depth(to), t, Rate(-10), Rate(20)).unwrap()
}

#[test]
fn air_ndl_at_eighteen_metres() {
    // Surface-saturated diver placed at 18 m.  The controlling
    // compartment is the 18.5-minute one: its surfacing limit is
    // a + 1/b = 2.0340 bar, inspired nitrogen is 2.1961 bar, and the
    // Haldane closed form gives 18.5 * log2(1.4555 / 0.1621) = 58.6
    // minutes, so the last whole minute still inside the limit is 58.
    let env = salt_env();
    let mut engine = fresh_engine(100, 100);
    engine = engine.add_segment(&bottom(18, 0), &air(), env);
    let stops = engine.surface(Rate(-10), Rate(20), &air(), env);
    assert_eq!(stops.len(), 1);
    assert!(matches!(stops[0].segment_type(), SegmentType::NoDeco));
    let minutes = stops[0].time() / 60;
    assert_eq!(minutes, 58);
}

#[test]
fn ndl_unlimited_when_very_shallow() {
    let env = salt_env();
    let mut engine = fresh_engine(100, 100);
    engine = engine.add_segment(&bottom(2, 0), &air(), env);
    assert_eq!(engine.ndl(&air(), env), Some(999));
}

#[test]
fn zero_duration_segments_leave_tissue_unchanged() {
    let env = salt_env();
    let engine = fresh_engine(85, 85);
    let before = engine.tissue();
    let after_flat = engine.add_segment(&bottom(30, 0), &air(), env).tissue();
    assert_eq!(before.p_n2(), after_flat.p_n2());
    assert_eq!(before.p_he(), after_flat.p_he());
    let zero_ramp =
        Segment::new(SegmentType::AscDesc, Depth(0), Depth(30), 0, Rate(-10), Rate(20)).unwrap();
    let after_ramp = engine.add_segment(&zero_ramp, &air(), env).tissue();
    assert_eq!(before.p_n2(), after_ramp.p_n2());
    assert_eq!(before.p_he(), after_ramp.p_he());
}

#[test]
fn bottom_time_composes_exactly() {
    // Thirty minutes in one segment equals ten then twenty, bit for bit.
    let env = salt_env();
    let engine = fresh_engine(100, 100)
        .add_segment(&descend(0, 30), &air(), env);
    let whole = engine.add_segment(&bottom(30, 30 * 60), &air(), env);
    let split = engine
        .add_segment(&bottom(30, 10 * 60), &air(), env)
        .add_segment(&bottom(30, 20 * 60), &air(), env);
    assert_eq!(whole.tissue().p_n2(), split.tissue().p_n2());
    assert_eq!(whole.tissue().p_he(), split.tissue().p_he());
}

#[test]
fn oxygen_washes_out_nitrogen() {
    // Pure oxygen at rest: every nitrogen compartment falls, helium
    // stays at zero.
    let env = salt_env();
    let oxygen = Gas::new(100, 0, 0).unwrap();
    let engine = fresh_engine(100, 100);
    let before = engine.tissue();
    let after = engine.add_segment(&bottom(0, 30 * 60), &oxygen, env).tissue();
    for i in 0..16 {
        assert!(after.p_n2()[i] < before.p_n2()[i]);
        assert_eq!(after.p_he()[i], 0);
    }
}

#[test]
fn tissue_loads_toward_ambient() {
    // Half an hour of air at 30 m raises every nitrogen compartment.
    let env = salt_env();
    let engine = fresh_engine(100, 100).add_segment(&descend(0, 30), &air(), env);
    let before = engine.tissue();
    let after = engine.add_segment(&bottom(30, 30 * 60), &air(), env).tissue();
    for i in 0..16 {
        assert!(after.p_n2()[i] > before.p_n2()[i]);
    }
}

#[test]
fn first_deco_depth_latches_once() {
    let env = salt_env();
    let mut engine = fresh_engine(50, 70);
    assert_eq!(engine.first_deco_depth, None);
    let stop_nine = Segment::new(
        SegmentType::DecoStop,
        Depth(9),
        Depth(9),
        60,
        Rate(-10),
        Rate(20),
    )
    .unwrap();
    let stop_six = Segment::new(
        SegmentType::DecoStop,
        Depth(6),
        Depth(6),
        60,
        Rate(-10),
        Rate(20),
    )
    .unwrap();
    engine = engine.add_segment(&stop_nine, &air(), env);
    assert_eq!(engine.first_deco_depth, Some(Depth(9)));
    engine = engine.add_segment(&stop_six, &air(), env);
    assert_eq!(engine.first_deco_depth, Some(Depth(9)));
}

#[test]
fn ceiling_rises_while_decompressing() {
    // After a long deep exposure the ceiling is below the surface;
    // off-gassing shallow brings it back up.
    let env = salt_env();
    let mut engine = fresh_engine(100, 100)
        .add_segment(&descend(0, 42), &air(), env)
        .add_segment(&bottom(42, 40 * 60), &air(), env);
    let deep_ceiling = engine.ascent_ceiling(None);
    assert!(deep_ceiling.0 > 1_000_000_000);
    let asc = Segment::new(
        SegmentType::AscDesc,
        Depth(42),
        Depth(9),
        time_taken(Rate(-10), Depth(42), Depth(9)),
        Rate(-10),
        Rate(20),
    )
    .unwrap();
    engine = engine.add_segment(&asc, &air(), env);
    let stop = Segment::new(
        SegmentType::DecoStop,
        Depth(9),
        Depth(9),
        20 * 60,
        Rate(-10),
        Rate(20),
    )
    .unwrap();
    engine = engine.add_segment(&stop, &air(), env);
    assert!(engine.ascent_ceiling(None).0 < deep_ceiling.0);
}

#[test]
fn get_stops_is_repeatable_and_non_mutating() {
    let env = salt_env();
    let engine = fresh_engine(50, 70)
        .add_segment(&descend(0, 42), &air(), env)
        .add_segment(&bottom(42, 30 * 60), &air(), env);
    let tissue_before = engine.tissue();
    let first = engine.get_stops(Rate(-10), Rate(20), &air(), env);
    let second = engine.get_stops(Rate(-10), Rate(20), &air(), env);
    assert_eq!(first, second);
    assert_eq!(tissue_before.p_n2(), engine.tissue().p_n2());
    assert_eq!(tissue_before.p_he(), engine.tissue().p_he());
}

#[test]
fn deco_stops_sit_on_three_metre_grid() {
    let env = salt_env();
    let engine = fresh_engine(50, 70)
        .add_segment(&descend(0, 42), &air(), env)
        .add_segment(&bottom(42, 30 * 60), &air(), env);
    let stops = engine.get_stops(Rate(-10), Rate(20), &air(), env);
    assert!(stops.iter().any(|s| matches!(s.segment_type(), SegmentType::DecoStop)));
    for s in &stops {
        if matches!(s.segment_type(), SegmentType::DecoStop) {
            assert_eq!(s.start_depth().0 % 3, 0);
            assert!(s.start_depth().0 > 0);
            assert_eq!(s.start_depth().0, s.end_depth().0);
            assert!(s.time() >= 60);
            assert_eq!(s.time() % 60, 0);
        }
    }
}

#[test]
fn surface_commits_the_stops_it_returns() {
    let env = salt_env();
    let mut engine = fresh_engine(50, 70)
        .add_segment(&descend(0, 42), &air(), env)
        .add_segment(&bottom(42, 30 * 60), &air(), env);
    let preview = engine.get_stops(Rate(-10), Rate(20), &air(), env);
    let walked = engine.surface(Rate(-10), Rate(20), &air(), env);
    assert_eq!(preview, walked);
    // Afterwards the model's own ceiling clears one bar.
    assert!(engine.ascent_ceiling(None).0 < 1_000_000_000);
}

#[test]
fn surface_ceiling_uses_gf_high_once_deco_began() {
    // With the first stop latched and the diver on the surface, the
    // interpolated gradient factor lands exactly on gf_high.
    let env = salt_env();
    let engine = fresh_engine(50, 70)
        .add_segment(&descend(0, 42), &air(), env)
        .add_segment(&bottom(42, 30 * 60), &air(), env);
    let mut surfaced = engine;
    surfaced.surface(Rate(-10), Rate(20), &air(), env);
    let asc = Segment::new(
        SegmentType::AscDesc,
        surfaced.diver_depth,
        Depth(0),
        time_taken(Rate(-10), surfaced.diver_depth, Depth(0)),
        Rate(-10),
        Rate(20),
    )
    .unwrap();
    let at_surface = surfaced.add_segment(&asc, &air(), env);
    assert!(at_surface.first_deco_depth.is_some());
    assert_eq!(
        at_surface.ascent_ceiling(None),
        at_surface.ascent_ceiling(Some(70))
    );
}
