use capra::builder::ZHL16Builder;
use capra::environment::Environment;
use capra::gas::{Gas, GasError};
use capra::gradient_factor::GradientFactor;
use capra::segment::{DiveSegmentError, Segment, SegmentType};
use capra::tissue::Tissue;
use capra::tissue_constants::{TissueConstants, Variant};
use capra::units::{Depth, Pressure, Rate, WaterDensity};

fn salt_env() -> Environment {
    Environment::new(WaterDensity(10236), Pressure(1_000_000_000))
}

#[test]
fn gas_new_accepts_exact_hundred() {
    let air = Gas::new(21, 0, 79).unwrap();
    assert_eq!(air.o2(), 21);
    assert_eq!(air.he(), 0);
    assert_eq!(air.n2(), 79);
}

#[test]
fn gas_new_rejects_wrong_sum() {
    // Fractions summing to 90 are refused.
    assert_eq!(Gas::new(50, 30, 10), Err(GasError::FractionError));
    assert_eq!(Gas::new(0, 0, 0), Err(GasError::FractionError));
    assert_eq!(Gas::new(100, 100, 100), Err(GasError::FractionError));
}

#[test]
fn segment_new_rejects_inconsistent_depths() {
    // A stop may not change depth.
    let r = Segment::new(SegmentType::DecoStop, Depth(6), Depth(9), 60, Rate(-10), Rate(20));
    assert_eq!(r, Err(DiveSegmentError::InconsistentDepth));
    // A depth change must change depth.
    let r = Segment::new(SegmentType::AscDesc, Depth(6), Depth(6), 60, Rate(-10), Rate(20));
    assert_eq!(r, Err(DiveSegmentError::InconsistentDepth));
}

#[test]
fn segment_new_accepts_consistent_depths() {
    let r = Segment::new(SegmentType::AscDesc, Depth(6), Depth(9), 9, Rate(-10), Rate(20));
    assert!(r.is_ok());
    let r = Segment::new(SegmentType::Bottom, Depth(18), Depth(18), 1200, Rate(-10), Rate(20));
    assert!(r.is_ok());
}

#[test]
fn pressure_at_depth_salt_water() {
    // 18 m of salt water: 1 bar + 18 * 10236 * 10_000 nanobar.
    let p = Depth(18).pressure(salt_env());
    assert_eq!(p.0, 2_842_480_000);
}

#[test]
fn equivalent_depth_inverts_pressure() {
    let env = salt_env();
    let p = Depth(30).pressure(env);
    assert_eq!(p.equivalent_depth(env).0, 30);
}

#[test]
fn narcotic_depth_of_trimix() {
    // END of 21/35 at 30 m: (30 + 10) * 0.65 - 10 = 16 m.
    let mix = Gas::new(21, 35, 44).unwrap();
    assert_eq!(mix.equivalent_narcotic_depth(Depth(30)).0, 16);
    // Air is its own narcotic reference.
    let air = Gas::new(21, 0, 79).unwrap();
    assert_eq!(air.equivalent_narcotic_depth(Depth(30)).0, 30);
}

#[test]
fn max_operating_depth_of_nitrox_fifty() {
    // ppO2 1.6 bar on 50% oxygen: ambient 3.2 bar, 21 whole metres of
    // salt water.
    let n50 = Gas::new(50, 0, 50).unwrap();
    let mod_depth = n50.max_operating_depth(Pressure(1_600_000_000), salt_env());
    assert_eq!(mod_depth.0, 21);
}

#[test]
fn ppo2_range_check() {
    let env = salt_env();
    let air = Gas::new(21, 0, 79).unwrap();
    // Air at 60 m: ppO2 = 7.1416 bar * 0.21 = 1.4997... over a 1.4 limit.
    assert!(!air.ppo2_in_range(Depth(60), Pressure(180_000_000), Pressure(1_400_000_000), env));
    assert!(air.ppo2_in_range(Depth(30), Pressure(180_000_000), Pressure(1_400_000_000), env));
}

#[test]
fn gas_consumed_exact_value() {
    let env = salt_env();
    let seg = Segment::new(SegmentType::Bottom, Depth(18), Depth(18), 1200, Rate(-10), Rate(20))
        .unwrap();
    // 2.84248 bar * 20 min * 20 l/min = 1136.992 l, rounded down.
    assert_eq!(seg.gas_consumed(20, env).0, 1136);
}

#[test]
fn gradient_factor_accessors_and_default() {
    let gf = GradientFactor::new(30, 70);
    assert_eq!(gf.low(), 30);
    assert_eq!(gf.high(), 70);
    let d = GradientFactor::default();
    assert_eq!(d.low(), 100);
    assert_eq!(d.high(), 100);
}

#[test]
fn default_tissue_is_air_saturated() {
    // 0.79 * (1 - 0.06257) bar of nitrogen in every compartment.
    let t = Tissue::default();
    for i in 0..16 {
        assert_eq!(t.p_n2()[i], 740_569_700);
        assert_eq!(t.p_he()[i], 0);
    }
}

#[test]
fn variant_tables_differ_only_in_published_entries() {
    let b = TissueConstants::new_by_variant(Variant::B);
    let c = TissueConstants::new_by_variant(Variant::C);
    // Compartment 1 onward shares helium tables.
    for i in 1..16 {
        assert_eq!(b.he_a()[i], c.he_a()[i]);
        assert_eq!(b.he_b()[i], c.he_b()[i]);
        assert_eq!(b.he_load()[i], c.he_load()[i]);
        assert_eq!(b.n2_load()[i], c.n2_load()[i]);
        assert_eq!(b.n2_b()[i], c.n2_b()[i]);
    }
    // The first compartment differs.
    assert_ne!(b.n2_load()[0], c.n2_load()[0]);
    assert_eq!(b.n2_a()[0], 1_169_600_000);
    assert_eq!(c.n2_a()[0], 1_259_900_000);
}

#[test]
fn depth_delta_is_symmetric() {
    assert_eq!(Depth(30).delta(Depth(12)).0, 18);
    assert_eq!(Depth(12).delta(Depth(30)).0, 18);
    assert_eq!(Depth(7).delta(Depth(7)).0, 0);
}

#[test]
fn builder_assembles_an_engine() {
    let engine = ZHL16Builder::new()
        .variant(Variant::C)
        .gradient_factor(GradientFactor::new(30, 80))
        .current_depth(Depth(12))
        .first_deco_depth(Depth(9))
        .finish();
    assert_eq!(engine.gf, GradientFactor::new(30, 80));
    assert_eq!(engine.diver_depth, Depth(12));
    assert_eq!(engine.first_deco_depth, Some(Depth(9)));
    assert_eq!(engine.tissue_constants.n2_a()[0], 1_259_900_000);
    // A zero first-stop depth means decompression has not begun.
    let fresh = ZHL16Builder::new().first_deco_depth(Depth(0)).finish();
    assert_eq!(fresh.first_deco_depth, None);
}
