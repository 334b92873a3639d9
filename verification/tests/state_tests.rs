use quasi_core::QuasiState;
use quasi_core::Ratio;
use quasi_core::MAG_LIMIT;

/// The coherence formula on milli-unit magnitudes, written independently:
/// numerator and denominator of 1 - |a-b| / (|a|+|b|+1) in whole units.
fn expected_coherence(a: i64, b: i64) -> (i64, i64) {
    let den = a.abs() + b.abs() + 1000;
    (den - (a - b).abs(), den)
}

#[test]
fn coherence_formula_holds_at_construction() {
    let samples: Vec<(i64, i64)> = vec![
        (42_000, -41_800),
        (0, 0),
        (1, -1),
        (-500, -500),
        (1_000_000, 250),
        (MAG_LIMIT, -MAG_LIMIT),
        (MAG_LIMIT, MAG_LIMIT),
    ];
    for (a, b) in samples {
        let q = QuasiState::new("id", "energy", a, b);
        let c = q.measure_coherence();
        let (num, den) = expected_coherence(a, b);
        assert_eq!(c.num, num);
        assert_eq!(c.den, den);
        assert!(0 < c.num && c.num <= c.den);
    }
}

#[test]
fn coherence_of_sample_pair_matches_float_formula() {
    let q = QuasiState::new("iceberg_01", "energy", 42_000, -41_800);
    let c = q.measure_coherence();
    assert_eq!(c.num, 1000);
    assert_eq!(c.den, 84_800);
    let got = c.num as f64 / c.den as f64;
    let want = 1.0 - (42.0f64 - (-41.8f64)).abs() / (42.0f64.abs() + (-41.8f64).abs() + 1.0);
    assert!((got - want).abs() < 1e-12);
    assert!((got - 0.0118).abs() < 1e-3);
}

#[test]
fn observe_returns_mean_and_sets_flag() {
    let mut q = QuasiState::new("iceberg_01", "energy", 42_000, -41_800);
    assert!(!q.observed);
    let r = q.observe();
    assert_eq!(r.num, 200);
    assert_eq!(r.den, 2000);
    assert!((r.num as f64 / r.den as f64 - 0.1).abs() < 1e-12);
    assert!(q.observed);
}

#[test]
fn observe_is_idempotent() {
    let mut q = QuasiState::new("iceberg_01", "energy", 42_000, -41_800);
    let first = q.observe();
    let before_matter = q.field.matter.value;
    let before_antimatter = q.field.antimatter.value;
    let before_coherence = q.measure_coherence();
    let second = q.observe();
    assert_eq!(first, second);
    assert!(q.observed);
    assert_eq!(q.field.matter.value, before_matter);
    assert_eq!(q.field.antimatter.value, before_antimatter);
    assert_eq!(q.measure_coherence(), before_coherence);
}

#[test]
fn invert_swaps_tokens_whole() {
    let mut q = QuasiState::new("pair", "energy", 7_000, -3_500);
    q.invert();
    assert_eq!(q.field.matter.value, -3_500);
    assert_eq!(q.field.antimatter.value, 7_000);
    assert_eq!(q.field.matter.qtype, "energy");
    assert_eq!(q.field.antimatter.qtype, "energy");
    assert_eq!(q.id, "pair");
    assert!(!q.observed);
}

#[test]
fn invert_twice_restores_the_pair() {
    let mut q = QuasiState::new("pair", "mass", 123_456, -654_321);
    let matter = (q.field.matter.qtype.clone(), q.field.matter.value);
    let antimatter = (q.field.antimatter.qtype.clone(), q.field.antimatter.value);
    let coherence = q.measure_coherence();
    let observed = q.observed;
    q.invert();
    q.invert();
    assert_eq!(q.field.matter.qtype, matter.0);
    assert_eq!(q.field.matter.value, matter.1);
    assert_eq!(q.field.antimatter.qtype, antimatter.0);
    assert_eq!(q.field.antimatter.value, antimatter.1);
    assert_eq!(q.measure_coherence(), coherence);
    assert_eq!(q.observed, observed);
}

#[test]
fn coherence_is_invariant_under_invert() {
    let samples: Vec<(i64, i64)> = vec![(42_000, -41_800), (0, 0), (-9, 9), (5_000, 5_000)];
    for (a, b) in samples {
        let mut q = QuasiState::new("id", "energy", a, b);
        let before = q.measure_coherence();
        q.invert();
        assert_eq!(q.measure_coherence(), before);
    }
}

#[test]
fn equal_magnitudes_give_full_coherence() {
    let q = QuasiState::new("id", "energy", 5_000, 5_000);
    let c = q.measure_coherence();
    assert_eq!(c.num, c.den);
}

#[test]
fn zero_pair_gives_full_coherence() {
    let q = QuasiState::new("", "", 0, 0);
    let c = q.measure_coherence();
    assert_eq!(c.num, 1000);
    assert_eq!(c.den, 1000);
}

#[test]
fn render_of_sample_pair_is_exact() {
    let q = QuasiState::new("iceberg_01", "energy", 42_000, -41_800);
    assert_eq!(
        q.render(),
        "QuasiState [iceberg_01]\nType: energy\nMatter: 42.000\nAntimatter: -41.800\nCoherence: 0.012\nState: Superposed"
    );
}

#[test]
fn render_tag_follows_the_lifecycle() {
    let mut q = QuasiState::new("iceberg_01", "energy", 42_000, -41_800);
    assert!(q.render().ends_with("State: Superposed"));
    q.invert();
    assert!(q.render().ends_with("State: Superposed"));
    q.observe();
    assert!(q.render().ends_with("State: Observed"));
    q.invert();
    assert!(q.render().ends_with("State: Observed"));
    q.observe();
    assert!(q.render().ends_with("State: Observed"));
}

#[test]
fn measure_coherence_ignores_the_flag() {
    let mut q = QuasiState::new("id", "energy", 42_000, -41_800);
    let before = q.measure_coherence();
    q.observe();
    assert_eq!(q.measure_coherence(), before);
}

#[test]
fn ratio_fields_are_plain_values() {
    let r = Ratio { num: 3, den: 4 };
    assert_eq!(r.num, 3);
    assert_eq!(r.den, 4);
}
