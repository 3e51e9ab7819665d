use fingerprint_entropy::{
    compare_results, interpret_results, AnalysisResults, ComponentAnalysis, EntropyLevel,
    UniquenessLevel, LOG_SCALE,
};

fn analysis(shannon: u64, num: usize, den: usize) -> AnalysisResults {
    AnalysisResults {
        total_entries: den,
        unique_fingerprints: num,
        unique_sessions: num,
        shannon_entropy: shannon,
        normalized_entropy: 0,
        max_possible_entropy: shannon,
        uniqueness_rate_num: num,
        uniqueness_rate_den: den,
        component_analysis: ComponentAnalysis {
            canvas_entropy: 0,
            webgl_entropy: 0,
            audio_entropy: 0,
            port_contention_entropy: 0,
            combined_entropy: shannon,
        },
        temporal_distribution: Vec::new(),
    }
}

#[test]
fn comparing_eight_against_twelve_bits() {
    // dataset A at 8.0 bits, dataset B at 12.0 bits: the entropy grew by
    // +4.0 bits, a positive change of 50%
    let a = analysis(8 * LOG_SCALE, 50, 100);
    let b = analysis(12 * LOG_SCALE, 80, 100);
    let c = compare_results(&a, &b);
    assert_eq!(c.entropy_diff, 4 * LOG_SCALE as i64);
    assert_eq!(c.entropy_diff as f64 / LOG_SCALE as f64, 4.0);
    assert!(c.entropy_diff > 0);
    assert_eq!(c.entropy_change_tenths_pct, 500);
    assert_eq!(c.entropy_change_tenths_pct as f64 / 10.0, 50.0);
    assert_eq!(c.uniqueness_diff_bp, 3000);
}

#[test]
fn comparing_a_decrease_keeps_the_magnitude() {
    let a = analysis(12 * LOG_SCALE, 80, 100);
    let b = analysis(8 * LOG_SCALE, 50, 100);
    let c = compare_results(&a, &b);
    assert_eq!(c.entropy_diff, -(4 * LOG_SCALE as i64));
    // |−4.0| / 12.0 = 33.3%
    assert_eq!(c.entropy_change_tenths_pct, 333);
    assert_eq!(c.uniqueness_diff_bp, -3000);
}

#[test]
fn comparing_from_zero_entropy_guards_the_division() {
    let a = analysis(0, 1, 2);
    let b = analysis(LOG_SCALE, 1, 2);
    let c = compare_results(&a, &b);
    assert_eq!(c.entropy_diff, LOG_SCALE as i64);
    assert_eq!(c.entropy_change_tenths_pct, 0);
}

#[test]
fn interpretation_matches_the_thresholds() {
    let low = analysis(5 * LOG_SCALE, 95, 100);
    let i = interpret_results(&low);
    assert_eq!(i.entropy_level, EntropyLevel::Low);
    assert_eq!(i.uniqueness_level, UniquenessLevel::Excellent);

    let high = analysis(25 * LOG_SCALE, 30, 100);
    let i2 = interpret_results(&high);
    assert_eq!(i2.entropy_level, EntropyLevel::High);
    assert_eq!(i2.uniqueness_level, UniquenessLevel::Poor);
}
