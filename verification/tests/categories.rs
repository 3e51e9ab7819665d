use fingerprint_entropy::{
    categorize_ratio, classify_entropy, classify_uniqueness, ContentionCategory, EntropyLevel,
    UniquenessLevel, LOG_SCALE,
};

#[test]
fn ratio_boundary_at_one_point_one_five_is_no_contention() {
    // the high-parallelism branch requires a ratio strictly above 1.15,
    // so exactly 1.15 classifies as no contention
    assert_eq!(categorize_ratio(11500), ContentionCategory::NoContention);
    assert_eq!(categorize_ratio(11501), ContentionCategory::HighParallelism);
}

#[test]
fn ratio_boundary_at_zero_point_eight_five_is_inclusive() {
    assert_eq!(categorize_ratio(8500), ContentionCategory::NoContention);
    assert_eq!(categorize_ratio(8499), ContentionCategory::CacheBeneficial);
}

#[test]
fn ratio_midpoints_classify_as_expected() {
    assert_eq!(categorize_ratio(10000), ContentionCategory::NoContention);
    assert_eq!(categorize_ratio(20000), ContentionCategory::HighParallelism);
    assert_eq!(categorize_ratio(0), ContentionCategory::CacheBeneficial);
}

#[test]
fn entropy_levels_follow_the_bit_thresholds() {
    assert_eq!(classify_entropy(10 * LOG_SCALE - 1), EntropyLevel::Low);
    assert_eq!(classify_entropy(10 * LOG_SCALE), EntropyLevel::Moderate);
    assert_eq!(classify_entropy(20 * LOG_SCALE), EntropyLevel::Moderate);
    assert_eq!(classify_entropy(20 * LOG_SCALE + 1), EntropyLevel::High);
}

#[test]
fn uniqueness_levels_follow_the_rate_thresholds() {
    assert_eq!(classify_uniqueness(49, 100), UniquenessLevel::Poor);
    assert_eq!(classify_uniqueness(50, 100), UniquenessLevel::Reasonable);
    assert_eq!(classify_uniqueness(90, 100), UniquenessLevel::Reasonable);
    assert_eq!(classify_uniqueness(91, 100), UniquenessLevel::Excellent);
}
