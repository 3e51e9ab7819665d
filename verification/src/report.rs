//! Interpretation thresholds and dataset comparison.
//!
//! The thresholds are advisory presentation logic, but they must be
//! reproduced identically wherever results are described, so they live
//! here as total functions with exact contracts. Entropy thresholds are in
//! units of 2^-16 bits (10 and 20 bits); uniqueness thresholds are the
//! exact rationals 1/2 and 9/10.

use vstd::prelude::*;
use crate::analysis::AnalysisResults;

verus! {

/// 10 bits, in units of 2^-16 bits.
pub const ENTROPY_LOW_LIMIT: u64 = 655360;

/// 20 bits, in units of 2^-16 bits.
pub const ENTROPY_MODERATE_LIMIT: u64 = 1310720;

/// How distinguishing a corpus entropy is: below 10 bits low, 10 to 20
/// bits (inclusive) moderate, above 20 bits high.
#[derive(Clone, Copy, Debug, PartialEq, Eq, Structural)]
pub enum EntropyLevel {
    Low,
    Moderate,
    High,
}

/// How unique the fingerprints are: a rate below 1/2 is poor, from 1/2 to
/// 9/10 (inclusive) reasonable, above 9/10 excellent.
#[derive(Clone, Copy, Debug, PartialEq, Eq, Structural)]
pub enum UniquenessLevel {
    Poor,
    Reasonable,
    Excellent,
}

/// What `classify_entropy` returns, as a function of the scaled entropy.
pub open spec fn spec_entropy_level(h: u64) -> EntropyLevel {
    if h < ENTROPY_LOW_LIMIT {
        EntropyLevel::Low
    } else if h <= ENTROPY_MODERATE_LIMIT {
        EntropyLevel::Moderate
    } else {
        EntropyLevel::High
    }
}

/// What `classify_uniqueness` returns: the rate `num/den` against 1/2 and
/// 9/10, compared exactly by cross-multiplication.
pub open spec fn spec_uniqueness_level(num: int, den: int) -> UniquenessLevel {
    if 2 * num < den {
        UniquenessLevel::Poor
    } else if 10 * num <= 9 * den {
        UniquenessLevel::Reasonable
    } else {
        UniquenessLevel::Excellent
    }
}

/// Classifies a scaled entropy value.
pub fn classify_entropy(h: u64) -> (l: EntropyLevel)
    ensures
        l == spec_entropy_level(h),
{
    if h < ENTROPY_LOW_LIMIT {
        EntropyLevel::Low
    } else if h <= ENTROPY_MODERATE_LIMIT {
        EntropyLevel::Moderate
    } else {
        EntropyLevel::High
    }
}

/// Classifies an exact uniqueness rate.
pub fn classify_uniqueness(num: usize, den: usize) -> (l: UniquenessLevel)
    requires
        den >= 1,
    ensures
        l == spec_uniqueness_level(num as int, den as int),
{
    if 2 * (num as u128) < den as u128 {
        UniquenessLevel::Poor
    } else if 10 * (num as u128) <= 9 * (den as u128) {
        UniquenessLevel::Reasonable
    } else {
        UniquenessLevel::Excellent
    }
}

/// The two advisory classifications of an analysis.
#[derive(Clone, Copy, Debug, PartialEq, Eq, Structural)]
pub struct Interpretation {
    pub entropy_level: EntropyLevel,
    pub uniqueness_level: UniquenessLevel,
}

/// Interprets an analysis by the fixed thresholds; the fingerprint
/// generator and every human-readable description go through these same
/// two classifications.
pub fn interpret_results(results: &AnalysisResults) -> (r: Interpretation)
    requires
        results.uniqueness_rate_den >= 1,
    ensures
        r.entropy_level == spec_entropy_level(results.shannon_entropy),
        r.uniqueness_level == spec_uniqueness_level(
            results.uniqueness_rate_num as int,
            results.uniqueness_rate_den as int,
        ),
{
    Interpretation {
        entropy_level: classify_entropy(results.shannon_entropy),
        uniqueness_level: classify_uniqueness(
            results.uniqueness_rate_num,
            results.uniqueness_rate_den,
        ),
    }
}

/// A uniqueness rate in basis points (1/10000), truncated.
pub open spec fn spec_rate_bp(num: int, den: int) -> int {
    if den <= 0 {
        0
    } else {
        num * 10000 / den
    }
}

/// Side-by-side deltas of two analyses.
///
/// `entropy_diff` is the second entropy minus the first, in units of
/// 2^-16 bits. `entropy_change_tenths_pct` is the magnitude of that change
/// relative to the first entropy, in tenths of a percent (0 when the first
/// entropy is 0, rather than a division by zero). `uniqueness_diff_bp` is
/// the change of the uniqueness rate in basis points.
#[derive(Clone, Copy, Debug, PartialEq, Eq, Structural)]
pub struct ComparisonReport {
    pub entropy_diff: i64,
    pub entropy_change_tenths_pct: u64,
    pub uniqueness_diff_bp: i64,
}

/// Compares two analyses, the second against the first.
pub fn compare_results(a: &AnalysisResults, b: &AnalysisResults) -> (c: ComparisonReport)
    requires
        a.shannon_entropy <= 0x400000,
        b.shannon_entropy <= 0x400000,
        a.uniqueness_rate_num <= a.uniqueness_rate_den,
        b.uniqueness_rate_num <= b.uniqueness_rate_den,
    ensures
        c.entropy_diff == b.shannon_entropy - a.shannon_entropy,
        c.entropy_change_tenths_pct == (if a.shannon_entropy == 0 {
            0int
        } else {
            (if c.entropy_diff >= 0 {
                c.entropy_diff as int
            } else {
                -(c.entropy_diff as int)
            }) * 1000 / a.shannon_entropy as int
        }),
        c.uniqueness_diff_bp == spec_rate_bp(
            b.uniqueness_rate_num as int,
            b.uniqueness_rate_den as int,
        ) - spec_rate_bp(a.uniqueness_rate_num as int, a.uniqueness_rate_den as int),
{
    let diff: i64 = b.shannon_entropy as i64 - a.shannon_entropy as i64;
    let mag: u64 = if diff >= 0 {
        diff as u64
    } else {
        (-diff) as u64
    };
    let pct: u64 = if a.shannon_entropy == 0 {
        0
    } else {
        mag * 1000 / a.shannon_entropy
    };
    let a_bp = rate_bp(a.uniqueness_rate_num, a.uniqueness_rate_den);
    let b_bp = rate_bp(b.uniqueness_rate_num, b.uniqueness_rate_den);
    ComparisonReport {
        entropy_diff: diff,
        entropy_change_tenths_pct: pct,
        uniqueness_diff_bp: b_bp as i64 - a_bp as i64,
    }
}

/// A rate of at most 1, in basis points.
fn rate_bp(num: usize, den: usize) -> (r: u64)
    requires
        num <= den,
    ensures
        r == spec_rate_bp(num as int, den as int),
        r <= 10000,
{
    if den == 0 {
        0
    } else {
        let wide = (num as u128) * 10000 / (den as u128);
        proof {
            assert((num as int) * 10000 <= (den as int) * 10000) by (nonlinear_arith)
                requires
                    num <= den,
            ;
            vstd::arithmetic::div_mod::lemma_div_is_ordered(
                (num as int) * 10000,
                (den as int) * 10000,
                den as int,
            );
            vstd::arithmetic::div_mod::lemma_div_multiples_vanish(10000, den as int);
            assert((den as int) * 10000 == 10000 * (den as int));
        }
        wide as u64
    }
}

} // verus!
