//! Classification of a contention ratio into the three observable regimes.

use vstd::prelude::*;

verus! {

/// The regime a measured contention ratio falls into.
///
/// Ratios are scaled by 10000 (`RATIO_SCALE`), so `11500` stands for 1.15.
/// * above 1.15 the interleaved order was slower: the two instruction
///   classes competed for distinct execution ports (`HighParallelism`);
/// * between 0.85 and 1.15 inclusive the orders were indistinguishable
///   (`NoContention`);
/// * below 0.85 the grouped order was slower: cache or scheduling effects
///   favoured interleaving (`CacheBeneficial`).
#[derive(Clone, Copy, Debug, PartialEq, Eq, Structural)]
pub enum ContentionCategory {
    HighParallelism,
    NoContention,
    CacheBeneficial,
}

/// Upper threshold, 1.15 scaled by 10000.
pub const HIGH_PARALLELISM_THRESHOLD: u64 = 11500;

/// Lower threshold, 0.85 scaled by 10000.
pub const NO_CONTENTION_THRESHOLD: u64 = 8500;

/// What `categorize_ratio` returns, as a spec-level function of the ratio.
///
/// The high-parallelism branch requires a ratio strictly above 1.15, so the
/// boundary value 1.15 itself classifies as `NoContention`; the lower bound
/// 0.85 is inclusive as well.
pub open spec fn spec_categorize(ratio_scaled: u64) -> ContentionCategory {
    if ratio_scaled > HIGH_PARALLELISM_THRESHOLD {
        ContentionCategory::HighParallelism
    } else if ratio_scaled >= NO_CONTENTION_THRESHOLD {
        ContentionCategory::NoContention
    } else {
        ContentionCategory::CacheBeneficial
    }
}

/// Classifies a scaled contention ratio by the fixed thresholds.
///
/// The same total function serves the fingerprint synthesizer and the
/// human-readable interpreter, so the two can never disagree.
pub fn categorize_ratio(ratio_scaled: u64) -> (c: ContentionCategory)
    ensures
        c == spec_categorize(ratio_scaled),
        c == ContentionCategory::HighParallelism <==> ratio_scaled > HIGH_PARALLELISM_THRESHOLD,
        c == ContentionCategory::NoContention <==> (NO_CONTENTION_THRESHOLD <= ratio_scaled
            && ratio_scaled <= HIGH_PARALLELISM_THRESHOLD),
        c == ContentionCategory::CacheBeneficial <==> ratio_scaled < NO_CONTENTION_THRESHOLD,
{
    if ratio_scaled > HIGH_PARALLELISM_THRESHOLD {
        ContentionCategory::HighParallelism
    } else if ratio_scaled >= NO_CONTENTION_THRESHOLD {
        ContentionCategory::NoContention
    } else {
        ContentionCategory::CacheBeneficial
    }
}

} // verus!
