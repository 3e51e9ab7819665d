//! The complete port-contention collection: warm-up, measurement of the
//! registry of instruction pairs, and fingerprint synthesis.

use vstd::prelude::*;
use crate::measure::{
    measure_contention_pair, result_wf, spec_pair_name, warmup, BenchError, ContentionResult,
    MeasureConfig, WorkloadPair,
};
use crate::synth::{generate_fingerprint, spec_fingerprint};
use crate::workloads::spec_warmup_value;

verus! {

/// The registry of measured pairs, in canonical order.
pub open spec fn spec_registry() -> Seq<WorkloadPair> {
    seq![
        WorkloadPair::MulAdd,
        WorkloadPair::DivMul,
        WorkloadPair::ShiftXor,
        WorkloadPair::BranchStress,
        WorkloadPair::MemoryFence,
    ]
}

/// A measured sequence is well-formed when it carries one result per
/// registry pair, in registry order, each with a ratio derived from its
/// stored medians.
pub open spec fn results_wf(rs: Seq<ContentionResult>) -> bool {
    &&& rs.len() == spec_registry().len()
    &&& forall|i: int|
        0 <= i < rs.len() ==> (#[trigger] rs[i]).instruction_pair@ == spec_pair_name(
            spec_registry()[i],
        ) && result_wf(rs[i])
}

/// The microarchitectural fingerprint collector.
///
/// The registry holds the five integer instruction pairs; a caller that
/// also times workloads of its own (such as a floating-point class) reduces
/// those series with `reduce_trials` and hands the combined sequence to
/// `generate_fingerprint` itself.
pub struct PortContentionFingerprint;

impl PortContentionFingerprint {
    /// Measures every pair of the registry under `config`.
    ///
    /// Fails with `OptimizedAway` exactly when the warm-up chain collapsed
    /// to the sentinel; otherwise each registry pair yields one result, in
    /// registry order.
    pub fn collect_detailed_with(config: &MeasureConfig) -> (r: Result<
        Vec<ContentionResult>,
        BenchError,
    >)
        requires
            config.trials > 0,
        ensures
            r is Ok <==> spec_warmup_value(config.warmup_rounds as nat) != 0,
            r is Err ==> r->Err_0 == BenchError::OptimizedAway,
            r is Ok ==> results_wf(r->Ok_0@),
    {
        warmup(config.warmup_rounds)?;
        let mut results: Vec<ContentionResult> = Vec::new();
        results.push(measure_contention_pair(WorkloadPair::MulAdd, config));
        results.push(measure_contention_pair(WorkloadPair::DivMul, config));
        results.push(measure_contention_pair(WorkloadPair::ShiftXor, config));
        results.push(measure_contention_pair(WorkloadPair::BranchStress, config));
        results.push(measure_contention_pair(WorkloadPair::MemoryFence, config));
        proof {
            assert(results_wf(results@));
        }
        Ok(results)
    }

    /// Measures the registry under `config` and digests the results.
    ///
    /// On success the fingerprint is the canonical digest of a well-formed
    /// result sequence: a 64-character lower-case hex string.
    pub fn collect_with(config: &MeasureConfig) -> (r: Result<String, BenchError>)
        requires
            config.trials > 0,
        ensures
            r is Ok <==> spec_warmup_value(config.warmup_rounds as nat) != 0,
            r is Err ==> r->Err_0 == BenchError::OptimizedAway,
            r is Ok ==> r->Ok_0@.len() == 64,
            r is Ok ==> exists|rs: Seq<ContentionResult>|
                results_wf(rs) && r->Ok_0@ == spec_fingerprint(rs),
    {
        let results = Self::collect_detailed_with(config)?;
        let fp = generate_fingerprint(&results);
        proof {
            assert(results_wf(results@) && fp@ == spec_fingerprint(results@));
        }
        Ok(fp)
    }

    /// Measures the registry under the production configuration.
    ///
    /// Success is decided by the deterministic warm-up chain at the
    /// production round count alone; on success the fingerprint is the
    /// canonical digest of a well-formed result sequence.
    pub fn collect() -> (r: Result<String, BenchError>)
        ensures
            r is Ok <==> spec_warmup_value(1000) != 0,
            r is Ok ==> r->Ok_0@.len() == 64,
            r is Ok ==> exists|rs: Seq<ContentionResult>|
                results_wf(rs) && r->Ok_0@ == spec_fingerprint(rs),
            r is Err ==> r->Err_0 == BenchError::OptimizedAway,
    {
        let config = MeasureConfig::standard();
        Self::collect_with(&config)
    }

    /// Measures the registry under the production configuration, returning
    /// the per-pair results for analysis. Success is decided by the
    /// deterministic warm-up chain at the production round count alone.
    pub fn collect_detailed() -> (r: Result<Vec<ContentionResult>, BenchError>)
        ensures
            r is Ok <==> spec_warmup_value(1000) != 0,
            r is Ok ==> results_wf(r->Ok_0@),
            r is Err ==> r->Err_0 == BenchError::OptimizedAway,
    {
        let config = MeasureConfig::standard();
        Self::collect_detailed_with(&config)
    }
}

/// Collects the microarchitectural fingerprint under the production
/// configuration: succeeds exactly when the production warm-up chain does
/// not collapse, yielding the canonical digest of a well-formed result
/// sequence.
pub fn get_port_contention_fingerprint() -> (r: Result<String, BenchError>)
    ensures
        r is Ok <==> spec_warmup_value(1000) != 0,
        r is Ok ==> r->Ok_0@.len() == 64,
        r is Ok ==> exists|rs: Seq<ContentionResult>|
            results_wf(rs) && r->Ok_0@ == spec_fingerprint(rs),
        r is Err ==> r->Err_0 == BenchError::OptimizedAway,
{
    PortContentionFingerprint::collect()
}

} // verus!
