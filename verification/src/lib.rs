//! Microarchitectural fingerprinting and entropy evaluation.
//!
//! The crate has two halves. The first is a port-contention timing benchmark:
//! pairs of competing instruction classes are executed in *grouped* and
//! *interleaved* order, wall-clock times are reduced to medians, and the
//! ratio of the two medians is classified and digested into a stable
//! fingerprint. The second is an entropy analyzer: it consumes a corpus of
//! fingerprint records and computes frequency distributions, Shannon entropy,
//! uniqueness rates and a temporal histogram.
//!
//! All quantities that are conceptually real-valued (times, ratios, entropy)
//! are carried as scaled integers: times in nanoseconds, ratios in units of
//! 1/10000, entropy in units of 2^-16 bits. This keeps every computation
//! exact and verifiable.

use vstd::prelude::*;

pub mod analysis;
pub mod category;
pub mod clock;
pub mod digest;
pub mod entropy;
pub mod fixlog;
pub mod fmt;
pub mod freq;
pub mod hardware;
pub mod laws;
pub mod lex;
pub mod measure;
pub mod port;
pub mod records;
pub mod report;
pub mod stats;
pub mod synth;
pub mod wasm_bench;
pub mod workloads;

pub use analysis::{
    AnalysisResults, Component, ComponentAnalysis, TemporalBucket, analyze_components,
    analyze_temporal_distribution, calculate_analysis, calculate_entropy_from_values,
    calculate_shannon_entropy_from_ids, unique_count,
};
pub use category::ContentionCategory;
pub use category::categorize_ratio;
pub use entropy::{entropy_from_counts, lemma_entropy_range};
pub use fixlog::{lemma_log2q_monotone, log2q, LOG2Q_MAX, LOG_SCALE};
pub use freq::frequency_table;
pub use hardware::{crypto_operations_benchmark, memory_access_benchmark};
pub use laws::{lemma_constant_corpus, lemma_uniform_corpus};
pub use records::{FingerprintRecord, is_blank_line, parse_record, parse_records};
pub use report::{
    ComparisonReport, EntropyLevel, Interpretation, UniquenessLevel, classify_entropy,
    classify_uniqueness, compare_results, interpret_results,
};
pub use digest::{sha256, sha256_hex, to_hex_bytes};
pub use measure::{
    BenchError, ContentionResult, MeasureConfig, WorkloadPair, measure_contention_pair,
    reduce_trials, warmup, workload_registry,
};
pub use port::{PortContentionFingerprint, get_port_contention_fingerprint};
pub use stats::{median_doubled, sorted_copy};
pub use synth::{canonical_bytes, category_label, generate_fingerprint, lemma_fingerprint_deterministic};
pub use wasm_bench::{
    WasmBenchmarkResult, WasmPair, WasmPortBenchmark, generate_wasm_fingerprint,
    grouped_execution_clz_and, grouped_execution_ctz_xor, grouped_execution_mul_add,
    grouped_execution_popcnt_or, grouped_execution_rotl_shl, interleaved_execution_clz_and,
    interleaved_execution_ctz_xor, interleaved_execution_mul_add, interleaved_execution_popcnt_or,
    interleaved_execution_rotl_shl, measure_wasm_port_contention, run_all_wasm_benchmarks,
    wasm_fingerprint_of, wasm_label,
};

verus! {

/// Scale of contention ratios: a ratio of 1.0 is stored as 10000.
pub const RATIO_SCALE: u64 = 10000;

/// Installs a panic hook for host environments that want one; the default
/// build keeps panics on the standard handler, so there is nothing to do.
pub fn set_panic_hook() {
}

} // verus!
