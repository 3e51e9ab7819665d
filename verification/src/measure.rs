//! The contention measurer: times each workload pair in both orders over
//! repeated trials, reduces the two series to medians, and forms the
//! contention ratio.

use vstd::prelude::*;
use vstd::string::*;
use crate::clock::{clock_now, nanos_since};
use crate::stats::{median_doubled, sort_u64, spec_median_doubled};
use crate::workloads::{
    cpu_pause, execute_branch_grouped, execute_branch_pattern_interleaved, execute_div_grouped,
    execute_div_mul_interleaved, execute_memory_fence_interleaved, execute_memory_pattern_grouped,
    execute_mul_add_interleaved, execute_mul_grouped, execute_shift_grouped,
    execute_shift_xor_interleaved, run_warmup, spec_branch_grouped, spec_branch_interleaved,
    spec_div_grouped, spec_div_mul_interleaved, spec_memory_fence_interleaved, spec_memory_grouped,
    spec_mul_add_interleaved, spec_mul_grouped, spec_shift_grouped, spec_shift_xor_interleaved,
    spec_warmup_value,
};
use crate::RATIO_SCALE;

verus! {

/// Failures of the measurement harness.
///
/// `ClockUnavailable` is raised by hosts that cannot supply a monotonic
/// timer (no function of this library produces it; callers that wrap their
/// own clock report it). `OptimizedAway` reports a workload or warm-up chain
/// that collapsed to the sentinel value 0, the sign of a computation the
/// optimizer has elided.
#[derive(Clone, Copy, Debug, PartialEq, Eq, Structural)]
pub enum BenchError {
    ClockUnavailable,
    OptimizedAway,
}

/// Tunable sizes of a measurement run. The defaults trade precision for
/// speed the same way on every host; tests use smaller values.
#[derive(Clone, Copy, Debug, PartialEq, Eq, Structural)]
pub struct MeasureConfig {
    /// Chain steps per trial (split between the two instruction classes).
    pub iterations: u32,
    /// Number of timed trials per order; the median over trials is kept.
    pub trials: u32,
    /// Untimed rounds run once before measuring, to stabilize caches and
    /// dynamic frequency.
    pub warmup_rounds: u32,
}

impl MeasureConfig {
    /// The production configuration.
    pub fn standard() -> (c: MeasureConfig)
        ensures
            c.iterations == 100000,
            c.trials == 10,
            c.warmup_rounds == 1000,
    {
        MeasureConfig { iterations: 100000, trials: 10, warmup_rounds: 1000 }
    }
}

/// The fixed registry of instruction pairs the measurer knows, in the order
/// they enter the canonical fingerprint string.
#[derive(Clone, Copy, Debug, PartialEq, Eq, Structural)]
pub enum WorkloadPair {
    MulAdd,
    DivMul,
    ShiftXor,
    BranchStress,
    MemoryFence,
}

/// The name under which a pair appears in the canonical string.
pub open spec fn spec_pair_name(p: WorkloadPair) -> Seq<char> {
    match p {
        WorkloadPair::MulAdd => "mul_add"@,
        WorkloadPair::DivMul => "div_mul"@,
        WorkloadPair::ShiftXor => "shift_xor"@,
        WorkloadPair::BranchStress => "branch_stress"@,
        WorkloadPair::MemoryFence => "memory_fence"@,
    }
}

impl WorkloadPair {
    pub fn name(&self) -> (s: &'static str)
        ensures
            s@ == spec_pair_name(*self),
            s.is_ascii(),
    {
        proof {
            reveal_strlit("mul_add");
            reveal_strlit("div_mul");
            reveal_strlit("shift_xor");
            reveal_strlit("branch_stress");
            reveal_strlit("memory_fence");
        }
        match self {
            WorkloadPair::MulAdd => "mul_add",
            WorkloadPair::DivMul => "div_mul",
            WorkloadPair::ShiftXor => "shift_xor",
            WorkloadPair::BranchStress => "branch_stress",
            WorkloadPair::MemoryFence => "memory_fence",
        }
    }
}

/// The grouped-order chain value of a pair, as a function of the iteration
/// count alone.
pub open spec fn spec_grouped_result(p: WorkloadPair, iterations: u32) -> u32 {
    match p {
        WorkloadPair::MulAdd => spec_mul_grouped(iterations),
        WorkloadPair::DivMul => spec_div_grouped(iterations),
        WorkloadPair::ShiftXor => spec_shift_grouped(iterations),
        WorkloadPair::BranchStress => spec_branch_grouped(iterations),
        WorkloadPair::MemoryFence => spec_memory_grouped(iterations),
    }
}

/// The interleaved-order chain value of a pair.
pub open spec fn spec_interleaved_result(p: WorkloadPair, iterations: u32) -> u32 {
    match p {
        WorkloadPair::MulAdd => spec_mul_add_interleaved(iterations),
        WorkloadPair::DivMul => spec_div_mul_interleaved(iterations),
        WorkloadPair::ShiftXor => spec_shift_xor_interleaved(iterations),
        WorkloadPair::BranchStress => spec_branch_interleaved(iterations),
        WorkloadPair::MemoryFence => spec_memory_fence_interleaved(iterations),
    }
}

/// Runs the grouped order of `p` once.
pub(crate) fn run_grouped(p: WorkloadPair, iterations: u32) -> (r: u32)
    ensures
        r == spec_grouped_result(p, iterations),
{
    match p {
        WorkloadPair::MulAdd => execute_mul_grouped(iterations),
        WorkloadPair::DivMul => execute_div_grouped(iterations),
        WorkloadPair::ShiftXor => execute_shift_grouped(iterations),
        WorkloadPair::BranchStress => execute_branch_grouped(iterations),
        WorkloadPair::MemoryFence => execute_memory_pattern_grouped(iterations),
    }
}

/// Runs the interleaved order of `p` once.
pub(crate) fn run_interleaved(p: WorkloadPair, iterations: u32) -> (r: u32)
    ensures
        r == spec_interleaved_result(p, iterations),
{
    match p {
        WorkloadPair::MulAdd => execute_mul_add_interleaved(iterations),
        WorkloadPair::DivMul => execute_div_mul_interleaved(iterations),
        WorkloadPair::ShiftXor => execute_shift_xor_interleaved(iterations),
        WorkloadPair::BranchStress => execute_branch_pattern_interleaved(iterations),
        WorkloadPair::MemoryFence => execute_memory_fence_interleaved(iterations),
    }
}

/// Relies on std::hint::black_box: an identity the optimizer must treat as
/// opaque. Every measured chain value is fed through it so the timed code
/// cannot be folded away.
#[verifier::external_body]
fn consume_result(x: u32) {
    let _ = std::hint::black_box(x);
}

/// The registry in canonical order.
pub fn workload_registry() -> (v: Vec<WorkloadPair>)
    ensures
        v@ == seq![
            WorkloadPair::MulAdd,
            WorkloadPair::DivMul,
            WorkloadPair::ShiftXor,
            WorkloadPair::BranchStress,
            WorkloadPair::MemoryFence,
        ],
{
    let mut v: Vec<WorkloadPair> = Vec::new();
    v.push(WorkloadPair::MulAdd);
    v.push(WorkloadPair::DivMul);
    v.push(WorkloadPair::ShiftXor);
    v.push(WorkloadPair::BranchStress);
    v.push(WorkloadPair::MemoryFence);
    proof {
        assert(v@ =~= seq![
            WorkloadPair::MulAdd,
            WorkloadPair::DivMul,
            WorkloadPair::ShiftXor,
            WorkloadPair::BranchStress,
            WorkloadPair::MemoryFence,
        ]);
    }
    v
}

/// `x` clamped into the 64-bit range.
pub open spec fn sat64(x: int) -> u64 {
    if x > u64::MAX {
        u64::MAX
    } else if x < 0 {
        0
    } else {
        x as u64
    }
}

/// The contention ratio of two median timings, scaled by `RATIO_SCALE`.
///
/// A zero grouped median means the series carried no signal; the ratio is
/// then defined as exactly 1 rather than propagating a division by zero.
pub open spec fn spec_ratio(grouped: u64, interleaved: u64) -> u64 {
    if grouped == 0 {
        RATIO_SCALE
    } else {
        sat64(interleaved as int * RATIO_SCALE as int / grouped as int)
    }
}

/// Outcome of measuring one instruction pair.
///
/// Times are twice the median of the trial series, in nanoseconds (the
/// doubling keeps an even-length median exact; the ratio is unaffected
/// because both timings carry it). `ratio_rho` is the contention ratio
/// interleaved/grouped scaled by `RATIO_SCALE`.
#[derive(Clone, Debug)]
pub struct ContentionResult {
    pub instruction_pair: String,
    pub grouped_time: u64,
    pub interleaved_time: u64,
    pub ratio_rho: u64,
}

/// What every well-formed measurement satisfies: the ratio is derived from
/// the two stored timings by `spec_ratio`.
pub open spec fn result_wf(r: ContentionResult) -> bool {
    r.ratio_rho == spec_ratio(r.grouped_time, r.interleaved_time)
}

/// Reduces two series of trial timings (nanoseconds) to a measurement:
/// each series becomes its median (doubled, saturated to 64 bits) and the
/// ratio is computed from the two medians.
///
/// This is the statistics half of a measurement; callers that time their
/// own workloads hand their series in here.
pub fn reduce_trials(name: &str, grouped_ns: &Vec<u64>, interleaved_ns: &Vec<u64>) -> (r:
    ContentionResult)
    requires
        grouped_ns@.len() > 0,
        interleaved_ns@.len() > 0,
    ensures
        r.instruction_pair@ == name@,
        r.grouped_time == sat64(spec_median_doubled(sort_u64(grouped_ns@))),
        r.interleaved_time == sat64(spec_median_doubled(sort_u64(interleaved_ns@))),
        result_wf(r),
{
    let g2 = median_doubled(grouped_ns);
    let i2 = median_doubled(interleaved_ns);
    let g: u64 = if g2 > u64::MAX as u128 {
        u64::MAX
    } else {
        g2 as u64
    };
    let i: u64 = if i2 > u64::MAX as u128 {
        u64::MAX
    } else {
        i2 as u64
    };
    let ratio: u64 = if g == 0 {
        RATIO_SCALE
    } else {
        proof {
            assert(i as int * RATIO_SCALE as int <= u64::MAX as int * RATIO_SCALE as int)
                by (nonlinear_arith)
                requires
                    i <= u64::MAX,
            ;
        }
        let wide = (i as u128) * (RATIO_SCALE as u128) / (g as u128);
        if wide > u64::MAX as u128 {
            u64::MAX
        } else {
            wide as u64
        }
    };
    ContentionResult {
        instruction_pair: String::from_str(name),
        grouped_time: g,
        interleaved_time: i,
        ratio_rho: ratio,
    }
}

/// Runs the warm-up chain and checks it against the sentinel.
///
/// Fails with `OptimizedAway` exactly when the chain value after
/// `rounds` steps is 0, the sign that the computation was elided.
pub fn warmup(rounds: u32) -> (r: Result<(), BenchError>)
    ensures
        r is Ok <==> spec_warmup_value(rounds as nat) != 0,
        r is Err ==> r->Err_0 == BenchError::OptimizedAway,
{
    let dummy = run_warmup(rounds);
    if dummy == 0 {
        Err(BenchError::OptimizedAway)
    } else {
        Ok(())
    }
}

/// Times `config.trials` rounds of one pair in both orders and reduces the
/// series. The clock values are the host's; whatever they are, the stored
/// ratio is derived from the stored medians by `spec_ratio`, and the result
/// carries the pair's canonical name.
pub fn measure_contention_pair(pair: WorkloadPair, config: &MeasureConfig) -> (r: ContentionResult)
    requires
        config.trials > 0,
    ensures
        r.instruction_pair@ == spec_pair_name(pair),
        result_wf(r),
{
    let mut grouped_times: Vec<u64> = Vec::new();
    let mut interleaved_times: Vec<u64> = Vec::new();
    let mut t: u32 = 0;
    while t < config.trials
        invariant
            grouped_times@.len() == t,
            interleaved_times@.len() == t,
            t <= config.trials,
        decreases config.trials - t,
    {
        let start = clock_now();
        let g_value = run_grouped(pair, config.iterations);
        let g_ns = nanos_since(&start);
        consume_result(g_value);
        grouped_times.push(g_ns);

        cpu_pause();

        let start2 = clock_now();
        let i_value = run_interleaved(pair, config.iterations);
        let i_ns = nanos_since(&start2);
        consume_result(i_value);
        interleaved_times.push(i_ns);

        cpu_pause();
        t = t + 1;
    }
    reduce_trials(pair.name(), &grouped_times, &interleaved_times)
}

} // verus!
