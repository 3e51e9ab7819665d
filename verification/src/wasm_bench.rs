//! The instruction-set benchmark pairs: chains over single machine
//! instructions (population count, leading/trailing zero count, rotation,
//! shift, multiply, add) that compile to one predictable opcode each, run
//! grouped and interleaved, measured and digested like the main registry.
//!
//! Unlike the main registry, this set reduces each timing series to its
//! upper-middle element after sorting, and its canonical string has no
//! normalized-timing section.

use vstd::prelude::*;
use vstd::string::*;
use vstd::utf8::encode_utf8;
use crate::category::{spec_categorize, ContentionCategory, categorize_ratio};
use crate::clock::{clock_now, nanos_since};
use crate::digest::{sha256_of, sha256_hex, spec_hex_chars};
use crate::fmt::{push_ratio, spec_ratio_bytes};
use crate::measure::spec_ratio;
use crate::stats::{sort_u64, sorted_copy};
use crate::workloads::iter64;

verus! {

/// The number of one bits of `x`.
pub open spec fn ones64(x: u64) -> int
    decreases x,
{
    if x == 0 {
        0
    } else {
        x % 2 + ones64(x / 2)
    }
}

/// Relies on u64::count_ones: the number of one bits of the argument.
pub assume_specification[ u64::count_ones ](x: u64) -> (r: u32)
    ensures
        r == ones64(x),
;

/// Guard a chain value away from collapsing to zero.
pub open spec fn at_least_1(x: u64) -> u64 {
    if x < 1 {
        1
    } else {
        x
    }
}

pub open spec fn pop_step(x: u64) -> u64 {
    ones64(x) as u64
}

pub open spec fn or_step(x: u64) -> u64 {
    x | 0xDEADBEEF
}

pub open spec fn clz_step(x: u64) -> u64 {
    at_least_1(u64_leading_zeros_u64(x))
}

/// The leading-zero count as a 64-bit value.
pub open spec fn u64_leading_zeros_u64(x: u64) -> u64 {
    vstd::std_specs::bits::u64_leading_zeros(x) as u64
}

pub open spec fn and_step(x: u64) -> u64 {
    at_least_1(x & 0xCAFEBABE)
}

pub open spec fn ctz_step(x: u64) -> u64 {
    at_least_1(vstd::std_specs::bits::u64_trailing_zeros(x) as u64)
}

pub open spec fn xor64_step(x: u64) -> u64 {
    x ^ 0xABCDEF01
}

pub open spec fn rotl7_step(x: u64) -> u64 {
    (x << 7) | (x >> 57)
}

pub open spec fn shl_step(x: u64) -> u64 {
    (x << 3) | 1
}

pub open spec fn mul64_step(x: u64) -> u64 {
    vstd::wrapping::u64_specs::wrapping_mul(x, 3)
}

pub open spec fn add64_step(x: u64) -> u64 {
    vstd::wrapping::u64_specs::wrapping_add(x, 7)
}

/// The low 32 bits, the part of a chain value that the benchmark reports.
pub open spec fn spec_low32(x: u64) -> u32 {
    (x & 0xFFFFFFFF) as u32
}

/// Truncates a chain value to its reported low 32 bits.
fn low32(x: u64) -> (r: u32)
    ensures
        r == spec_low32(x),
{
    proof {
        assert(x & 0xFFFFFFFF <= 0xFFFFFFFF) by (bit_vector);
    }
    (x & 0xFFFFFFFF) as u32
}

pub open spec fn spec_grouped_popcnt_or(iterations: u32) -> u32 {
    let n = iterations as nat;
    spec_low32(iter64(|x: u64| or_step(x), iter64(|x: u64| pop_step(x), 1u64, n), n))
}

pub open spec fn spec_interleaved_popcnt_or(iterations: u32) -> u32 {
    spec_low32(iter64(|x: u64| or_step(pop_step(x)), 1u64, iterations as nat))
}

pub open spec fn spec_grouped_clz_and(iterations: u32) -> u32 {
    let n = iterations as nat;
    spec_low32(iter64(|x: u64| and_step(x), iter64(|x: u64| clz_step(x), 0xFFFFFFFF, n), n))
}

pub open spec fn spec_interleaved_clz_and(iterations: u32) -> u32 {
    spec_low32(iter64(|x: u64| and_step(clz_step(x)), 0xFFFFFFFF, iterations as nat))
}

pub open spec fn spec_grouped_ctz_xor(iterations: u32) -> u32 {
    let n = iterations as nat;
    spec_low32(iter64(|x: u64| xor64_step(x), iter64(|x: u64| ctz_step(x), 0x12345678, n), n))
}

pub open spec fn spec_interleaved_ctz_xor(iterations: u32) -> u32 {
    spec_low32(iter64(|x: u64| xor64_step(ctz_step(x)), 0x12345678, iterations as nat))
}

pub open spec fn spec_grouped_rotl_shl(iterations: u32) -> u32 {
    let n = iterations as nat;
    spec_low32(iter64(|x: u64| shl_step(x), iter64(|x: u64| rotl7_step(x), 0xDEADBEEF, n), n))
}

pub open spec fn spec_interleaved_rotl_shl(iterations: u32) -> u32 {
    spec_low32(iter64(|x: u64| shl_step(rotl7_step(x)), 0xDEADBEEF, iterations as nat))
}

pub open spec fn spec_grouped_mul_add(iterations: u32) -> u32 {
    let n = iterations as nat;
    spec_low32(iter64(|x: u64| add64_step(x), iter64(|x: u64| mul64_step(x), 1u64, n), n))
}

pub open spec fn spec_interleaved_mul_add(iterations: u32) -> u32 {
    spec_low32(iter64(|x: u64| add64_step(mul64_step(x)), 1u64, iterations as nat))
}

/// Grouped order: all population counts, then all bitwise ors.
pub fn grouped_execution_popcnt_or(iterations: u32) -> (r: u32)
    ensures
        r == spec_grouped_popcnt_or(iterations),
{
    let mut val: u64 = 1;
    let mut i: u32 = 0;
    while i < iterations
        invariant
            i <= iterations,
            val == iter64(|x: u64| pop_step(x), 1u64, i as nat),
        decreases iterations - i,
    {
        val = val.count_ones() as u64;
        i = i + 1;
    }
    let ghost mid = val;
    let mut j: u32 = 0;
    while j < iterations
        invariant
            j <= iterations,
            val == iter64(|x: u64| or_step(x), mid, j as nat),
            mid == iter64(|x: u64| pop_step(x), 1u64, iterations as nat),
        decreases iterations - j,
    {
        val = val | 0xDEADBEEF;
        j = j + 1;
    }
    low32(val)
}

/// Interleaved order: population count and bitwise or alternate.
pub fn interleaved_execution_popcnt_or(iterations: u32) -> (r: u32)
    ensures
        r == spec_interleaved_popcnt_or(iterations),
{
    let mut val: u64 = 1;
    let mut i: u32 = 0;
    while i < iterations
        invariant
            i <= iterations,
            val == iter64(|x: u64| or_step(pop_step(x)), 1u64, i as nat),
        decreases iterations - i,
    {
        val = val.count_ones() as u64;
        val = val | 0xDEADBEEF;
        i = i + 1;
    }
    low32(val)
}

/// Grouped order: all leading-zero counts, then all bitwise ands.
pub fn grouped_execution_clz_and(iterations: u32) -> (r: u32)
    ensures
        r == spec_grouped_clz_and(iterations),
{
    let mut val: u64 = 0xFFFFFFFF;
    let mut i: u32 = 0;
    while i < iterations
        invariant
            i <= iterations,
            val == iter64(|x: u64| clz_step(x), 0xFFFFFFFF, i as nat),
        decreases iterations - i,
    {
        let z = val.leading_zeros();
        val = z as u64;
        if val < 1 {
            val = 1;
        }
        i = i + 1;
    }
    let ghost mid = val;
    let mut j: u32 = 0;
    while j < iterations
        invariant
            j <= iterations,
            val == iter64(|x: u64| and_step(x), mid, j as nat),
            mid == iter64(|x: u64| clz_step(x), 0xFFFFFFFF, iterations as nat),
        decreases iterations - j,
    {
        val = val & 0xCAFEBABE;
        if val < 1 {
            val = 1;
        }
        j = j + 1;
    }
    low32(val)
}

/// Interleaved order: leading-zero count and bitwise and alternate.
pub fn interleaved_execution_clz_and(iterations: u32) -> (r: u32)
    ensures
        r == spec_interleaved_clz_and(iterations),
{
    let mut val: u64 = 0xFFFFFFFF;
    let mut i: u32 = 0;
    while i < iterations
        invariant
            i <= iterations,
            val == iter64(|x: u64| and_step(clz_step(x)), 0xFFFFFFFF, i as nat),
        decreases iterations - i,
    {
        let z = val.leading_zeros();
        val = z as u64;
        if val < 1 {
            val = 1;
        }
        val = val & 0xCAFEBABE;
        if val < 1 {
            val = 1;
        }
        i = i + 1;
    }
    low32(val)
}

/// Grouped order: all trailing-zero counts, then all exclusive-ors.
pub fn grouped_execution_ctz_xor(iterations: u32) -> (r: u32)
    ensures
        r == spec_grouped_ctz_xor(iterations),
{
    let mut val: u64 = 0x12345678;
    let mut i: u32 = 0;
    while i < iterations
        invariant
            i <= iterations,
            val == iter64(|x: u64| ctz_step(x), 0x12345678, i as nat),
        decreases iterations - i,
    {
        val = val.trailing_zeros() as u64;
        if val < 1 {
            val = 1;
        }
        i = i + 1;
    }
    let ghost mid = val;
    let mut j: u32 = 0;
    while j < iterations
        invariant
            j <= iterations,
            val == iter64(|x: u64| xor64_step(x), mid, j as nat),
            mid == iter64(|x: u64| ctz_step(x), 0x12345678, iterations as nat),
        decreases iterations - j,
    {
        val = val ^ 0xABCDEF01;
        j = j + 1;
    }
    low32(val)
}

/// Interleaved order: trailing-zero count and exclusive-or alternate.
pub fn interleaved_execution_ctz_xor(iterations: u32) -> (r: u32)
    ensures
        r == spec_interleaved_ctz_xor(iterations),
{
    let mut val: u64 = 0x12345678;
    let mut i: u32 = 0;
    while i < iterations
        invariant
            i <= iterations,
            val == iter64(|x: u64| xor64_step(ctz_step(x)), 0x12345678, i as nat),
        decreases iterations - i,
    {
        val = val.trailing_zeros() as u64;
        if val < 1 {
            val = 1;
        }
        val = val ^ 0xABCDEF01;
        i = i + 1;
    }
    low32(val)
}

/// Grouped order: all rotations, then all shifts.
pub fn grouped_execution_rotl_shl(iterations: u32) -> (r: u32)
    ensures
        r == spec_grouped_rotl_shl(iterations),
{
    let mut val: u64 = 0xDEADBEEF;
    let mut i: u32 = 0;
    while i < iterations
        invariant
            i <= iterations,
            val == iter64(|x: u64| rotl7_step(x), 0xDEADBEEF, i as nat),
        decreases iterations - i,
    {
        val = (val << 7) | (val >> 57);
        i = i + 1;
    }
    let ghost mid = val;
    let mut j: u32 = 0;
    while j < iterations
        invariant
            j <= iterations,
            val == iter64(|x: u64| shl_step(x), mid, j as nat),
            mid == iter64(|x: u64| rotl7_step(x), 0xDEADBEEF, iterations as nat),
        decreases iterations - j,
    {
        val = (val << 3) | 1;
        j = j + 1;
    }
    low32(val)
}

/// Interleaved order: rotation and shift alternate.
pub fn interleaved_execution_rotl_shl(iterations: u32) -> (r: u32)
    ensures
        r == spec_interleaved_rotl_shl(iterations),
{
    let mut val: u64 = 0xDEADBEEF;
    let mut i: u32 = 0;
    while i < iterations
        invariant
            i <= iterations,
            val == iter64(|x: u64| shl_step(rotl7_step(x)), 0xDEADBEEF, i as nat),
        decreases iterations - i,
    {
        val = (val << 7) | (val >> 57);
        val = (val << 3) | 1;
        i = i + 1;
    }
    low32(val)
}

/// Grouped order: all multiplications, then all additions.
pub fn grouped_execution_mul_add(iterations: u32) -> (r: u32)
    ensures
        r == spec_grouped_mul_add(iterations),
{
    let mut val: u64 = 1;
    let mut i: u32 = 0;
    while i < iterations
        invariant
            i <= iterations,
            val == iter64(|x: u64| mul64_step(x), 1u64, i as nat),
        decreases iterations - i,
    {
        val = val.wrapping_mul(3);
        i = i + 1;
    }
    let ghost mid = val;
    let mut j: u32 = 0;
    while j < iterations
        invariant
            j <= iterations,
            val == iter64(|x: u64| add64_step(x), mid, j as nat),
            mid == iter64(|x: u64| mul64_step(x), 1u64, iterations as nat),
        decreases iterations - j,
    {
        val = val.wrapping_add(7);
        j = j + 1;
    }
    low32(val)
}

/// Interleaved order: multiplication and addition alternate.
pub fn interleaved_execution_mul_add(iterations: u32) -> (r: u32)
    ensures
        r == spec_interleaved_mul_add(iterations),
{
    let mut val: u64 = 1;
    let mut i: u32 = 0;
    while i < iterations
        invariant
            i <= iterations,
            val == iter64(|x: u64| add64_step(mul64_step(x)), 1u64, i as nat),
        decreases iterations - i,
    {
        val = val.wrapping_mul(3);
        val = val.wrapping_add(7);
        i = i + 1;
    }
    low32(val)
}

// ---------------------------------------------------------------------------
// Measurement and fingerprint of the instruction-set pairs.
// ---------------------------------------------------------------------------

/// Chain steps per trial in a production run.
pub const WASM_DEFAULT_ITERATIONS: u32 = 100000;

/// Timed trials per order; the upper median over trials is kept.
pub const WASM_NUM_RUNS: u32 = 5;

/// Marker for the instruction-set benchmark suite.
pub struct WasmPortBenchmark;

/// The benchmarked instruction pairs of this suite.
#[derive(Clone, Copy, Debug, PartialEq, Eq, Structural)]
pub enum WasmPair {
    PopcntOr,
    ClzAnd,
    CtzXor,
    RotlShl,
    MulAdd,
}

/// The name under which a pair appears in the canonical string.
pub open spec fn spec_wasm_pair_name(p: WasmPair) -> Seq<char> {
    match p {
        WasmPair::PopcntOr => "popcnt_or"@,
        WasmPair::ClzAnd => "clz_and"@,
        WasmPair::CtzXor => "ctz_xor"@,
        WasmPair::RotlShl => "rotl_shl"@,
        WasmPair::MulAdd => "mul_add"@,
    }
}

impl WasmPair {
    pub fn name(&self) -> (s: &'static str)
        ensures
            s@ == spec_wasm_pair_name(*self),
    {
        match self {
            WasmPair::PopcntOr => "popcnt_or",
            WasmPair::ClzAnd => "clz_and",
            WasmPair::CtzXor => "ctz_xor",
            WasmPair::RotlShl => "rotl_shl",
            WasmPair::MulAdd => "mul_add",
        }
    }
}

/// Outcome of one instruction-set measurement. Times are in nanoseconds,
/// the upper median of the trial series; `ratio` is interleaved/grouped
/// scaled by `RATIO_SCALE`.
#[derive(Clone, Debug)]
pub struct WasmBenchmarkResult {
    pub instruction_pair: String,
    pub grouped_time: u64,
    pub interleaved_time: u64,
    pub ratio: u64,
    pub iterations: u32,
}

/// Every well-formed result derives its ratio from its stored timings.
pub open spec fn wasm_result_wf(r: WasmBenchmarkResult) -> bool {
    r.ratio == spec_ratio(r.grouped_time, r.interleaved_time)
}

/// The upper median of a series: the element at index `len / 2` after
/// sorting (for odd lengths the middle, for even lengths the upper of the
/// two middles).
pub open spec fn spec_upper_median(s: Seq<u64>) -> u64
    recommends
        s.len() > 0,
{
    sort_u64(s)[s.len() as int / 2]
}

/// The upper median of a series of timings.
fn upper_median(values: &Vec<u64>) -> (m: u64)
    requires
        values@.len() > 0,
    ensures
        m == spec_upper_median(values@),
{
    let s = sorted_copy(values);
    s[s.len() / 2]
}

/// Runs the grouped order of `p` once.
fn run_wasm_grouped(p: WasmPair, iterations: u32) -> (r: u32)
{
    match p {
        WasmPair::PopcntOr => grouped_execution_popcnt_or(iterations),
        WasmPair::ClzAnd => grouped_execution_clz_and(iterations),
        WasmPair::CtzXor => grouped_execution_ctz_xor(iterations),
        WasmPair::RotlShl => grouped_execution_rotl_shl(iterations),
        WasmPair::MulAdd => grouped_execution_mul_add(iterations),
    }
}

/// Runs the interleaved order of `p` once.
fn run_wasm_interleaved(p: WasmPair, iterations: u32) -> (r: u32)
{
    match p {
        WasmPair::PopcntOr => interleaved_execution_popcnt_or(iterations),
        WasmPair::ClzAnd => interleaved_execution_clz_and(iterations),
        WasmPair::CtzXor => interleaved_execution_ctz_xor(iterations),
        WasmPair::RotlShl => interleaved_execution_rotl_shl(iterations),
        WasmPair::MulAdd => interleaved_execution_mul_add(iterations),
    }
}

/// A short addition chain separating two measurements; its end value is
/// bounded, so it provably never reaches the optimized-away sentinel.
fn settle_pause()
{
    let mut dummy: u32 = 0;
    let mut i: u32 = 0;
    while i < 100
        invariant
            i <= 100,
            dummy <= 100 * i,
        decreases 100 - i,
    {
        dummy = dummy.wrapping_add(i);
        i = i + 1;
    }
    assert(dummy < u32::MAX);
}

/// Times `WASM_NUM_RUNS` trials of one instruction pair in both orders and
/// reduces each series to its upper median. Whatever times the clock hands
/// back, the stored ratio is derived from the stored medians, and the
/// result carries the pair's canonical name and the iteration count.
pub fn measure_wasm_port_contention(pair: WasmPair, iterations: u32) -> (r: WasmBenchmarkResult)
    ensures
        r.instruction_pair@ == spec_wasm_pair_name(pair),
        r.iterations == iterations,
        wasm_result_wf(r),
{
    let mut w: u32 = 0;
    while w < 10
        decreases 10 - w,
    {
        let _g = run_wasm_grouped(pair, 100);
        let _i = run_wasm_interleaved(pair, 100);
        w = w + 1;
    }

    let mut grouped_times: Vec<u64> = Vec::new();
    let mut interleaved_times: Vec<u64> = Vec::new();
    let mut t: u32 = 0;
    while t < WASM_NUM_RUNS
        invariant
            grouped_times@.len() == t,
            interleaved_times@.len() == t,
            t <= WASM_NUM_RUNS,
        decreases WASM_NUM_RUNS - t,
    {
        let start = clock_now();
        let _g = run_wasm_grouped(pair, iterations);
        grouped_times.push(nanos_since(&start));

        settle_pause();

        let start2 = clock_now();
        let _i = run_wasm_interleaved(pair, iterations);
        interleaved_times.push(nanos_since(&start2));
        t = t + 1;
    }

    let g = upper_median(&grouped_times);
    let iv = upper_median(&interleaved_times);
    let ratio: u64 = if g == 0 {
        crate::RATIO_SCALE
    } else {
        proof {
            assert(iv as int * crate::RATIO_SCALE as int <= u64::MAX as int
                * crate::RATIO_SCALE as int) by (nonlinear_arith)
                requires
                    iv <= u64::MAX,
            ;
        }
        let wide = (iv as u128) * (crate::RATIO_SCALE as u128) / (g as u128);
        if wide > u64::MAX as u128 {
            u64::MAX
        } else {
            wide as u64
        }
    };
    WasmBenchmarkResult {
        instruction_pair: String::from_str(pair.name()),
        grouped_time: g,
        interleaved_time: iv,
        ratio,
        iterations,
    }
}

/// The suite in canonical order.
pub open spec fn spec_wasm_suite() -> Seq<WasmPair> {
    seq![WasmPair::PopcntOr, WasmPair::ClzAnd, WasmPair::CtzXor, WasmPair::RotlShl, WasmPair::MulAdd]
}

/// A result sequence is well-formed when it holds one result per suite
/// pair, in order, each deriving its ratio from its timings.
pub open spec fn wasm_results_wf(rs: Seq<WasmBenchmarkResult>) -> bool {
    &&& rs.len() == spec_wasm_suite().len()
    &&& forall|i: int|
        0 <= i < rs.len() ==> (#[trigger] rs[i]).instruction_pair@ == spec_wasm_pair_name(
            spec_wasm_suite()[i],
        ) && wasm_result_wf(rs[i])
}

/// Every result of the sequence ran at the production iteration count.
pub open spec fn wasm_suite_production(rs: Seq<WasmBenchmarkResult>) -> bool {
    forall|i: int| 0 <= i < rs.len() ==> (#[trigger] rs[i]).iterations == WASM_DEFAULT_ITERATIONS
}

/// Measures every pair of the suite at the production iteration count.
pub fn run_all_wasm_benchmarks() -> (rs: Vec<WasmBenchmarkResult>)
    ensures
        wasm_results_wf(rs@),
        wasm_suite_production(rs@),
{
    let mut rs: Vec<WasmBenchmarkResult> = Vec::new();
    rs.push(measure_wasm_port_contention(WasmPair::PopcntOr, WASM_DEFAULT_ITERATIONS));
    rs.push(measure_wasm_port_contention(WasmPair::ClzAnd, WASM_DEFAULT_ITERATIONS));
    rs.push(measure_wasm_port_contention(WasmPair::CtzXor, WASM_DEFAULT_ITERATIONS));
    rs.push(measure_wasm_port_contention(WasmPair::RotlShl, WASM_DEFAULT_ITERATIONS));
    rs.push(measure_wasm_port_contention(WasmPair::MulAdd, WASM_DEFAULT_ITERATIONS));
    proof {
        assert(wasm_results_wf(rs@));
        assert(wasm_suite_production(rs@));
    }
    rs
}

/// The label a category prints as in this suite's canonical string.
pub open spec fn spec_wasm_label(c: ContentionCategory) -> Seq<char> {
    match c {
        ContentionCategory::HighParallelism => "parallel"@,
        ContentionCategory::NoContention => "neutral"@,
        ContentionCategory::CacheBeneficial => "sequential"@,
    }
}

/// The printable label of a category in this suite.
pub fn wasm_label(c: ContentionCategory) -> (s: &'static str)
    ensures
        s@ == spec_wasm_label(c),
{
    match c {
        ContentionCategory::HighParallelism => "parallel",
        ContentionCategory::NoContention => "neutral",
        ContentionCategory::CacheBeneficial => "sequential",
    }
}

/// The canonical entry of one result: `{name}:{category}:{ratio}|`.
pub open spec fn spec_wasm_entry(r: WasmBenchmarkResult) -> Seq<u8> {
    encode_utf8(r.instruction_pair@) + seq![0x3au8] + encode_utf8(
        spec_wasm_label(spec_categorize(r.ratio)),
    ) + seq![0x3au8] + spec_ratio_bytes(r.ratio) + seq![0x7cu8]
}

/// The canonical string over the first `n` results.
pub open spec fn spec_wasm_canonical_prefix(rs: Seq<WasmBenchmarkResult>, n: int) -> Seq<u8>
    decreases n,
{
    if n <= 0 {
        Seq::empty()
    } else {
        spec_wasm_canonical_prefix(rs, n - 1) + spec_wasm_entry(rs[n - 1])
    }
}

/// The canonical byte string of a result sequence.
pub open spec fn spec_wasm_canonical(rs: Seq<WasmBenchmarkResult>) -> Seq<u8> {
    spec_wasm_canonical_prefix(rs, rs.len() as int)
}

/// The fingerprint of a result sequence: the hex SHA-256 digest of its
/// canonical string.
pub open spec fn spec_wasm_fingerprint(rs: Seq<WasmBenchmarkResult>) -> Seq<char> {
    spec_hex_chars(sha256_of(spec_wasm_canonical(rs)))
}

/// Digests a sequence of instruction-set results into a fingerprint:
/// a function of the measured values alone.
pub fn wasm_fingerprint_of(results: &Vec<WasmBenchmarkResult>) -> (fp: String)
    ensures
        fp@ == spec_wasm_fingerprint(results@),
        fp@.len() == 64,
{
    let mut buf: Vec<u8> = Vec::new();
    let n = results.len();
    let mut i: usize = 0;
    while i < n
        invariant
            i <= n,
            n == results@.len(),
            buf@ == spec_wasm_canonical_prefix(results@, i as int),
        decreases n - i,
    {
        let r = &results[i];
        buf.extend_from_slice(r.instruction_pair.as_str().as_bytes());
        buf.push(0x3a);
        let cat = categorize_ratio(r.ratio);
        buf.extend_from_slice(wasm_label(cat).as_bytes());
        buf.push(0x3a);
        push_ratio(&mut buf, r.ratio);
        buf.push(0x7c);
        proof {
            assert(buf@ =~= spec_wasm_canonical_prefix(results@, i + 1));
        }
        i = i + 1;
    }
    sha256_hex(&buf)
}

/// Measures the whole suite at production size and digests the results.
pub fn generate_wasm_fingerprint() -> (fp: String)
    ensures
        fp@.len() == 64,
        exists|rs: Seq<WasmBenchmarkResult>|
            wasm_results_wf(rs) && wasm_suite_production(rs) && fp@ == spec_wasm_fingerprint(rs),
{
    let results = run_all_wasm_benchmarks();
    let fp = wasm_fingerprint_of(&results);
    proof {
        assert(wasm_results_wf(results@) && wasm_suite_production(results@) && fp@
            == spec_wasm_fingerprint(results@));
    }
    fp
}

} // verus!
