//! Pure, data-dependent instruction chains for the port-contention benchmark.
//!
//! Each workload pair executes the same multiset of instructions in two
//! orders: *grouped* (all of instruction class A, then all of class B) and
//! *interleaved* (A,B,A,B,...). Every step feeds on the previous step's
//! output, so the chains cannot be folded away, and each function's contract
//! pins its result to a spec-level recurrence: the same iteration count
//! always produces the same value.

use vstd::prelude::*;

verus! {

/// `f` applied `n` times to `x`.
pub open spec fn iter32(f: spec_fn(u32) -> u32, x: u32, n: nat) -> u32
    decreases n,
{
    if n == 0 {
        x
    } else {
        f(iter32(f, x, (n - 1) as nat))
    }
}

/// `f` applied to a running value and the loop index, for indices `0..n`.
pub open spec fn iter32_idx(f: spec_fn(u32, u32) -> u32, x: u32, n: nat) -> u32
    decreases n,
{
    if n == 0 {
        x
    } else {
        f(iter32_idx(f, x, (n - 1) as nat), (n - 1) as u32)
    }
}

/// `f` applied `n` times to `x`, over 64-bit values.
pub open spec fn iter64(f: spec_fn(u64) -> u64, x: u64, n: nat) -> u64
    decreases n,
{
    if n == 0 {
        x
    } else {
        f(iter64(f, x, (n - 1) as nat))
    }
}

/// `f` applied to a (buffer, accumulator) state and the loop index, for
/// indices `0..n`.
pub open spec fn iter_mem(
    f: spec_fn(Seq<u32>, u32, u32) -> (Seq<u32>, u32),
    buf: Seq<u32>,
    acc: u32,
    n: nat,
) -> (Seq<u32>, u32)
    decreases n,
{
    if n == 0 {
        (buf, acc)
    } else {
        let prev = iter_mem(f, buf, acc, (n - 1) as nat);
        f(prev.0, prev.1, (n - 1) as u32)
    }
}

// ---------------------------------------------------------------------------
// Steps of the individual chains, as spec-level functions.
// ---------------------------------------------------------------------------

/// One warm-up round: multiply, add, rotate left by 3.
pub open spec fn warmup_step(x: u32) -> u32 {
    let y = vstd::wrapping::u32_specs::wrapping_add(vstd::wrapping::u32_specs::wrapping_mul(x, 7), 13);
    (y << 3) | (y >> 29)
}

/// The warm-up chain after `n` rounds, starting from 1.
pub open spec fn spec_warmup_value(n: nat) -> u32 {
    iter32(|x: u32| warmup_step(x), 1u32, n)
}

pub open spec fn mul_step(x: u32) -> u32 {
    vstd::wrapping::u32_specs::wrapping_mul(vstd::wrapping::u32_specs::wrapping_mul(x, 7), 13)
}

pub open spec fn add_step(x: u32) -> u32 {
    vstd::wrapping::u32_specs::wrapping_add(vstd::wrapping::u32_specs::wrapping_add(x, 17), 23)
}

pub open spec fn mul_add_step(x: u32) -> u32 {
    vstd::wrapping::u32_specs::wrapping_add(
        vstd::wrapping::u32_specs::wrapping_mul(
            vstd::wrapping::u32_specs::wrapping_add(vstd::wrapping::u32_specs::wrapping_mul(x, 7), 17),
            13,
        ),
        23,
    )
}

/// Guard a chain value away from collapsing below 2.
pub open spec fn at_least_2(x: u32) -> u32 {
    if x < 2 {
        2
    } else {
        x
    }
}

pub open spec fn div_step(x: u32) -> u32 {
    at_least_2(at_least_2(x / 3) / 5)
}

pub open spec fn mul2_step(x: u32) -> u32 {
    vstd::wrapping::u32_specs::wrapping_mul(vstd::wrapping::u32_specs::wrapping_mul(x, 7), 11)
}

pub open spec fn div_mul_step(x: u32) -> u32 {
    vstd::wrapping::u32_specs::wrapping_mul(
        at_least_2(vstd::wrapping::u32_specs::wrapping_mul(at_least_2(x / 3), 7) / 5),
        11,
    )
}

pub open spec fn rot_step(x: u32) -> u32 {
    let y = (x << 3) | (x >> 29);
    (y >> 5) | (y << 27)
}

pub open spec fn xor_step(x: u32) -> u32 {
    (x ^ 0xCAFEBABE) ^ 0x12345678
}

pub open spec fn shift_xor_step(x: u32) -> u32 {
    let y = ((x << 3) | (x >> 29)) ^ 0xCAFEBABE;
    ((y >> 5) | (y << 27)) ^ 0x12345678
}

/// Predictable branch: alternates on the parity of the index.
pub open spec fn branch_even_step(x: u32, i: u32) -> u32 {
    if i % 2 == 0 {
        vstd::wrapping::u32_specs::wrapping_add(x, 1)
    } else {
        vstd::wrapping::u32_specs::wrapping_add(x, 2)
    }
}

/// Hard-to-predict branch: decides on a bit of a multiplicative hash of the
/// index (deterministic, but patternless to the branch predictor).
pub open spec fn branch_hash_step(x: u32, i: u32) -> u32 {
    if (vstd::wrapping::u32_specs::wrapping_mul(i, 2654435761) >> 16) & 1 == 0 {
        vstd::wrapping::u32_specs::wrapping_add(x, 3)
    } else {
        vstd::wrapping::u32_specs::wrapping_add(x, 5)
    }
}

pub open spec fn branch_both_step(x: u32, i: u32) -> u32 {
    branch_hash_step(branch_even_step(x, i), i)
}

/// Sequential buffer access: bump slot `i % 64` and fold it into the sum.
pub open spec fn mem_seq_step(buf: Seq<u32>, acc: u32, i: u32) -> (Seq<u32>, u32)
    recommends
        buf.len() == 64,
{
    let idx = (i % 64) as int;
    let v = vstd::wrapping::u32_specs::wrapping_add(buf[idx], i);
    (buf.update(idx, v), vstd::wrapping::u32_specs::wrapping_add(acc, v))
}

/// Pseudo-random buffer access, driven by a multiplicative hash of `i`.
pub open spec fn mem_rand_step(buf: Seq<u32>, acc: u32, i: u32) -> (Seq<u32>, u32)
    recommends
        buf.len() == 64,
{
    let idx = (vstd::wrapping::u32_specs::wrapping_mul(i, 2654435761) % 64) as int;
    let v = vstd::wrapping::u32_specs::wrapping_add(buf[idx], i);
    (buf.update(idx, v), vstd::wrapping::u32_specs::wrapping_add(acc, v))
}

/// One interleaved round: a sequential access, a fence, a random access.
pub open spec fn mem_both_step(buf: Seq<u32>, acc: u32, i: u32) -> (Seq<u32>, u32)
    recommends
        buf.len() == 64,
{
    let mid = mem_seq_step(buf, acc, i);
    mem_rand_step(mid.0, mid.1, i)
}

// ---------------------------------------------------------------------------
// Results of the full chains.
// ---------------------------------------------------------------------------

pub open spec fn spec_mul_grouped(iterations: u32) -> u32 {
    let n = (iterations / 2) as nat;
    iter32(|x: u32| add_step(x), iter32(|x: u32| mul_step(x), 1u32, n), n)
}

pub open spec fn spec_mul_add_interleaved(iterations: u32) -> u32 {
    iter32(|x: u32| mul_add_step(x), 1u32, (iterations / 2) as nat)
}

pub open spec fn spec_div_grouped(iterations: u32) -> u32 {
    let n = (iterations / 2) as nat;
    iter32(|x: u32| mul2_step(x), iter32(|x: u32| div_step(x), u32::MAX / 2, n), n)
}

pub open spec fn spec_div_mul_interleaved(iterations: u32) -> u32 {
    iter32(|x: u32| div_mul_step(x), u32::MAX / 2, (iterations / 2) as nat)
}

pub open spec fn spec_shift_grouped(iterations: u32) -> u32 {
    let n = (iterations / 2) as nat;
    iter32(|x: u32| xor_step(x), iter32(|x: u32| rot_step(x), 0xDEADBEEF, n), n)
}

pub open spec fn spec_shift_xor_interleaved(iterations: u32) -> u32 {
    iter32(|x: u32| shift_xor_step(x), 0xDEADBEEF, (iterations / 2) as nat)
}

pub open spec fn spec_branch_grouped(iterations: u32) -> u32 {
    let n = (iterations / 2) as nat;
    iter32_idx(
        |x: u32, i: u32| branch_hash_step(x, i),
        iter32_idx(|x: u32, i: u32| branch_even_step(x, i), 0u32, n),
        n,
    )
}

pub open spec fn spec_branch_interleaved(iterations: u32) -> u32 {
    iter32_idx(|x: u32, i: u32| branch_both_step(x, i), 0u32, (iterations / 2) as nat)
}

/// A 64-slot buffer of zeroes, the initial state of the memory chains.
pub open spec fn zero_buffer() -> Seq<u32> {
    Seq::new(64, |i: int| 0u32)
}

pub open spec fn spec_memory_grouped(iterations: u32) -> u32 {
    let n = (iterations / 2) as nat;
    let mid = iter_mem(
        |b: Seq<u32>, a: u32, i: u32| mem_seq_step(b, a, i),
        zero_buffer(),
        0u32,
        n,
    );
    iter_mem(|b: Seq<u32>, a: u32, i: u32| mem_rand_step(b, a, i), mid.0, mid.1, n).1
}

pub open spec fn spec_memory_fence_interleaved(iterations: u32) -> u32 {
    iter_mem(|b: Seq<u32>, a: u32, i: u32| mem_both_step(b, a, i), zero_buffer(), 0u32, (
    iterations / 2) as nat).1
}

// ---------------------------------------------------------------------------
// Executable chains.
// ---------------------------------------------------------------------------

/// Warm-up chain to stabilize caches and dynamic frequency before measuring.
/// Returns the final chain value; the caller treats 0 as the sentinel of a
/// computation that was optimized away.
pub(crate) fn run_warmup(rounds: u32) -> (r: u32)
    ensures
        r == spec_warmup_value(rounds as nat),
{
    let mut dummy: u32 = 1;
    let mut i: u32 = 0;
    while i < rounds
        invariant
            i <= rounds,
            dummy == spec_warmup_value(i as nat),
        decreases rounds - i,
    {
        dummy = dummy.wrapping_mul(7).wrapping_add(13);
        dummy = (dummy << 3) | (dummy >> 29);
        i = i + 1;
    }
    dummy
}

/// Grouped order: all multiplications, then all additions.
pub(crate) fn execute_mul_grouped(iterations: u32) -> (r: u32)
    ensures
        r == spec_mul_grouped(iterations),
{
    let half = iterations / 2;
    let mut result: u32 = 1;
    let mut i: u32 = 0;
    while i < half
        invariant
            i <= half,
            result == iter32(|x: u32| mul_step(x), 1u32, i as nat),
        decreases half - i,
    {
        result = result.wrapping_mul(7);
        result = result.wrapping_mul(13);
        i = i + 1;
    }
    let mut j: u32 = 0;
    let ghost mid = result;
    while j < half
        invariant
            j <= half,
            result == iter32(|x: u32| add_step(x), mid, j as nat),
            mid == iter32(|x: u32| mul_step(x), 1u32, half as nat),
        decreases half - j,
    {
        result = result.wrapping_add(17);
        result = result.wrapping_add(23);
        j = j + 1;
    }
    result
}

/// Interleaved order: multiply, add, multiply, add.
pub(crate) fn execute_mul_add_interleaved(iterations: u32) -> (r: u32)
    ensures
        r == spec_mul_add_interleaved(iterations),
{
    let half = iterations / 2;
    let mut result: u32 = 1;
    let mut i: u32 = 0;
    while i < half
        invariant
            i <= half,
            result == iter32(|x: u32| mul_add_step(x), 1u32, i as nat),
        decreases half - i,
    {
        result = result.wrapping_mul(7);
        result = result.wrapping_add(17);
        result = result.wrapping_mul(13);
        result = result.wrapping_add(23);
        i = i + 1;
    }
    result
}

/// Grouped order: all divisions, then all multiplications.
pub(crate) fn execute_div_grouped(iterations: u32) -> (r: u32)
    ensures
        r == spec_div_grouped(iterations),
{
    let half = iterations / 2;
    let mut result: u32 = u32::MAX / 2;
    let mut i: u32 = 0;
    while i < half
        invariant
            i <= half,
            result == iter32(|x: u32| div_step(x), u32::MAX / 2, i as nat),
        decreases half - i,
    {
        let a = result / 3;
        result = if a < 2 {
            2
        } else {
            a
        };
        let b = result / 5;
        result = if b < 2 {
            2
        } else {
            b
        };
        i = i + 1;
    }
    let mut j: u32 = 0;
    let ghost mid = result;
    while j < half
        invariant
            j <= half,
            result == iter32(|x: u32| mul2_step(x), mid, j as nat),
            mid == iter32(|x: u32| div_step(x), u32::MAX / 2, half as nat),
        decreases half - j,
    {
        result = result.wrapping_mul(7);
        result = result.wrapping_mul(11);
        j = j + 1;
    }
    result
}

/// Interleaved order: divide, multiply, divide, multiply.
pub(crate) fn execute_div_mul_interleaved(iterations: u32) -> (r: u32)
    ensures
        r == spec_div_mul_interleaved(iterations),
{
    let half = iterations / 2;
    let mut result: u32 = u32::MAX / 2;
    let mut i: u32 = 0;
    while i < half
        invariant
            i <= half,
            result == iter32(|x: u32| div_mul_step(x), u32::MAX / 2, i as nat),
        decreases half - i,
    {
        let a = result / 3;
        result = if a < 2 {
            2
        } else {
            a
        };
        result = result.wrapping_mul(7);
        let b = result / 5;
        result = if b < 2 {
            2
        } else {
            b
        };
        result = result.wrapping_mul(11);
        i = i + 1;
    }
    result
}

/// Grouped order: all rotations, then all exclusive-ors.
pub(crate) fn execute_shift_grouped(iterations: u32) -> (r: u32)
    ensures
        r == spec_shift_grouped(iterations),
{
    let half = iterations / 2;
    let mut result: u32 = 0xDEADBEEF;
    let mut i: u32 = 0;
    while i < half
        invariant
            i <= half,
            result == iter32(|x: u32| rot_step(x), 0xDEADBEEF, i as nat),
        decreases half - i,
    {
        result = (result << 3) | (result >> 29);
        result = (result >> 5) | (result << 27);
        i = i + 1;
    }
    let mut j: u32 = 0;
    let ghost mid = result;
    while j < half
        invariant
            j <= half,
            result == iter32(|x: u32| xor_step(x), mid, j as nat),
            mid == iter32(|x: u32| rot_step(x), 0xDEADBEEF, half as nat),
        decreases half - j,
    {
        result = result ^ 0xCAFEBABE;
        result = result ^ 0x12345678;
        j = j + 1;
    }
    result
}

/// Interleaved order: rotate, xor, rotate, xor.
pub(crate) fn execute_shift_xor_interleaved(iterations: u32) -> (r: u32)
    ensures
        r == spec_shift_xor_interleaved(iterations),
{
    let half = iterations / 2;
    let mut result: u32 = 0xDEADBEEF;
    let mut i: u32 = 0;
    while i < half
        invariant
            i <= half,
            result == iter32(|x: u32| shift_xor_step(x), 0xDEADBEEF, i as nat),
        decreases half - i,
    {
        result = (result << 3) | (result >> 29);
        result = result ^ 0xCAFEBABE;
        result = (result >> 5) | (result << 27);
        result = result ^ 0x12345678;
        i = i + 1;
    }
    result
}

/// Grouped order: a predictable branch pattern, then a patternless one.
pub(crate) fn execute_branch_grouped(iterations: u32) -> (r: u32)
    ensures
        r == spec_branch_grouped(iterations),
{
    let half = iterations / 2;
    let mut result: u32 = 0;
    let mut i: u32 = 0;
    while i < half
        invariant
            i <= half,
            result == iter32_idx(|x: u32, k: u32| branch_even_step(x, k), 0u32, i as nat),
        decreases half - i,
    {
        if i % 2 == 0 {
            result = result.wrapping_add(1);
        } else {
            result = result.wrapping_add(2);
        }
        i = i + 1;
    }
    let mut j: u32 = 0;
    let ghost mid = result;
    while j < half
        invariant
            j <= half,
            result == iter32_idx(|x: u32, k: u32| branch_hash_step(x, k), mid, j as nat),
            mid == iter32_idx(|x: u32, k: u32| branch_even_step(x, k), 0u32, half as nat),
        decreases half - j,
    {
        if (j.wrapping_mul(2654435761) >> 16) & 1 == 0 {
            result = result.wrapping_add(3);
        } else {
            result = result.wrapping_add(5);
        }
        j = j + 1;
    }
    result
}

/// Interleaved order: each round takes the predictable branch and then the
/// patternless one.
pub(crate) fn execute_branch_pattern_interleaved(iterations: u32) -> (r: u32)
    ensures
        r == spec_branch_interleaved(iterations),
{
    let half = iterations / 2;
    let mut result: u32 = 0;
    let mut i: u32 = 0;
    while i < half
        invariant
            i <= half,
            result == iter32_idx(|x: u32, k: u32| branch_both_step(x, k), 0u32, i as nat),
        decreases half - i,
    {
        if i % 2 == 0 {
            result = result.wrapping_add(1);
        } else {
            result = result.wrapping_add(2);
        }
        if (i.wrapping_mul(2654435761) >> 16) & 1 == 0 {
            result = result.wrapping_add(3);
        } else {
            result = result.wrapping_add(5);
        }
        i = i + 1;
    }
    result
}

/// Relies on core::sync::atomic::fence with sequentially consistent
/// ordering: a memory barrier that computes nothing and returns nothing.
#[verifier::external_body]
fn memory_barrier() {
    core::sync::atomic::fence(core::sync::atomic::Ordering::SeqCst);
}

/// A fresh 64-slot zero buffer.
fn make_buffer() -> (b: Vec<u32>)
    ensures
        b@ == zero_buffer(),
{
    let mut b: Vec<u32> = Vec::new();
    let mut i: usize = 0;
    while i < 64
        invariant
            i <= 64,
            b@.len() == i,
            forall|k: int| 0 <= k < i ==> b@[k] == 0u32,
        decreases 64 - i,
    {
        b.push(0);
        i = i + 1;
    }
    proof {
        assert(b@ =~= zero_buffer());
    }
    b
}

/// Grouped order: sequential buffer walks, then pseudo-random ones.
pub(crate) fn execute_memory_pattern_grouped(iterations: u32) -> (r: u32)
    ensures
        r == spec_memory_grouped(iterations),
{
    let half = iterations / 2;
    let mut buffer = make_buffer();
    let mut result: u32 = 0;
    let mut i: u32 = 0;
    while i < half
        invariant
            i <= half,
            buffer@.len() == 64,
            (buffer@, result) == iter_mem(
                |b: Seq<u32>, a: u32, k: u32| mem_seq_step(b, a, k),
                zero_buffer(),
                0u32,
                i as nat,
            ),
        decreases half - i,
    {
        let idx = (i % 64) as usize;
        let v = buffer[idx].wrapping_add(i);
        buffer.set(idx, v);
        result = result.wrapping_add(v);
        i = i + 1;
    }
    let mut j: u32 = 0;
    let ghost mid_buf = buffer@;
    let ghost mid_acc = result;
    while j < half
        invariant
            j <= half,
            buffer@.len() == 64,
            (buffer@, result) == iter_mem(
                |b: Seq<u32>, a: u32, k: u32| mem_rand_step(b, a, k),
                mid_buf,
                mid_acc,
                j as nat,
            ),
            mid_buf.len() == 64,
            (mid_buf, mid_acc) == iter_mem(
                |b: Seq<u32>, a: u32, k: u32| mem_seq_step(b, a, k),
                zero_buffer(),
                0u32,
                half as nat,
            ),
        decreases half - j,
    {
        let idx = (j.wrapping_mul(2654435761) % 64) as usize;
        let v = buffer[idx].wrapping_add(j);
        buffer.set(idx, v);
        result = result.wrapping_add(v);
        j = j + 1;
    }
    result
}

/// Interleaved order: each round does a sequential access, a memory
/// barrier, and a pseudo-random access.
pub(crate) fn execute_memory_fence_interleaved(iterations: u32) -> (r: u32)
    ensures
        r == spec_memory_fence_interleaved(iterations),
{
    let half = iterations / 2;
    let mut buffer = make_buffer();
    let mut result: u32 = 0;
    let mut i: u32 = 0;
    while i < half
        invariant
            i <= half,
            buffer@.len() == 64,
            (buffer@, result) == iter_mem(
                |b: Seq<u32>, a: u32, k: u32| mem_both_step(b, a, k),
                zero_buffer(),
                0u32,
                i as nat,
            ),
        decreases half - i,
    {
        let seq_idx = (i % 64) as usize;
        let v = buffer[seq_idx].wrapping_add(i);
        buffer.set(seq_idx, v);
        result = result.wrapping_add(v);

        memory_barrier();

        let rand_idx = (i.wrapping_mul(2654435761) % 64) as usize;
        let w = buffer[rand_idx].wrapping_add(i);
        buffer.set(rand_idx, w);
        result = result.wrapping_add(w);
        i = i + 1;
    }
    result
}

/// A short chain of additions separating two measurements; its end value
/// is proved, so no run-time sanity check on it is needed.
pub(crate) fn cpu_pause()
{
    let mut dummy: u32 = 1;
    let mut i: u32 = 0;
    while i < 100
        invariant
            i <= 100,
            dummy == 1 + i,
        decreases 100 - i,
    {
        dummy = dummy.wrapping_add(1);
        i = i + 1;
    }
    assert(dummy == 101);
}

} // verus!
