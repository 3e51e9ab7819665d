//! General hardware micro-benchmarks on integer workloads: a pseudo-random
//! memory walk and a hash-mixing chain. Each times a fully specified,
//! deterministic computation and reports the elapsed wall time; the
//! computed chain value is checked against its sentinel, so a run that the
//! optimizer elided is detected exactly.

use vstd::prelude::*;
use crate::clock::{clock_now, nanos_since};
use crate::measure::BenchError;

verus! {

/// Size of the walked buffer: 1048576 four-byte slots (4 MiB).
pub const MEMORY_BUFFER_SLOTS: usize = 1048576;

/// Rounds of the memory walk.
pub const MEMORY_WALK_ROUNDS: u32 = 100000;

/// Rounds of the hash-mixing chain.
pub const CRYPTO_MIX_ROUNDS: u32 = 10000;

/// The initial buffer: slot `i` holds `31 * i`.
pub open spec fn initial_buffer() -> Seq<u32> {
    Seq::new(MEMORY_BUFFER_SLOTS as nat, |i: int| (31 * i) as u32)
}

/// One round of the memory walk: hop to a pseudo-random slot, fold it into
/// the running sum, write the sum back, then read a strided neighbour.
pub open spec fn walk_step(s: (Seq<u32>, u64, usize)) -> (Seq<u32>, u64, usize)
    recommends
        s.0.len() == MEMORY_BUFFER_SLOTS,
{
    let buf = s.0;
    let sum0 = s.1;
    let idx = (vstd::wrapping::usize_specs::wrapping_add(
        vstd::wrapping::usize_specs::wrapping_mul(s.2, 1103515245),
        12345,
    ) % MEMORY_BUFFER_SLOTS) as int;
    let sum1 = vstd::wrapping::u64_specs::wrapping_add(sum0, buf[idx] as u64);
    let buf1 = buf.update(idx, (sum1 & 0xFFFFFFFF) as u32);
    let stride = (idx + 64) % (MEMORY_BUFFER_SLOTS as int);
    let sum2 = vstd::wrapping::u64_specs::wrapping_add(sum1, buf1[stride] as u64);
    (buf1, sum2, idx as usize)
}

/// The walk state after `n` rounds.
pub open spec fn walk_state(n: nat) -> (Seq<u32>, u64, usize)
    decreases n,
{
    if n == 0 {
        (initial_buffer(), 0u64, 0usize)
    } else {
        walk_step(walk_state((n - 1) as nat))
    }
}

/// The walked buffer keeps its size.
proof fn lemma_walk_state_len(n: nat)
    ensures
        walk_state(n).0.len() == MEMORY_BUFFER_SLOTS,
    decreases n,
{
    if n > 0 {
        lemma_walk_state_len((n - 1) as nat);
    }
}

/// Times the pseudo-random memory walk.
///
/// The walk itself is deterministic; only the reported wall time depends
/// on the host. Fails with `OptimizedAway` exactly when the final checksum
/// is the sentinel 0.
pub fn memory_access_benchmark() -> (r: Result<u64, BenchError>)
    ensures
        r is Ok <==> walk_state(MEMORY_WALK_ROUNDS as nat).1 != 0,
        r is Err ==> r->Err_0 == BenchError::OptimizedAway,
{
    let mut data: Vec<u32> = Vec::new();
    let mut i: usize = 0;
    while i < MEMORY_BUFFER_SLOTS
        invariant
            i <= MEMORY_BUFFER_SLOTS,
            data@.len() == i,
            forall|k: int| 0 <= k < i ==> data@[k] == (31 * k) as u32,
        decreases MEMORY_BUFFER_SLOTS - i,
    {
        data.push((i * 31) as u32);
        i = i + 1;
    }
    proof {
        assert(data@ =~= initial_buffer());
    }

    let start = clock_now();
    let mut sum: u64 = 0;
    let mut index: usize = 0;
    let mut round: u32 = 0;
    while round < MEMORY_WALK_ROUNDS
        invariant
            round <= MEMORY_WALK_ROUNDS,
            data@.len() == MEMORY_BUFFER_SLOTS,
            (data@, sum, index) == walk_state(round as nat),
        decreases MEMORY_WALK_ROUNDS - round,
    {
        index = index.wrapping_mul(1103515245).wrapping_add(12345) % MEMORY_BUFFER_SLOTS;
        sum = sum.wrapping_add(data[index] as u64);
        let low: u32 = (sum & 0xFFFFFFFF) as u32;
        proof {
            assert(sum & 0xFFFFFFFF <= 0xFFFFFFFF) by (bit_vector);
        }
        data.set(index, low);
        let stride = (index + 64) % MEMORY_BUFFER_SLOTS;
        sum = sum.wrapping_add(data[stride] as u64);
        round = round + 1;
    }
    let elapsed = nanos_since(&start);

    if sum == 0 {
        Err(BenchError::OptimizedAway)
    } else {
        Ok(elapsed)
    }
}

/// One mixing round: fold the little-endian bytes of the round index into
/// an FNV-1a style hash, then avalanche it.
pub open spec fn mix_step(h: u32, i: u32) -> u32 {
    let b0 = fnv_byte(h, i & 0xFF);
    let b1 = fnv_byte(b0, (i >> 8) & 0xFF);
    let b2 = fnv_byte(b1, (i >> 16) & 0xFF);
    let b3 = fnv_byte(b2, (i >> 24) & 0xFF);
    avalanche(b3)
}

/// One FNV-1a byte step.
pub open spec fn fnv_byte(h: u32, b: u32) -> u32 {
    vstd::wrapping::u32_specs::wrapping_mul(h ^ b, 0x01000193)
}

/// The avalanche mix: alternate shifts and odd-constant multiplications.
pub open spec fn avalanche(h: u32) -> u32 {
    let a = h ^ (h >> 16);
    let b = vstd::wrapping::u32_specs::wrapping_mul(a, 0x85ebca6b);
    let c = b ^ (b >> 13);
    let d = vstd::wrapping::u32_specs::wrapping_mul(c, 0xc2b2ae35);
    d ^ (d >> 16)
}

/// The hash chain after `n` rounds, from the FNV offset basis.
pub open spec fn mix_chain(n: nat) -> u32
    decreases n,
{
    if n == 0 {
        0x811c9dc5
    } else {
        mix_step(mix_chain((n - 1) as nat), (n - 1) as u32)
    }
}

/// Times the hash-mixing chain.
///
/// The chain is deterministic; only the reported wall time depends on the
/// host. Fails with `OptimizedAway` exactly when the final hash is the
/// sentinel 0.
pub fn crypto_operations_benchmark() -> (r: Result<u64, BenchError>)
    ensures
        r is Ok <==> mix_chain(CRYPTO_MIX_ROUNDS as nat) != 0,
        r is Err ==> r->Err_0 == BenchError::OptimizedAway,
{
    let start = clock_now();
    let mut hash: u32 = 0x811c9dc5;
    let mut i: u32 = 0;
    while i < CRYPTO_MIX_ROUNDS
        invariant
            i <= CRYPTO_MIX_ROUNDS,
            hash == mix_chain(i as nat),
        decreases CRYPTO_MIX_ROUNDS - i,
    {
        hash = (hash ^ (i & 0xFF)).wrapping_mul(0x01000193);
        hash = (hash ^ ((i >> 8) & 0xFF)).wrapping_mul(0x01000193);
        hash = (hash ^ ((i >> 16) & 0xFF)).wrapping_mul(0x01000193);
        hash = (hash ^ ((i >> 24) & 0xFF)).wrapping_mul(0x01000193);
        hash = hash ^ (hash >> 16);
        hash = hash.wrapping_mul(0x85ebca6b);
        hash = hash ^ (hash >> 13);
        hash = hash.wrapping_mul(0xc2b2ae35);
        hash = hash ^ (hash >> 16);
        i = i + 1;
    }
    let elapsed = nanos_since(&start);

    if hash == 0 {
        Err(BenchError::OptimizedAway)
    } else {
        Ok(elapsed)
    }
}

} // verus!
