//! The fingerprint synthesizer: canonical serialization of the measured
//! contention results and their digest.
//!
//! The canonical byte string is fully specified, so the contract pins the
//! digest to a function of the measurement values alone: identical results
//! always yield an identical fingerprint, and distinct canonical strings
//! differ before hashing.

use vstd::prelude::*;
use vstd::utf8::encode_utf8;
use crate::category::{spec_categorize, ContentionCategory, categorize_ratio};
use crate::digest::{sha256_of, sha256_hex, spec_hex_chars};
use crate::fmt::{push_norm, push_ratio, spec_norm_bytes, spec_ratio_bytes};
use crate::measure::{sat64, ContentionResult};

verus! {

/// The label a category prints as in the canonical string.
pub open spec fn spec_category_label(c: ContentionCategory) -> Seq<char> {
    match c {
        ContentionCategory::HighParallelism => "high_parallelism"@,
        ContentionCategory::NoContention => "no_contention"@,
        ContentionCategory::CacheBeneficial => "cache_beneficial"@,
    }
}

/// The printable label of a category.
pub fn category_label(c: ContentionCategory) -> (s: &'static str)
    ensures
        s@ == spec_category_label(c),
{
    match c {
        ContentionCategory::HighParallelism => "high_parallelism",
        ContentionCategory::NoContention => "no_contention",
        ContentionCategory::CacheBeneficial => "cache_beneficial",
    }
}

/// The ratio section entry of one result:
/// `{name}:{category}:{ratio}|` in UTF-8 bytes.
pub open spec fn spec_entry_ratio(r: ContentionResult) -> Seq<u8> {
    encode_utf8(r.instruction_pair@) + seq![0x3au8] + encode_utf8(
        spec_category_label(spec_categorize(r.ratio_rho)),
    ) + seq![0x3au8] + spec_ratio_bytes(r.ratio_rho) + seq![0x7cu8]
}

/// The ratio section over the first `n` results.
pub open spec fn spec_ratio_section(rs: Seq<ContentionResult>, n: int) -> Seq<u8>
    decreases n,
{
    if n <= 0 {
        Seq::empty()
    } else {
        spec_ratio_section(rs, n - 1) + spec_entry_ratio(rs[n - 1])
    }
}

/// The smaller of two timings.
pub open spec fn spec_min2(a: u64, b: u64) -> u64 {
    if a < b {
        a
    } else {
        b
    }
}

/// The least timing (grouped or interleaved) over the first `n` results;
/// the fold starts from the largest representable time, so an empty set
/// has no effect.
pub open spec fn spec_min_time(rs: Seq<ContentionResult>, n: int) -> u64
    decreases n,
{
    if n <= 0 {
        u64::MAX
    } else {
        spec_min2(spec_min_time(rs, n - 1), spec_min2(rs[n - 1].grouped_time, rs[n - 1].interleaved_time))
    }
}

/// A timing normalized by the least timing, scaled by 100. A zero minimum
/// means the corpus carried no signal; the normalized value is then
/// defined as exactly 1 rather than propagating a division by zero.
pub open spec fn spec_norm(t: u64, m: u64) -> u64 {
    if m == 0 {
        100
    } else {
        sat64(t as int * 100 / m as int)
    }
}

/// The normalized-timing entry of one result:
/// `norm_{name}:{grouped}:{interleaved}|` in UTF-8 bytes.
pub open spec fn spec_entry_norm(r: ContentionResult, m: u64) -> Seq<u8> {
    encode_utf8("norm_"@) + encode_utf8(r.instruction_pair@) + seq![0x3au8] + spec_norm_bytes(
        spec_norm(r.grouped_time, m),
    ) + seq![0x3au8] + spec_norm_bytes(spec_norm(r.interleaved_time, m)) + seq![0x7cu8]
}

/// The normalized-timing section over the first `n` results.
pub open spec fn spec_norm_section(rs: Seq<ContentionResult>, n: int, m: u64) -> Seq<u8>
    decreases n,
{
    if n <= 0 {
        Seq::empty()
    } else {
        spec_norm_section(rs, n - 1, m) + spec_entry_norm(rs[n - 1], m)
    }
}

/// The full canonical byte string of a result sequence: the ratio section
/// followed by the normalized-timing section.
pub open spec fn spec_canonical(rs: Seq<ContentionResult>) -> Seq<u8> {
    spec_ratio_section(rs, rs.len() as int) + spec_norm_section(
        rs,
        rs.len() as int,
        spec_min_time(rs, rs.len() as int),
    )
}

/// The fingerprint of a result sequence: the SHA-256 digest of the
/// canonical string, in lower-case hex.
pub open spec fn spec_fingerprint(rs: Seq<ContentionResult>) -> Seq<char> {
    spec_hex_chars(sha256_of(spec_canonical(rs)))
}

fn push_entry_ratio(buf: &mut Vec<u8>, r: &ContentionResult)
    ensures
        final(buf)@ == old(buf)@ + spec_entry_ratio(*r),
{
    buf.extend_from_slice(r.instruction_pair.as_str().as_bytes());
    buf.push(0x3a);
    let cat = categorize_ratio(r.ratio_rho);
    buf.extend_from_slice(category_label(cat).as_bytes());
    buf.push(0x3a);
    push_ratio(buf, r.ratio_rho);
    buf.push(0x7c);
    proof {
        assert(buf@ =~= old(buf)@ + spec_entry_ratio(*r));
    }
}

fn push_entry_norm(buf: &mut Vec<u8>, r: &ContentionResult, m: u64)
    ensures
        final(buf)@ == old(buf)@ + spec_entry_norm(*r, m),
{
    buf.extend_from_slice("norm_".as_bytes());
    buf.extend_from_slice(r.instruction_pair.as_str().as_bytes());
    buf.push(0x3a);
    push_norm(buf, norm_time(r.grouped_time, m));
    buf.push(0x3a);
    push_norm(buf, norm_time(r.interleaved_time, m));
    buf.push(0x7c);
    proof {
        assert(buf@ =~= old(buf)@ + spec_entry_norm(*r, m));
    }
}

/// A timing normalized by the least timing, scaled by 100.
fn norm_time(t: u64, m: u64) -> (v: u64)
    ensures
        v == spec_norm(t, m),
{
    if m == 0 {
        100
    } else {
        proof {
            assert(t as int * 100 <= u64::MAX as int * 100) by (nonlinear_arith)
                requires
                    t <= u64::MAX,
            ;
        }
        let wide = (t as u128) * 100 / (m as u128);
        if wide > u64::MAX as u128 {
            u64::MAX
        } else {
            wide as u64
        }
    }
}

/// Builds the canonical byte string of `results`.
pub fn canonical_bytes(results: &Vec<ContentionResult>) -> (buf: Vec<u8>)
    ensures
        buf@ == spec_canonical(results@),
{
    let mut buf: Vec<u8> = Vec::new();
    let n = results.len();
    let mut i: usize = 0;
    while i < n
        invariant
            i <= n,
            n == results@.len(),
            buf@ == spec_ratio_section(results@, i as int),
        decreases n - i,
    {
        push_entry_ratio(&mut buf, &results[i]);
        i = i + 1;
    }

    let mut min_time: u64 = u64::MAX;
    let mut j: usize = 0;
    while j < n
        invariant
            j <= n,
            n == results@.len(),
            min_time == spec_min_time(results@, j as int),
        decreases n - j,
    {
        let g = results[j].grouped_time;
        let iv = results[j].interleaved_time;
        let lo = if g < iv {
            g
        } else {
            iv
        };
        if lo < min_time {
            min_time = lo;
        }
        j = j + 1;
    }

    let mut k: usize = 0;
    while k < n
        invariant
            k <= n,
            n == results@.len(),
            min_time == spec_min_time(results@, n as int),
            buf@ == spec_ratio_section(results@, n as int) + spec_norm_section(
                results@,
                k as int,
                min_time,
            ),
        decreases n - k,
    {
        push_entry_norm(&mut buf, &results[k], min_time);
        proof {
            assert(buf@ =~= spec_ratio_section(results@, n as int) + spec_norm_section(
                results@,
                k + 1,
                min_time,
            ));
        }
        k = k + 1;
    }
    proof {
        assert(buf@ =~= spec_canonical(results@));
    }
    buf
}

/// Digests the canonical string of `results` into the fingerprint: a
/// 64-character lower-case hex string that is a function of the measured
/// values alone.
pub fn generate_fingerprint(results: &Vec<ContentionResult>) -> (fp: String)
    ensures
        fp@ == spec_fingerprint(results@),
        fp@.len() == 64,
{
    let buf = canonical_bytes(results);
    sha256_hex(&buf)
}

/// Fingerprint determinism: two digests of the same result sequence are
/// equal byte for byte. (`generate_fingerprint` pins its output to
/// `spec_fingerprint` of its input, so two calls on equal inputs cannot
/// differ.)
pub proof fn lemma_fingerprint_deterministic(
    rs: Seq<ContentionResult>,
    d1: Seq<char>,
    d2: Seq<char>,
)
    requires
        d1 == spec_fingerprint(rs),
        d2 == spec_fingerprint(rs),
    ensures
        d1 == d2,
{
}

} // verus!
