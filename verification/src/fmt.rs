//! Rendering of scaled integers as ASCII decimal bytes for the canonical
//! fingerprint string.
//!
//! Ratios are scaled by 10000 and print with four fractional digits;
//! normalized timings are scaled by 100 and print with two.

use vstd::prelude::*;

verus! {

/// The ASCII decimal digits of `n`, most significant first.
pub open spec fn spec_decimal(n: nat) -> Seq<u8>
    decreases n,
{
    if n < 10 {
        seq![(0x30 + n) as u8]
    } else {
        spec_decimal(n / 10).push((0x30 + n % 10) as u8)
    }
}

/// Four zero-padded ASCII digits of a fractional part scaled by 10000.
pub open spec fn spec_frac4(f: nat) -> Seq<u8> {
    seq![
        (0x30 + (f / 1000) % 10) as u8,
        (0x30 + (f / 100) % 10) as u8,
        (0x30 + (f / 10) % 10) as u8,
        (0x30 + f % 10) as u8,
    ]
}

/// Two zero-padded ASCII digits of a fractional part scaled by 100.
pub open spec fn spec_frac2(f: nat) -> Seq<u8> {
    seq![(0x30 + (f / 10) % 10) as u8, (0x30 + f % 10) as u8]
}

/// A ratio scaled by 10000, rendered as `intpart.4digits`.
pub open spec fn spec_ratio_bytes(r: u64) -> Seq<u8> {
    spec_decimal((r / 10000) as nat) + seq![0x2eu8] + spec_frac4((r % 10000) as nat)
}

/// A normalized timing scaled by 100, rendered as `intpart.2digits`.
pub open spec fn spec_norm_bytes(v: u64) -> Seq<u8> {
    spec_decimal((v / 100) as nat) + seq![0x2eu8] + spec_frac2((v % 100) as nat)
}

/// Appends the decimal digits of `n`.
pub fn push_decimal(out: &mut Vec<u8>, n: u64)
    ensures
        final(out)@ == old(out)@ + spec_decimal(n as nat),
    decreases n,
{
    if n < 10 {
        out.push(0x30 + n as u8);
        proof {
            assert(out@ =~= old(out)@ + spec_decimal(n as nat));
        }
    } else {
        push_decimal(out, n / 10);
        out.push(0x30 + (n % 10) as u8);
        proof {
            assert(out@ =~= old(out)@ + spec_decimal(n as nat));
        }
    }
}

/// Appends a ratio scaled by 10000 as `intpart.4digits`.
pub fn push_ratio(out: &mut Vec<u8>, r: u64)
    ensures
        final(out)@ == old(out)@ + spec_ratio_bytes(r),
{
    push_decimal(out, r / 10000);
    out.push(0x2e);
    let f = r % 10000;
    out.push(0x30 + ((f / 1000) % 10) as u8);
    out.push(0x30 + ((f / 100) % 10) as u8);
    out.push(0x30 + ((f / 10) % 10) as u8);
    out.push(0x30 + (f % 10) as u8);
    proof {
        assert(out@ =~= old(out)@ + spec_ratio_bytes(r));
    }
}

/// Appends a normalized timing scaled by 100 as `intpart.2digits`.
pub fn push_norm(out: &mut Vec<u8>, v: u64)
    ensures
        final(out)@ == old(out)@ + spec_norm_bytes(v),
{
    push_decimal(out, v / 100);
    out.push(0x2e);
    let f = v % 100;
    out.push(0x30 + ((f / 10) % 10) as u8);
    out.push(0x30 + (f % 10) as u8);
    proof {
        assert(out@ =~= old(out)@ + spec_norm_bytes(v));
    }
}

} // verus!
