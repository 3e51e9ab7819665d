//! The SHA-256 digest primitive and hex encoding.
//!
//! The hash itself is an external collaborator: its value is a pure
//! function of the input bytes, named by `sha256_of`, and nothing else is
//! assumed of it. The hex encoding of the digest is the library's own,
//! verified against an exact byte-level specification.

use vstd::prelude::*;
use sha2::Digest;

verus! {

/// The SHA-256 digest of a byte sequence. The algorithm itself is not
/// restated here; the name records only that the digest is a function of
/// the input bytes alone.
pub uninterp spec fn sha256_of(data: Seq<u8>) -> Seq<u8>;

/// Relies on sha2::Sha256 (the FIPS 180-4 SHA-256 function): the digest
/// depends on the input bytes alone and is exactly 32 bytes long.
#[verifier::external_body]
pub fn sha256(data: &[u8]) -> (r: Vec<u8>)
    ensures
        r@ == sha256_of(data@),
        r@.len() == 32,
{
    sha2::Sha256::digest(data).to_vec()
}

/// The lower-case hex digit of a value below 16.
pub open spec fn spec_hex_digit(n: u8) -> u8 {
    if n < 10 {
        (0x30 + n) as u8
    } else {
        (0x57 + n) as u8
    }
}

/// The lower-case hex expansion of a byte sequence: two digits per byte,
/// high nibble first.
pub open spec fn spec_hex_bytes(data: Seq<u8>) -> Seq<u8> {
    Seq::new(
        data.len() * 2,
        |i: int|
            if i % 2 == 0 {
                spec_hex_digit(data[i / 2] / 16)
            } else {
                spec_hex_digit(data[i / 2] % 16)
            },
    )
}

/// The same hex expansion, as characters.
pub open spec fn spec_hex_chars(data: Seq<u8>) -> Seq<char> {
    Seq::new(data.len() * 2, |i: int| spec_hex_bytes(data)[i] as char)
}

/// Encodes bytes as lower-case hex.
pub fn to_hex_bytes(data: &Vec<u8>) -> (r: Vec<u8>)
    ensures
        r@ == spec_hex_bytes(data@),
{
    let mut out: Vec<u8> = Vec::new();
    let mut i: usize = 0;
    while i < data.len()
        invariant
            i <= data@.len(),
            out@.len() == 2 * i,
            forall|k: int| 0 <= k < 2 * i ==> out@[k] == spec_hex_bytes(data@)[k],
        decreases data@.len() - i,
    {
        let b = data[i];
        let hi = b / 16;
        let lo = b % 16;
        let hd: u8 = if hi < 10 {
            0x30 + hi
        } else {
            0x57 + hi
        };
        let ld: u8 = if lo < 10 {
            0x30 + lo
        } else {
            0x57 + lo
        };
        out.push(hd);
        out.push(ld);
        i = i + 1;
    }
    proof {
        assert(out@ =~= spec_hex_bytes(data@));
    }
    out
}

/// Relies on String::from_utf8: decoding bytes that are all ASCII yields
/// the string whose characters are exactly those byte values.
#[verifier::external_body]
pub fn ascii_string(bytes: Vec<u8>) -> (r: String)
    requires
        forall|i: int| 0 <= i < bytes@.len() ==> bytes@[i] < 128,
    ensures
        r@.len() == bytes@.len(),
        forall|i: int| 0 <= i < r@.len() ==> r@[i] == bytes@[i] as char,
{
    String::from_utf8(bytes).unwrap_or_default()
}

/// The digest of `data` as a lower-case hex string of 64 characters.
pub fn sha256_hex(data: &Vec<u8>) -> (r: String)
    ensures
        r@ == spec_hex_chars(sha256_of(data@)),
        r@.len() == 64,
{
    let digest = sha256(data.as_slice());
    let hex = to_hex_bytes(&digest);
    proof {
        assert(forall|i: int| 0 <= i < hex@.len() ==> hex@[i] < 128);
    }
    let s = ascii_string(hex);
    proof {
        assert(s@ =~= spec_hex_chars(sha256_of(data@)));
    }
    s
}

} // verus!
