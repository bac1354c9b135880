//! Hex-encoded 32-byte digests.
//!
//! Merkle roots and proof elements travel as 64-character hex strings and are
//! decoded to 32-byte buffers before any comparison. Decoding is done by the
//! `hex` crate behind an exact contract.

use vstd::prelude::*;

verus! {

/// An ASCII byte that is a hex digit (`0-9`, `a-f`, `A-F`).
pub open spec fn is_hex_digit(c: u8) -> bool {
    (48 <= c && c <= 57) || (97 <= c && c <= 102) || (65 <= c && c <= 70)
}

/// Numeric value of a hex digit.
pub open spec fn hex_val(c: u8) -> int
    recommends
        is_hex_digit(c),
{
    if 48 <= c && c <= 57 {
        c - 48
    } else if 97 <= c && c <= 102 {
        c - 87
    } else {
        c - 55
    }
}

/// Every byte of `s` is a hex digit.
pub open spec fn all_hex(s: Seq<u8>) -> bool {
    forall|i: int| 0 <= i < s.len() ==> is_hex_digit(s[i])
}

/// `s` encodes exactly 32 bytes in hex.
pub open spec fn is_hex32(s: Seq<u8>) -> bool {
    s.len() == 64 && all_hex(s)
}

/// The bytes that a hex string of even length decodes to: each pair of
/// digits yields one byte, high digit first.
pub open spec fn hex_decoded(s: Seq<u8>) -> Seq<u8>
    recommends
        s.len() % 2 == 0,
        all_hex(s),
{
    Seq::new(s.len() / 2, |i: int| (16 * hex_val(s[2 * i]) + hex_val(s[2 * i + 1])) as u8)
}

/// Relies on `hex::decode_to_slice` into a 32-byte buffer: it succeeds
/// exactly on 64-byte inputs made of hex digits, writing each digit pair's
/// value, and rejects anything else.
#[verifier::external_body]
pub(crate) fn decode_hex32(s: &Vec<u8>) -> (r: Option<Vec<u8>>)
    ensures
        match r {
            Some(b) => is_hex32(s@) && b@ == hex_decoded(s@),
            None => !is_hex32(s@),
        },
{
    let mut buf = [0u8; 32];
    match hex::decode_to_slice(s.as_slice(), &mut buf) {
        Ok(()) => Some(buf.to_vec()),
        Err(_) => None,
    }
}

} // verus!
