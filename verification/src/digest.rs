//! The cryptographic digest behind leaf and node hashes.
//!
//! The digest itself is computed by the `sha2` crate; its value is named by
//! an uninterpreted spec function, so every contract above it speaks of
//! `sha256_of(..)` and never restates the hash algorithm.

use vstd::prelude::*;

verus! {

/// The SHA-256 digest of a byte sequence.
pub uninterp spec fn sha256_of(data: Seq<u8>) -> Seq<u8>;

/// Relies on `sha2::Sha256::digest`: a function of the input bytes alone,
/// returning a 32-byte digest.
#[verifier::external_body]
pub(crate) fn sha256(data: &Vec<u8>) -> (r: Vec<u8>)
    ensures
        r@ == sha256_of(data@),
        r@.len() == 32,
{
    let out = <sha2::Sha256 as sha2::Digest>::digest(data.as_slice());
    out.as_slice().to_vec()
}

} // verus!
