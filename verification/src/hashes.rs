//! Trusted access to the two one-way hashes the derivation schemes use:
//! Keccak-256 and BLAKE2b-256. Each digest is named by an uninterpreted
//! spec function, since the digest is a pure function of the input bytes.

use tiny_keccak::Hasher;
use vstd::prelude::*;

verus! {

/// The 32-byte Keccak-256 digest of a byte string.
pub uninterp spec fn keccak256_of(data: Seq<u8>) -> Seq<u8>;

/// The 32-byte BLAKE2b-256 digest of a byte string.
pub uninterp spec fn blake2b256_of(data: Seq<u8>) -> Seq<u8>;

/// Relies on tiny_keccak's Keccak-256 (`Keccak::v256`, `Hasher::update`,
/// `Hasher::finalize`): a 32-byte digest depending on the input bytes alone.
#[verifier::external_body]
pub fn keccak_256(data: &Vec<u8>) -> (r: Vec<u8>)
    ensures
        r@ == keccak256_of(data@),
        r@.len() == 32,
{
    let mut hasher = tiny_keccak::Keccak::v256();
    hasher.update(data.as_slice());
    let mut out = [0u8; 32];
    hasher.finalize(&mut out);
    out.to_vec()
}

/// Relies on blake2b_simd's BLAKE2b with a 32-byte hash length
/// (`Params::hash_length`, `Params::hash`): a digest depending on the input
/// bytes alone.
#[verifier::external_body]
pub fn blake2_256(data: &Vec<u8>) -> (r: Vec<u8>)
    ensures
        r@ == blake2b256_of(data@),
        r@.len() == 32,
{
    let hash = blake2b_simd::Params::new().hash_length(32).hash(data.as_slice());
    hash.as_bytes().to_vec()
}

} // verus!
