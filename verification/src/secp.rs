//! Signature recovery: trusted access to the secp256k1 primitives, and the
//! verified recovery path that turns a recoverable signature over the
//! canonical signable message into a 20-byte address.

use vstd::prelude::*;
use crate::hashes::{keccak256_of, keccak_256};
use crate::message::{ethereum_signable_message, hex_of, lemma_hex_of_len, signable_message_of,
    to_ascii_hex};
use crate::types::{sub_bytes, EcdsaSignature, EvmAddress};

verus! {

#[verifier::external_type_specification]
#[verifier::external_body]
pub struct ExSecretKey(libsecp256k1::SecretKey);

#[verifier::external_type_specification]
#[verifier::external_body]
pub struct ExPublicKey(libsecp256k1::PublicKey);

/// What ECDSA public-key recovery yields for a 64-byte signature, a
/// recovery id and a 32-byte message hash: the 64-byte uncompressed public
/// key without its format marker, or nothing when recovery fails. A pure
/// function of its arguments.
pub uninterp spec fn secp256k1_recover_of(sig: Seq<u8>, rid: u8, msg: Seq<u8>) -> Option<
    Seq<u8>,
>;

/// Relies on libsecp256k1's `recover` (with `Signature::parse_standard_slice`,
/// `RecoveryId::parse` and `Message::parse_slice` converting the arguments,
/// and `PublicKey::serialize` converting the result): deterministic ECDSA
/// recovery; `serialize` returns 65 bytes whose first byte is the format
/// marker.
#[verifier::external_body]
fn secp256k1_recover(sig64: &Vec<u8>, rid: u8, msg32: &Vec<u8>) -> (r: Option<Vec<u8>>)
    requires
        sig64@.len() == 64,
        msg32@.len() == 32,
    ensures
        match r {
            Some(pk) => secp256k1_recover_of(sig64@, rid, msg32@) == Some(pk@) && pk@.len()
                == 64,
            None => secp256k1_recover_of(sig64@, rid, msg32@) is None,
        },
{
    let sig = libsecp256k1::Signature::parse_standard_slice(sig64.as_slice()).ok()?;
    let rec_id = libsecp256k1::RecoveryId::parse(rid).ok()?;
    let msg = libsecp256k1::Message::parse_slice(msg32.as_slice()).ok()?;
    let pubkey = libsecp256k1::recover(&msg, &sig, &rec_id).ok()?;
    Some(pubkey.serialize()[1..65].to_vec())
}

/// Relies on libsecp256k1's `sign` (with `Message::parse_slice` converting
/// the argument, and `Signature::serialize` and `RecoveryId::serialize`
/// converting the result): a 64-byte signature and a one-byte recovery id.
#[verifier::external_body]
fn secp256k1_sign(secret: &libsecp256k1::SecretKey, msg32: &Vec<u8>) -> (r: Vec<u8>)
    requires
        msg32@.len() == 32,
    ensures
        r@.len() == 65,
{
    let msg = libsecp256k1::Message::parse_slice(msg32.as_slice()).unwrap();
    let (sig, rec_id) = libsecp256k1::sign(&msg, secret);
    let mut out = sig.serialize().to_vec();
    out.push(rec_id.serialize());
    out
}

/// Relies on libsecp256k1's `PublicKey::from_secret_key`: the public key of
/// a secret key.
#[verifier::external_body]
pub fn eth_public(secret: &libsecp256k1::SecretKey) -> (r: libsecp256k1::PublicKey) {
    libsecp256k1::PublicKey::from_secret_key(secret)
}

/// Relies on libsecp256k1's `PublicKey::serialize`: the 65-byte uncompressed
/// form, a format marker byte followed by the 64 key bytes.
#[verifier::external_body]
fn pubkey_uncompressed(pubkey: &libsecp256k1::PublicKey) -> (r: Vec<u8>)
    ensures
        r@.len() == 65,
{
    pubkey.serialize().to_vec()
}

/// What `eth_recover` returns: the address recovered from a 65-byte
/// recoverable signature over the canonical signable message built from
/// `what` and `extra`, or nothing when recovery fails.
pub open spec fn eth_recover_of(sig: Seq<u8>, what: Seq<u8>, extra: Seq<u8>) -> Option<Seq<u8>>
    recommends
        sig.len() == 65,
{
    let msg = keccak256_of(signable_message_of(what, extra));
    let rid = if sig[64] > 26 {
        (sig[64] - 27) as u8
    } else {
        sig[64]
    };
    match secp256k1_recover_of(sig.subrange(0, 64), rid, msg) {
        Some(pk) => Some(keccak256_of(pk).subrange(12, 32)),
        None => None,
    }
}

/// Recovers the address that signed the canonical message over `what` and
/// `extra`: hash the signable message, run ECDSA recovery, hash the
/// recovered public key and keep its last 20 bytes.
pub fn eth_recover(sig: &EcdsaSignature, what: &Vec<u8>, extra: &Vec<u8>) -> (r: Option<
    EvmAddress,
>)
    requires
        sig.wf(),
        what@.len() + extra@.len() + 10 <= usize::MAX,
    ensures
        match r {
            Some(addr) => eth_recover_of(sig@, what@, extra@) == Some(addr@) && addr.wf(),
            None => eth_recover_of(sig@, what@, extra@) is None,
        },
{
    let signable = ethereum_signable_message(what, extra);
    let msg = keccak_256(&signable);
    let sig64 = sub_bytes(&sig.bytes, 0, 64);
    let v = sig.bytes[64];
    let rid: u8 = if v > 26 {
        v - 27
    } else {
        v
    };
    match secp256k1_recover(&sig64, rid, &msg) {
        Some(pk) => {
            let h = keccak_256(&pk);
            let addr_bytes = sub_bytes(&h, 12, 32);
            Some(EvmAddress::new(addr_bytes))
        },
        None => None,
    }
}

/// The address belonging to a secret key: the last 20 bytes of the Keccak
/// digest of its uncompressed public key, format marker excluded.
pub fn eth_address(secret: &libsecp256k1::SecretKey) -> (r: EvmAddress)
    ensures
        r.wf(),
{
    let pubkey = eth_public(secret);
    let ser = pubkey_uncompressed(&pubkey);
    let body = sub_bytes(&ser, 1, 65);
    let h = keccak_256(&body);
    EvmAddress::new(sub_bytes(&h, 12, 32))
}

/// Signs the canonical message over the ASCII-hex encoding of `what` and
/// the bytes of `extra` with the given secret key, yielding a recoverable
/// 65-byte signature.
pub fn eth_sign(secret: &libsecp256k1::SecretKey, what: &Vec<u8>, extra: &Vec<u8>) -> (r:
    EcdsaSignature)
    requires
        2 * what@.len() + extra@.len() + 10 <= usize::MAX,
    ensures
        r.wf(),
{
    let hexed = to_ascii_hex(what);
    proof {
        lemma_hex_of_len(what@);
    }
    let signable = ethereum_signable_message(&hexed, extra);
    let msg = keccak_256(&signable);
    let sig65 = secp256k1_sign(secret, &msg);
    EcdsaSignature::new(sig65)
}

} // verus!
