//! The cryptographic primitives the protocol rests on: the sr25519 signature
//! scheme and the blake2b-256 hash, reached through the `sp_core` crate.
//!
//! Their results are given names rather than definitions: each is a function
//! of its arguments alone, and the contracts of the verified code speak of
//! those names. Nothing here restates the algorithms themselves.

use vstd::prelude::*;

verus! {

/// The 32-byte sr25519 public key derived from a 32-byte mini secret seed.
pub uninterp spec fn sr25519_public_of(seed: Seq<u8>) -> Seq<u8>;

/// Whether `signature` is a valid sr25519 signature on `message` under
/// `public`, in the signing context this chain uses.
pub uninterp spec fn sr25519_verifies(signature: Seq<u8>, message: Seq<u8>, public: Seq<u8>) -> bool;

/// The blake2b-256 digest of a byte string.
pub uninterp spec fn blake2_256_of(data: Seq<u8>) -> Seq<u8>;

/// Relies on `sp_core::sr25519::Pair::from_seed_slice` and
/// `sp_core::crypto::Pair::public`: a 32-byte seed expands to a key pair, and
/// the public half is a function of the seed alone.
#[verifier::external_body]
pub fn sr25519_public_from_seed(seed: &Vec<u8>) -> (r: Vec<u8>)
    requires
        seed@.len() == 32,
    ensures
        r@ == sr25519_public_of(seed@),
        r@.len() == 32,
{
    let pair = <sp_core::sr25519::Pair as sp_core::crypto::Pair>::from_seed_slice(seed.as_slice())
        .expect("a 32-byte seed is a valid mini secret key");
    let public = <sp_core::sr25519::Pair as sp_core::crypto::Pair>::public(&pair);
    sp_core::crypto::ByteArray::to_raw_vec(&public)
}

/// Relies on `sp_core::sr25519::Pair::{from_seed_slice, sign}`: signing
/// produces a 64-byte signature that `sp_core::sr25519::Pair::verify` accepts
/// on the signed message under the pair's public key. The signature itself is
/// randomized, so nothing more is stated of its bytes.
#[verifier::external_body]
pub fn sr25519_sign(seed: &Vec<u8>, message: &Vec<u8>) -> (r: Vec<u8>)
    requires
        seed@.len() == 32,
    ensures
        r@.len() == 64,
        sr25519_verifies(r@, message@, sr25519_public_of(seed@)),
{
    let pair = <sp_core::sr25519::Pair as sp_core::crypto::Pair>::from_seed_slice(seed.as_slice())
        .expect("a 32-byte seed is a valid mini secret key");
    let signature = <sp_core::sr25519::Pair as sp_core::crypto::Pair>::sign(&pair, message.as_slice());
    signature.0.to_vec()
}

/// Relies on `sp_core::sr25519::Pair::verify`: whether a signature is good is
/// a function of the signature, message and public key alone.
#[verifier::external_body]
pub fn sr25519_verify(signature: &Vec<u8>, message: &Vec<u8>, public: &Vec<u8>) -> (r: bool)
    requires
        signature@.len() == 64,
        public@.len() == 32,
    ensures
        r == sr25519_verifies(signature@, message@, public@),
{
    let mut sig_bytes = [0u8; 64];
    sig_bytes.copy_from_slice(signature.as_slice());
    let sig = sp_core::sr25519::Signature::from_raw(sig_bytes);
    let mut pk_bytes = [0u8; 32];
    pk_bytes.copy_from_slice(public.as_slice());
    let pk = sp_core::sr25519::Public::from_raw(pk_bytes);
    <sp_core::sr25519::Pair as sp_core::crypto::Pair>::verify(&sig, message.as_slice(), &pk)
}

/// Relies on `sp_core::Blake2Hasher::hash` (the `hash_db::Hasher`
/// implementation backed by blake2b-256): the 32-byte digest is a function of
/// the input bytes alone.
#[verifier::external_body]
pub fn blake2_256(data: &Vec<u8>) -> (r: Vec<u8>)
    ensures
        r@ == blake2_256_of(data@),
        r@.len() == 32,
{
    let digest = <sp_core::Blake2Hasher as sp_core::Hasher>::hash(data.as_slice());
    digest.as_bytes().to_vec()
}

} // verus!
