//! The cryptographic capabilities the ledger core relies on: a Blake2s
//! content digest, lowercase hex display of a digest, and Ed25519
//! signature verification.
//!
//! The primitives are not reimplemented here. Each is called through a
//! trusted wrapper whose contract names, or states exactly, what the
//! outside function returns.

use vstd::prelude::*;
use crate::encoding::hex_of;
use blake2::{Blake2s, Digest};
use ed25519_dalek::Verifier;

verus! {

/// The 32-byte Blake2s digest of a byte string. A digest is a pure
/// function of its input alone, far too long to state here, so it only
/// gets a name.
pub uninterp spec fn blake2s_of(bytes: Seq<u8>) -> Seq<u8>;

/// Whether an Ed25519 signature verifies against a public key over a
/// message. Verification is deterministic in the three byte strings
/// alone; a key or signature that does not parse verifies as false.
pub uninterp spec fn sig_verify(public_key: Seq<u8>, message: Seq<u8>, signature: Seq<u8>) -> bool;

/// Relies on `blake2::Blake2s` (through `digest::Digest::digest`): the
/// Blake2s digest of the input, always 32 bytes.
#[verifier::external_body]
pub(crate) fn blake2s_digest(bytes: &Vec<u8>) -> (r: Vec<u8>)
    ensures
        r@ == blake2s_of(bytes@),
        r@.len() == 32,
{
    Blake2s::digest(bytes.as_slice()).to_vec()
}

/// Relies on `hex::encode`: two lowercase hex digits per input byte,
/// high nibble first.
#[verifier::external_body]
pub(crate) fn hex_encode(bytes: &Vec<u8>) -> (r: String)
    ensures
        r@ == hex_of(bytes@),
{
    hex::encode(bytes.as_slice())
}

/// Relies on `ed25519_dalek::PublicKey::verify` (with
/// `PublicKey::from_bytes` and `ed25519::Signature::from_bytes` reading
/// the arguments): true exactly when `signature` is a valid Ed25519
/// signature by `public_key` over `message`.
#[verifier::external_body]
pub(crate) fn verify_signature(public_key: &Vec<u8>, message: &Vec<u8>, signature: &Vec<u8>) -> (r:
    bool)
    ensures
        r == sig_verify(public_key@, message@, signature@),
{
    let key = match ed25519_dalek::PublicKey::from_bytes(public_key.as_slice()) {
        Ok(key) => key,
        Err(_) => return false,
    };
    let sig = match ed25519_dalek::Signature::from_bytes(signature.as_slice()) {
        Ok(sig) => sig,
        Err(_) => return false,
    };
    key.verify(message.as_slice(), &sig).is_ok()
}

} // verus!
