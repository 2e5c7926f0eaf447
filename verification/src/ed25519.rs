//! ZIP-215 compliant Ed25519 signature verification.
//!
//! The check itself is a single deterministic call into the
//! `ed25519-consensus` crate, made through trusted wrappers; this module
//! states exactly which byte inputs are accepted and verifies the length
//! handling and the result mapping around that call.

use vstd::prelude::*;

verus! {

/// An Ed25519 verification key, parsed from its 32-byte encoding. Opaque.
#[verifier::external_body]
pub struct Ed25519VerificationKey(ed25519_consensus::VerificationKey);

/// An Ed25519 signature, built from its 64-byte encoding. Opaque.
#[verifier::external_body]
pub struct Ed25519Signature(ed25519_consensus::Signature);

#[verifier::external_type_specification]
#[verifier::external_body]
pub struct ExEd25519Error(ed25519_consensus::Error);

/// The 32-byte encoding an Ed25519 verification key was parsed from.
pub uninterp spec fn ed25519_key_repr(k: Ed25519VerificationKey) -> Seq<u8>;

/// The 64-byte encoding an Ed25519 signature was built from.
pub uninterp spec fn ed25519_sig_repr(s: Ed25519Signature) -> Seq<u8>;

/// Whether 32 bytes are a valid Ed25519 verification key encoding.
pub uninterp spec fn ed25519_key_valid(b: Seq<u8>) -> bool;

/// Whether the ZIP-215 check accepts the signature over the message under
/// the key, all three given by their bytes.
pub uninterp spec fn ed25519_accepts(key: Seq<u8>, sig: Seq<u8>, msg: Seq<u8>) -> bool;

/// Relies on `ed25519_consensus::VerificationKey::try_from`: succeeds
/// exactly on valid key encodings and keeps the bytes it was given.
#[verifier::external_body]
fn ed25519_key_from_bytes(b: &[u8]) -> (r: Result<Ed25519VerificationKey, ed25519_consensus::Error>)
    requires
        b@.len() == 32,
    ensures
        r is Ok <==> ed25519_key_valid(b@),
        r is Ok ==> ed25519_key_repr(r.unwrap()) == b@,
{
    let mut buf = [0u8; 32];
    buf.copy_from_slice(b);
    ed25519_consensus::VerificationKey::try_from(buf).map(Ed25519VerificationKey)
}

/// Relies on `ed25519_consensus::Signature::from`: infallible, and keeps
/// the bytes it was given.
#[verifier::external_body]
fn ed25519_sig_from_bytes(b: &[u8]) -> (r: Ed25519Signature)
    requires
        b@.len() == 64,
    ensures
        ed25519_sig_repr(r) == b@,
{
    let mut buf = [0u8; 64];
    buf.copy_from_slice(b);
    Ed25519Signature(ed25519_consensus::Signature::from(buf))
}

/// Relies on `ed25519_consensus::VerificationKey::verify`: the ZIP-215
/// validation rules, deterministic in key, signature and message bytes.
#[verifier::external_body]
fn ed25519_check(
    key: &Ed25519VerificationKey,
    sig: &Ed25519Signature,
    msg: &[u8],
) -> (r: Result<(), ed25519_consensus::Error>)
    ensures
        r is Ok <==> ed25519_accepts(ed25519_key_repr(*key), ed25519_sig_repr(*sig), msg@),
{
    key.0.verify(&sig.0, msg)
}

/// Verify an Ed25519 signature using ZIP-215 compliant validation rules.
///
/// Returns `0` exactly when the key is 32 bytes and well-formed, the
/// signature is 64 bytes, and the ZIP-215 check accepts the triple;
/// returns `-1` in every other case.
pub fn ed25519_verify(public_key: &[u8], signature: &[u8], message: &[u8]) -> (r: i32)
    ensures
        r == 0 || r == -1,
        r == 0 <==> public_key@.len() == 32 && signature@.len() == 64 && ed25519_key_valid(
            public_key@,
        ) && ed25519_accepts(public_key@, signature@, message@),
{
    if public_key.len() != 32 || signature.len() != 64 {
        return -1;
    }
    let key = match ed25519_key_from_bytes(public_key) {
        Ok(k) => k,
        Err(_) => {
            return -1;
        }
    };
    let sig = ed25519_sig_from_bytes(signature);
    match ed25519_check(&key, &sig, message) {
        Ok(()) => 0,
        Err(_) => -1,
    }
}

} // verus!
