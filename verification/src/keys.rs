//! Key-pair derivation and serialization.
//!
//! A secret key is derived deterministically from an arbitrary-length
//! seed: the seed is hashed to 32 bytes and handed to the backend's key
//! derivation, so identical seeds always give the identical key pair.

use vstd::prelude::*;

use crate::backend::{
    is_public_encoding, is_secret_encoding, public_from_bytes, public_of_secret, public_repr,
    secret_bytes_of_seed, secret_from_bytes, secret_from_seed, secret_public, secret_repr,
    serialize_public, serialize_secret, sha256, sha256_of, PublicKey, SecretKey,
};
use crate::ring_backend::{padding_point_bytes, padding_point_encoding};
use vstd::slice::slice_subrange;

verus! {

/// The serialized key pair — secret then public, 32 bytes each — that an
/// arbitrary-length seed determines.
pub open spec fn key_pair_of_seed(seed: Seq<u8>) -> Seq<u8> {
    secret_bytes_of_seed(sha256_of(seed)) + public_of_secret(secret_bytes_of_seed(sha256_of(seed)))
}

/// Derive the secret key that an arbitrary-length seed determines.
pub fn secret_key_from_seed(seed: &[u8]) -> (r: SecretKey)
    ensures
        secret_repr(r) == secret_bytes_of_seed(sha256_of(seed@)),
{
    let digest = sha256(seed);
    secret_from_seed(digest.as_slice())
}

/// Serialize a key pair as secret followed by public, 64 bytes: the
/// secret part is exactly the first 32 bytes, the public part the rest.
pub fn serialize_key_pair(secret: &SecretKey, public_key: &PublicKey) -> (r: Option<Vec<u8>>)
    ensures
        r is Some,
        r is Some ==> r.unwrap()@ == secret_repr(*secret) + public_repr(*public_key),
        r is Some ==> r.unwrap()@.len() == 64,
        r is Some ==> r.unwrap()@.subrange(0, 32) == secret_repr(*secret),
        r is Some ==> r.unwrap()@.subrange(32, 64) == public_repr(*public_key),
{
    let mut serialized = match serialize_secret(secret) {
        Ok(b) => b,
        Err(_) => {
            // Unreachable: serializing into a byte vector cannot fail.
            proof {
                assert(false);
            }
            return None;
        }
    };
    let mut public_bytes = match serialize_public(public_key) {
        Ok(b) => b,
        Err(_) => {
            proof {
                assert(false);
            }
            return None;
        }
    };
    let ghost secret_model = serialized@;
    serialized.append(&mut public_bytes);
    proof {
        assert(serialized@.subrange(0, 32) == secret_model);
        assert(serialized@.subrange(32, 64) == public_repr(*public_key));
    }
    Some(serialized)
}

/// Derive a key pair from an arbitrary-length seed and serialize it as
/// {secret(32) ‖ public(32)}: the secret key in the first 32 bytes, its
/// public key in the last 32.
///
/// Always succeeds, and the result is a function of the seed alone:
/// identical seeds give the identical 64 bytes.
pub fn create_key_pair_from_seed(seed: &[u8]) -> (r: Option<Vec<u8>>)
    ensures
        r is Some,
        r is Some ==> r.unwrap()@ == key_pair_of_seed(seed@),
        r is Some ==> r.unwrap()@.len() == 64,
        r is Some ==> r.unwrap()@.subrange(0, 32) == secret_bytes_of_seed(sha256_of(seed@)),
        r is Some ==> r.unwrap()@.subrange(32, 64) == public_of_secret(
            secret_bytes_of_seed(sha256_of(seed@)),
        ),
{
    let secret = secret_key_from_seed(seed);
    let public_key = secret_public(&secret);
    serialize_key_pair(&secret, &public_key)
}

/// Parse a 32-byte compressed public key, rejecting any malformed or
/// non-canonical encoding rather than coercing it.
pub fn public_key_from_bytes(b: &[u8]) -> (r: Option<PublicKey>)
    ensures
        r is Some <==> b@.len() == 32 && is_public_encoding(b@),
        r is Some ==> public_repr(r.unwrap()) == b@,
{
    if b.len() != 32 {
        return None;
    }
    match public_from_bytes(b) {
        Ok(p) => Some(p),
        Err(_) => None,
    }
}

/// Parse a 32-byte serialized secret key, rejecting any malformed or
/// non-canonical scalar encoding.
pub fn secret_key_from_bytes(b: &[u8]) -> (r: Option<SecretKey>)
    ensures
        r is Some <==> b@.len() == 32 && is_secret_encoding(b@),
        r is Some ==> secret_repr(r.unwrap()) == b@,
{
    if b.len() != 32 {
        return None;
    }
    match secret_from_bytes(b) {
        Ok(s) => Some(s),
        Err(_) => None,
    }
}

/// The canonical 32-byte encoding of the fixed backend-defined padding
/// public key, used to pad short rings to a supported size.
///
/// Always succeeds and always returns the same bytes, in every process.
pub fn get_padding_point() -> (r: Option<Vec<u8>>)
    ensures
        r is Some,
        r is Some ==> r.unwrap()@ == padding_point_encoding(),
        r is Some ==> r.unwrap()@.len() == 32,
{
    match padding_point_bytes() {
        Ok(b) => Some(b),
        Err(_) => {
            // Unreachable: serializing into a byte vector cannot fail.
            proof {
                assert(false);
            }
            None
        }
    }
}

/// Parse a packed sequence of 32-byte compressed public keys into a ring.
///
/// Succeeds exactly when the byte length is a multiple of 32 and every
/// chunk is a canonical public key encoding; the resulting ring holds the
/// keys in input order.
pub fn ring_from_bytes(packed: &[u8]) -> (r: Option<Vec<PublicKey>>)
    ensures
        r is Some <==> packed@.len() % 32 == 0 && (forall|j: int|
            0 <= j < packed@.len() / 32 ==> is_public_encoding(
                #[trigger] packed@.subrange(32 * j, 32 * j + 32),
            )),
        r is Some ==> r.unwrap()@.len() == packed@.len() / 32,
        r is Some ==> forall|j: int|
            0 <= j < packed@.len() / 32 ==> public_repr(#[trigger] r.unwrap()@[j])
                == packed@.subrange(32 * j, 32 * j + 32),
{
    if packed.len() % 32 != 0 {
        return None;
    }
    let count = packed.len() / 32;
    proof {
        vstd::arithmetic::div_mod::lemma_fundamental_div_mod(packed@.len() as int, 32);
    }
    let mut ring: Vec<PublicKey> = Vec::new();
    let mut i: usize = 0;
    while i < count
        invariant
            packed@.len() % 32 == 0,
            count == packed@.len() / 32,
            32 * count == packed@.len(),
            packed@.len() <= usize::MAX,
            i <= count,
            ring@.len() == i,
            forall|j: int|
                0 <= j < i ==> public_repr(#[trigger] ring@[j]) == packed@.subrange(
                    32 * j,
                    32 * j + 32,
                ),
            forall|j: int|
                0 <= j < i ==> is_public_encoding(#[trigger] packed@.subrange(32 * j, 32 * j + 32)),
        decreases count - i,
    {
        let chunk = slice_subrange(packed, 32 * i, 32 * i + 32);
        match public_from_bytes(chunk) {
            Ok(p) => {
                ring.push(p);
            }
            Err(_) => {
                return None;
            }
        }
        i = i + 1;
    }
    Some(ring)
}

} // verus!
