//! Curve backend bindings.
//!
//! The elliptic-curve arithmetic, the hash-to-curve map and the two proof
//! constructions live in the `ark-vrf` crate (Bandersnatch SHA-512
//! Elligator2 suite) and are consumed as an opaque capability. Each backend
//! value is held in an opaque wrapper type of this crate, every call into
//! the backend goes through a trusted wrapper function, and the contracts
//! speak of backend values only through uninterpreted names for their
//! canonical serializations.

use vstd::prelude::*;

use ark_vrf::reexports::ark_serialize::{
    CanonicalDeserialize, CanonicalSerialize, SerializationError,
};
use sha2::Digest;
use ark_vrf::tiny::{Prover as TinyProver, Verifier as TinyVerifier};

verus! {

/// The fixed cipher suite: Bandersnatch in Twisted Edwards form, SHA-512,
/// Elligator2 hash-to-curve.
pub type VrfSuite = ark_vrf::suites::bandersnatch::BandersnatchSha512Ell2;

/// A secret VRF key (scalar plus cached public key). Opaque.
#[verifier::external_body]
pub struct SecretKey(pub(crate) ark_vrf::Secret<VrfSuite>);

/// A public VRF key: a curve point, 32 bytes compressed. Opaque.
#[verifier::external_body]
pub struct PublicKey(pub(crate) ark_vrf::Public<VrfSuite>);

/// A VRF input point, derived from arbitrary data by hash-to-curve. Opaque.
#[verifier::external_body]
pub struct VrfInput(pub(crate) ark_vrf::Input<VrfSuite>);

/// A VRF output point, computed from a secret key and an input. Opaque.
#[verifier::external_body]
pub struct VrfOutput(pub(crate) ark_vrf::Output<VrfSuite>);

/// A non-anonymous proof: compact Schnorr-style `(c, s)` pair. Opaque.
#[verifier::external_body]
pub struct IetfProof(pub(crate) ark_vrf::tiny::Proof<VrfSuite>);

/// An anonymous ring proof: Pedersen part plus membership part. Opaque.
#[verifier::external_body]
pub struct RingProof(pub(crate) ark_vrf::ring::Proof<VrfSuite>);

#[verifier::external_type_specification]
#[verifier::external_body]
pub struct ExArkError(ark_vrf::Error);

#[verifier::external_type_specification]
#[verifier::external_body]
pub struct ExSerializationError(SerializationError);

/// Canonical compressed serialization of a secret key (32 bytes).
pub uninterp spec fn secret_repr(s: SecretKey) -> Seq<u8>;

/// Canonical compressed serialization of a public key (32 bytes).
pub uninterp spec fn public_repr(p: PublicKey) -> Seq<u8>;

/// Canonical compressed serialization of a VRF input point (32 bytes).
pub uninterp spec fn input_repr(i: VrfInput) -> Seq<u8>;

/// Canonical compressed serialization of a VRF output point (32 bytes).
pub uninterp spec fn output_repr(o: VrfOutput) -> Seq<u8>;

/// SHA-256 digest of a byte string.
pub uninterp spec fn sha256_of(data: Seq<u8>) -> Seq<u8>;

/// Serialized secret key that `Secret::from_seed` derives from a 32-byte seed.
pub uninterp spec fn secret_bytes_of_seed(seed: Seq<u8>) -> Seq<u8>;

/// Serialized public key that corresponds to a serialized secret key.
pub uninterp spec fn public_of_secret(sk: Seq<u8>) -> Seq<u8>;

/// Whether the hash-to-curve map succeeds on the given data.
pub uninterp spec fn input_ok(data: Seq<u8>) -> bool;

/// Serialized input point that hash-to-curve derives from the given data.
pub uninterp spec fn input_of_data(data: Seq<u8>) -> Seq<u8>;

/// Serialized output point computed from a secret key and an input point,
/// both given by their serializations.
pub uninterp spec fn output_of(sk: Seq<u8>, input: Seq<u8>) -> Seq<u8>;

/// The 32-byte hash of an output point, given by its serialization.
pub uninterp spec fn hash_of_output(output: Seq<u8>) -> Seq<u8>;

/// Whether 32 bytes are a canonical encoding of a valid public key.
pub uninterp spec fn is_public_encoding(b: Seq<u8>) -> bool;

/// Whether 32 bytes are a canonical encoding of a valid secret key scalar.
pub uninterp spec fn is_secret_encoding(b: Seq<u8>) -> bool;

/// Whether 32 bytes are a canonical encoding of a valid output point.
pub uninterp spec fn is_output_encoding(b: Seq<u8>) -> bool;

/// Relies on `sha2::Sha256::digest`: the digest is 32 bytes and depends on
/// the input bytes alone.
#[verifier::external_body]
pub(crate) fn sha256(data: &[u8]) -> (r: Vec<u8>)
    ensures
        r@ == sha256_of(data@),
        r@.len() == 32,
{
    sha2::Sha256::digest(data).to_vec()
}

/// Relies on `ark_vrf::Secret::from_seed`: the derived key depends on the
/// 32-byte seed alone.
#[verifier::external_body]
pub(crate) fn secret_from_seed(seed: &[u8]) -> (r: SecretKey)
    requires
        seed@.len() == 32,
    ensures
        secret_repr(r) == secret_bytes_of_seed(seed@),
{
    let mut buf = [0u8; 32];
    buf.copy_from_slice(seed);
    SecretKey(ark_vrf::Secret::from_seed(buf))
}

/// Relies on `ark_vrf::Secret::public`: the public key is determined by the
/// secret key.
#[verifier::external_body]
pub(crate) fn secret_public(s: &SecretKey) -> (r: PublicKey)
    ensures
        public_repr(r) == public_of_secret(secret_repr(*s)),
{
    PublicKey(s.0.public())
}

/// Relies on `ark_vrf::Secret`'s `CanonicalSerialize`: the compressed form
/// is the 32-byte scalar encoding; writing into a `Vec` cannot fail.
#[verifier::external_body]
pub(crate) fn serialize_secret(s: &SecretKey) -> (r: Result<Vec<u8>, SerializationError>)
    ensures
        r is Ok,
        r is Ok ==> r.unwrap()@ == secret_repr(*s) && r.unwrap()@.len() == 32,
{
    let mut buf = Vec::new();
    match s.0.serialize_compressed(&mut buf) {
        Ok(()) => Ok(buf),
        Err(e) => Err(e),
    }
}

/// Relies on `ark_vrf::Public`'s `CanonicalSerialize`: the compressed form
/// is the 32-byte point encoding; writing into a `Vec` cannot fail.
#[verifier::external_body]
pub(crate) fn serialize_public(p: &PublicKey) -> (r: Result<Vec<u8>, SerializationError>)
    ensures
        r is Ok,
        r is Ok ==> r.unwrap()@ == public_repr(*p) && r.unwrap()@.len() == 32,
{
    let mut buf = Vec::new();
    match p.0.serialize_compressed(&mut buf) {
        Ok(()) => Ok(buf),
        Err(e) => Err(e),
    }
}

/// Relies on `ark_vrf::Public`'s `CanonicalDeserialize`: succeeds exactly on
/// canonical encodings of valid, non-identity points of the prime-order
/// subgroup, and re-serializing the point gives the input bytes back.
#[verifier::external_body]
pub(crate) fn public_from_bytes(b: &[u8]) -> (r: Result<PublicKey, SerializationError>)
    requires
        b@.len() == 32,
    ensures
        r is Ok <==> is_public_encoding(b@),
        r is Ok ==> public_repr(r.unwrap()) == b@,
{
    ark_vrf::Public::deserialize_compressed(b).map(PublicKey)
}

/// Relies on `ark_vrf::Public`'s derived `PartialEq`: two keys compare
/// equal exactly when they are the same point, that is, exactly when
/// their canonical serializations coincide.
#[verifier::external_body]
pub(crate) fn public_eq(a: &PublicKey, b: &PublicKey) -> (r: bool)
    ensures
        r == (public_repr(*a) == public_repr(*b)),
{
    a.0 == b.0
}

/// Relies on `ark_vrf::Secret`'s `CanonicalDeserialize`: succeeds exactly on
/// canonical 32-byte scalar encodings, and re-serializing gives the input
/// bytes back.
#[verifier::external_body]
pub(crate) fn secret_from_bytes(b: &[u8]) -> (r: Result<SecretKey, SerializationError>)
    requires
        b@.len() == 32,
    ensures
        r is Ok <==> is_secret_encoding(b@),
        r is Ok ==> secret_repr(r.unwrap()) == b@,
{
    ark_vrf::Secret::deserialize_compressed(b).map(SecretKey)
}

/// Relies on `ark_vrf::Input::new`: the hash-to-curve map is deterministic
/// in the input data.
#[verifier::external_body]
pub(crate) fn vrf_input_point(data: &[u8]) -> (r: Option<VrfInput>)
    ensures
        r is Some <==> input_ok(data@),
        r is Some ==> input_repr(r.unwrap()) == input_of_data(data@),
{
    ark_vrf::Input::new(data).map(VrfInput)
}

/// Relies on `ark_vrf::Secret::output`: the output point is the input point
/// multiplied by the secret scalar, determined by key and input alone.
#[verifier::external_body]
pub(crate) fn secret_output(s: &SecretKey, i: &VrfInput) -> (r: VrfOutput)
    ensures
        output_repr(r) == output_of(secret_repr(*s), input_repr(*i)),
{
    VrfOutput(s.0.output(i.0))
}

/// Relies on `ark_vrf::Output::hash`: the hash depends on the output point
/// alone; with `N = 32` it is the 32-byte prefix of the suite hash.
#[verifier::external_body]
pub(crate) fn output_hash32(o: &VrfOutput) -> (r: Vec<u8>)
    ensures
        r@ == hash_of_output(output_repr(*o)),
        r@.len() == 32,
{
    let h: [u8; 32] = o.0.hash();
    h.to_vec()
}

/// Relies on `ark_vrf::Output`'s `CanonicalSerialize`: the compressed form
/// is the 32-byte point encoding; writing into a `Vec` cannot fail.
#[verifier::external_body]
pub(crate) fn serialize_output(o: &VrfOutput) -> (r: Result<Vec<u8>, SerializationError>)
    ensures
        r is Ok,
        r is Ok ==> r.unwrap()@ == output_repr(*o) && r.unwrap()@.len() == 32,
{
    let mut buf = Vec::new();
    match o.0.serialize_compressed(&mut buf) {
        Ok(()) => Ok(buf),
        Err(e) => Err(e),
    }
}

/// Relies on `ark_vrf::Output`'s `CanonicalDeserialize`: succeeds exactly on
/// canonical encodings of valid, non-identity points of the prime-order
/// subgroup, and re-serializing gives the input bytes back.
#[verifier::external_body]
pub(crate) fn deserialize_output(b: &[u8]) -> (r: Result<VrfOutput, SerializationError>)
    requires
        b@.len() == 32,
    ensures
        r is Ok <==> is_output_encoding(b@),
        r is Ok ==> output_repr(r.unwrap()) == b@,
{
    ark_vrf::Output::deserialize_compressed(b).map(VrfOutput)
}

/// Whether 48 bytes are an accepted encoding of a non-anonymous proof
/// (16-byte truncated challenge, canonical 32-byte response scalar).
pub uninterp spec fn is_ietf_proof_encoding(b: Seq<u8>) -> bool;

/// Canonical compressed serialization of a non-anonymous proof (48 bytes).
pub uninterp spec fn ietf_proof_repr(p: IetfProof) -> Seq<u8>;

/// Serialized non-anonymous proof that proving deterministically derives
/// from a secret key, an input/output pair and aux data (the nonce is
/// hash-derived, never random).
pub uninterp spec fn ietf_proof_of(sk: Seq<u8>, input: Seq<u8>, output: Seq<u8>, aux: Seq<u8>) -> Seq<u8>;

/// Whether the non-anonymous check accepts the proof for the key, the
/// input/output pair and the aux data, all given by their serializations.
/// Verification is deterministic, so this is a function of its arguments.
pub uninterp spec fn ietf_accepts(key: Seq<u8>, input: Seq<u8>, output: Seq<u8>, aux: Seq<u8>, proof: Seq<u8>) -> bool;

/// Relies on `ark_vrf::tiny::Prover::prove`: produces a proof of correctness
/// of the input/output pair under the given key, bound to the aux data;
/// the nonce is derived by hashing, so the proof is a function of key,
/// pair and aux data alone.
#[verifier::external_body]
pub(crate) fn ietf_prove(s: &SecretKey, i: &VrfInput, o: &VrfOutput, aux: &[u8]) -> (r: IetfProof)
    ensures
        ietf_proof_repr(r) == ietf_proof_of(secret_repr(*s), input_repr(*i), output_repr(*o), aux@),
{
    let io = ark_vrf::VrfIo { input: i.0, output: o.0 };
    IetfProof(s.0.prove(io, aux))
}

/// Relies on `ark_vrf::tiny::Proof`'s `CanonicalSerialize`: the compressed
/// form is the 16-byte challenge followed by the 32-byte response; this
/// suite's scalars exceed the challenge length and writing into a `Vec`
/// cannot fail.
#[verifier::external_body]
pub(crate) fn serialize_ietf_proof(p: &IetfProof) -> (r: Result<Vec<u8>, SerializationError>)
    ensures
        r is Ok,
        r is Ok ==> r.unwrap()@ == ietf_proof_repr(*p) && r.unwrap()@.len() == 48,
{
    let mut buf = Vec::new();
    match p.0.serialize_compressed(&mut buf) {
        Ok(()) => Ok(buf),
        Err(e) => Err(e),
    }
}

/// Relies on `ark_vrf::tiny::Proof`'s `CanonicalDeserialize`: succeeds
/// exactly when the response scalar is a canonical encoding, and
/// re-serializing the proof gives the input bytes back.
#[verifier::external_body]
pub(crate) fn deserialize_ietf_proof(b: &[u8]) -> (r: Result<IetfProof, SerializationError>)
    requires
        b@.len() == 48,
    ensures
        r is Ok <==> is_ietf_proof_encoding(b@),
        r is Ok ==> ietf_proof_repr(r.unwrap()) == b@,
{
    ark_vrf::tiny::Proof::deserialize_compressed(b).map(IetfProof)
}

/// Relies on `ark_vrf::tiny::Verifier::verify`: a deterministic check of the
/// proof against the key, the input/output pair and the aux data; it
/// accepts exactly when the named acceptance predicate holds of their
/// serializations, and never panics.
#[verifier::external_body]
pub(crate) fn ietf_verify(
    p: &PublicKey,
    i: &VrfInput,
    o: &VrfOutput,
    aux: &[u8],
    proof: &IetfProof,
) -> (r: Result<(), ark_vrf::Error>)
    ensures
        r is Ok <==> ietf_accepts(
            public_repr(*p),
            input_repr(*i),
            output_repr(*o),
            aux@,
            ietf_proof_repr(*proof),
        ),
{
    let io = ark_vrf::VrfIo { input: i.0, output: o.0 };
    p.0.verify(io, aux, &proof.0)
}

} // verus!
