//! Ring-proof backend bindings.
//!
//! The polynomial-commitment parameters, the per-ring-size proving context
//! and the ring proof construction and verification come from `ark-vrf`'s
//! ring module. As in the rest of the backend, each value is opaque and the
//! contracts speak of it through an uninterpreted name for its canonical
//! serialization; derivations are deterministic in those names.

use vstd::prelude::*;

use crate::backend::{
    input_repr, output_repr, public_repr, secret_repr, PublicKey, RingProof, SecretKey, VrfInput,
    VrfOutput, VrfSuite,
};
use ark_vrf::ring::{Prover as RingProverTrait, Verifier as RingVerifierTrait};
use ark_vrf::reexports::ark_serialize::{
    CanonicalDeserialize, CanonicalSerialize, SerializationError,
};

verus! {

/// An upper guard on ring sizes handed to the backend, so that its internal
/// domain-size arithmetic (a few multiples of the next power of two) cannot
/// overflow even on 32-bit targets. Far above any practical ring.
pub const MAX_RING_SIZE_BOUND: usize = 0x100_0000;

/// Polynomial-commitment-scheme parameters (a KZG reference string). Opaque.
#[verifier::external_body]
pub struct PcsParams(ark_vrf::ring::PcsParams<VrfSuite>);

/// A proving/verifying context derived for one ring size. Opaque.
#[verifier::external_body]
pub struct RingContext(ark_vrf::ring::RingSetup<VrfSuite>);

/// A compact commitment to a full ring of public keys. Opaque.
#[verifier::external_body]
pub struct RingCommitment(ark_vrf::ring::RingCommitment<VrfSuite>);

/// Proving key material for one specific ring. Opaque.
#[verifier::external_body]
pub struct RingProverKey(ark_vrf::ring::RingProverKey<VrfSuite>);

/// Verifying key material for one specific ring. Opaque.
#[verifier::external_body]
pub struct RingVerifierKey(ark_vrf::ring::RingVerifierKey<VrfSuite>);

/// A prover instance bound to a ring and a position in it. Opaque.
#[verifier::external_body]
pub struct RingProver(ark_vrf::ring::RingProver<VrfSuite>);

/// A verifier instance bound to a ring commitment. Opaque.
#[verifier::external_body]
pub struct RingVerifier(ark_vrf::ring::RingVerifier<VrfSuite>);

/// Canonical uncompressed serialization of PCS parameters.
pub uninterp spec fn params_repr(p: PcsParams) -> Seq<u8>;

/// Canonical serialization of a ring context.
pub uninterp spec fn setup_repr(c: RingContext) -> Seq<u8>;

/// Canonical serialization of a ring commitment.
pub uninterp spec fn commitment_repr(c: RingCommitment) -> Seq<u8>;

/// Canonical serialization of a ring verifier key.
pub uninterp spec fn vk_repr(k: RingVerifierKey) -> Seq<u8>;

/// The keyset capacity of the context a prover key was built from.
pub uninterp spec fn pk_max_keys(k: RingProverKey) -> int;

/// Whether a prover instance was built with its key index inside the
/// keyset capacity of its proving key.
pub uninterp spec fn prover_wf(p: RingProver) -> bool;

/// Serialized PCS parameters that the seeded deterministic setup produces
/// for a given ring size and 32-byte seed.
pub uninterp spec fn params_of_seed(ring_size: int, seed: Seq<u8>) -> Seq<u8>;

/// Whether PCS parameters are large enough to derive a context for the
/// given ring size.
pub uninterp spec fn pcs_supports(params: Seq<u8>, ring_size: int) -> bool;

/// Serialized ring context derived from PCS parameters for a ring size.
pub uninterp spec fn setup_of(params: Seq<u8>, ring_size: int) -> Seq<u8>;

/// The maximum ring size a context can handle.
pub uninterp spec fn max_ring_of(setup: Seq<u8>) -> int;

/// Serialized verifier key built from a context and a ring of public keys,
/// the keys given by their serializations, in ring order.
pub uninterp spec fn vk_of(setup: Seq<u8>, ring: Seq<Seq<u8>>) -> Seq<u8>;

/// Serialized commitment carried inside a verifier key.
pub uninterp spec fn commitment_of_vk(vk: Seq<u8>) -> Seq<u8>;

/// Serialized verifier key rebuilt from a context and a stored commitment.
pub uninterp spec fn vk_from_commitment(setup: Seq<u8>, commitment: Seq<u8>) -> Seq<u8>;

/// The context a verifier instance was built from, by its serialization.
pub uninterp spec fn rv_setup(v: RingVerifier) -> Seq<u8>;

/// The verifier key a verifier instance was built from, by its
/// serialization.
pub uninterp spec fn rv_key(v: RingVerifier) -> Seq<u8>;

/// Whether the ring proof check accepts: a function of the context, the
/// verifier key, the input and output points, the aux data and the proof,
/// all given by their serializations. Verification is deterministic, so
/// the outcome is a function of these arguments.
pub uninterp spec fn ring_accepts(setup: Seq<u8>, vk: Seq<u8>, input: Seq<u8>, output: Seq<u8>, aux: Seq<u8>, proof: Seq<u8>) -> bool;

/// Whether a byte string deserializes as PCS parameters.
pub uninterp spec fn pcs_parses(b: Seq<u8>) -> bool;

/// Whether 752 bytes are a canonical encoding of a valid ring proof.
pub uninterp spec fn is_ring_proof_encoding(b: Seq<u8>) -> bool;

/// Canonical compressed serialization of a ring proof (752 bytes).
pub uninterp spec fn ring_proof_repr(p: RingProof) -> Seq<u8>;

/// The serializations of a ring of public keys, in ring order.
pub open spec fn ring_reprs(ring: Seq<PublicKey>) -> Seq<Seq<u8>> {
    ring.map_values(|p: PublicKey| public_repr(p))
}

/// The serialized commitment that a context and a ring determine.
pub open spec fn ring_commitment_of(setup: Seq<u8>, ring: Seq<Seq<u8>>) -> Seq<u8> {
    commitment_of_vk(vk_of(setup, ring))
}

/// Relies on `ark_vrf::ring::PcsParams`'s `CanonicalDeserialize`
/// (uncompressed, unchecked): parsing succeeds exactly when the bytes are
/// a serialized KZG reference string, a function of the bytes alone.
#[verifier::external_body]
pub(crate) fn pcs_params_from_bytes(b: &[u8]) -> (r: Result<PcsParams, SerializationError>)
    ensures
        r is Ok <==> pcs_parses(b@),
{
    ark_vrf::ring::PcsParams::<VrfSuite>::deserialize_uncompressed_unchecked(b).map(PcsParams)
}

/// Relies on `ark_vrf::ring::RingSetup::from_seed`: the setup, and so its
/// PCS parameters, depends on the ring size and the 32-byte seed alone.
#[verifier::external_body]
pub(crate) fn pcs_params_from_seed(ring_size: usize, seed: &[u8]) -> (r: PcsParams)
    requires
        seed@.len() == 32,
        1 <= ring_size <= MAX_RING_SIZE_BOUND,
    ensures
        params_repr(r) == params_of_seed(ring_size as int, seed@),
{
    let mut buf = [0u8; 32];
    buf.copy_from_slice(seed);
    PcsParams(ark_vrf::ring::RingSetup::<VrfSuite>::from_seed(ring_size, buf).pcs_params)
}

/// Relies on `ark_vrf::ring::RingSetup::from_pcs_params`: succeeds exactly
/// when the parameters hold enough powers for the ring size; the derived
/// context depends on parameters and ring size alone, and its capacity
/// covers at least the requested ring size.
#[verifier::external_body]
pub(crate) fn ring_context_from_params(params: &PcsParams, ring_size: usize) -> (r: Result<
    RingContext,
    ark_vrf::Error,
>)
    requires
        ring_size <= MAX_RING_SIZE_BOUND,
    ensures
        r is Ok <==> pcs_supports(params_repr(*params), ring_size as int),
        r is Ok ==> setup_repr(r.unwrap()) == setup_of(params_repr(*params), ring_size as int),
        r is Ok ==> max_ring_of(setup_repr(r.unwrap())) >= ring_size,
{
    ark_vrf::ring::RingSetup::<VrfSuite>::from_pcs_params(ring_size, params.0.clone()).map(RingContext)
}

/// Relies on `ark_vrf::ring::RingSetup`'s derived `Clone`: the clone is an
/// equal context.
#[verifier::external_body]
pub(crate) fn ring_context_clone(c: &RingContext) -> (r: RingContext)
    ensures
        setup_repr(r) == setup_repr(*c),
{
    RingContext(c.0.clone())
}

/// Relies on `ark_vrf::ring::RingSetup::prover_key`: for this Twisted
/// Edwards suite the key mapping never fails, so the call succeeds exactly
/// when the ring fits the context's keyset capacity.
#[verifier::external_body]
pub(crate) fn prover_key(c: &RingContext, ring: &Vec<PublicKey>) -> (r: Result<
    RingProverKey,
    ark_vrf::Error,
>)
    ensures
        r is Ok <==> ring@.len() <= max_ring_of(setup_repr(*c)),
        r is Ok ==> pk_max_keys(r.unwrap()) == max_ring_of(setup_repr(*c)),
{
    let pts: Vec<_> = ring.iter().map(|pk| pk.0 .0).collect();
    c.0.prover_key(&pts).map(RingProverKey)
}

/// Relies on `ark_vrf::ring::RingContext::ring_prover`: builds a prover
/// bound to the key and position; with the index inside the key's keyset
/// capacity the later proving step is well-defined.
#[verifier::external_body]
pub(crate) fn ring_prover(c: &RingContext, key: RingProverKey, index: usize) -> (r: RingProver)
    requires
        index < pk_max_keys(key),
        pk_max_keys(key) == max_ring_of(setup_repr(*c)),
    ensures
        prover_wf(r),
{
    RingProver(c.0.ring_prover(key.0, index))
}

/// Relies on `ark_vrf::ring::Prover::prove`: produces a ring proof for the
/// input/output pair, bound to the aux data and the prover's ring position.
/// The proof is blinded, so nothing is claimed of its bytes.
#[verifier::external_body]
pub(crate) fn ring_prove(
    s: &SecretKey,
    i: &VrfInput,
    o: &VrfOutput,
    aux: &[u8],
    prover: &RingProver,
) -> (r: RingProof)
    requires
        prover_wf(*prover),
{
    let io = ark_vrf::VrfIo { input: i.0, output: o.0 };
    RingProof(s.0.prove(io, aux, &prover.0))
}

/// Relies on `ark_vrf::ring::RingSetup::verifier_key`: for this Twisted
/// Edwards suite the key mapping never fails, so the call succeeds exactly
/// when the ring fits the context's keyset capacity; the key depends on
/// context and ring alone.
#[verifier::external_body]
pub(crate) fn verifier_key(c: &RingContext, ring: &Vec<PublicKey>) -> (r: Result<
    RingVerifierKey,
    ark_vrf::Error,
>)
    ensures
        r is Ok <==> ring@.len() <= max_ring_of(setup_repr(*c)),
        r is Ok ==> vk_repr(r.unwrap()) == vk_of(setup_repr(*c), ring_reprs(ring@)),
{
    let pts: Vec<_> = ring.iter().map(|pk| pk.0 .0).collect();
    c.0.verifier_key(&pts).map(RingVerifierKey)
}

/// Relies on `RingVerifierKey::commitment` of the `w3f-ring-proof` crate:
/// returns the commitment carried inside the key, determined by the key.
#[verifier::external_body]
pub(crate) fn vk_commitment(k: &RingVerifierKey) -> (r: RingCommitment)
    ensures
        commitment_repr(r) == commitment_of_vk(vk_repr(*k)),
{
    RingCommitment(k.0.commitment())
}

/// Relies on `ark_vrf::ring::RingSetup::verifier_key_from_commitment`:
/// rebuilds a verifier key from a stored commitment and the small verifier
/// part of the parameters, without the full ring; deterministic in both.
#[verifier::external_body]
pub(crate) fn verifier_key_from_commitment(c: &RingContext, com: &RingCommitment) -> (r: RingVerifierKey)
    ensures
        vk_repr(r) == vk_from_commitment(setup_repr(*c), commitment_repr(*com)),
{
    RingVerifierKey(c.0.verifier_key_from_commitment(com.0.clone()))
}

/// Relies on `ark_vrf::ring::RingContext::ring_verifier`: builds a verifier
/// instance carrying exactly the given context's parameters and key.
#[verifier::external_body]
pub(crate) fn ring_verifier(c: &RingContext, key: RingVerifierKey) -> (r: RingVerifier)
    ensures
        rv_setup(r) == setup_repr(*c),
        rv_key(r) == vk_repr(key),
{
    RingVerifier(c.0.ring_verifier(key.0))
}

/// Relies on `ark_vrf::ring::Verifier::verify`: a deterministic check of
/// the ring proof against the input/output pair, the aux data and the
/// verifier instance; it accepts exactly when the named acceptance
/// predicate holds of their serializations, and never panics.
#[verifier::external_body]
pub(crate) fn ring_proof_verify(
    i: &VrfInput,
    o: &VrfOutput,
    aux: &[u8],
    proof: &RingProof,
    verifier: &RingVerifier,
) -> (r: Result<(), ark_vrf::Error>)
    ensures
        r is Ok <==> ring_accepts(
            rv_setup(*verifier),
            rv_key(*verifier),
            input_repr(*i),
            output_repr(*o),
            aux@,
            ring_proof_repr(*proof),
        ),
{
    let io = ark_vrf::VrfIo { input: i.0, output: o.0 };
    ark_vrf::Public::verify(io, aux, &proof.0, &verifier.0)
}

/// Relies on `ark_vrf::ring::Proof`'s `CanonicalSerialize`: the compressed
/// form is 752 bytes, Pedersen part then membership part; writing into a
/// `Vec` cannot fail.
#[verifier::external_body]
pub(crate) fn serialize_ring_proof(p: &RingProof) -> (r: Result<Vec<u8>, SerializationError>)
    ensures
        r is Ok,
        r is Ok ==> r.unwrap()@ == ring_proof_repr(*p) && r.unwrap()@.len() == 752,
{
    let mut buf = Vec::new();
    match p.0.serialize_compressed(&mut buf) {
        Ok(()) => Ok(buf),
        Err(e) => Err(e),
    }
}

/// Relies on `ark_vrf::ring::Proof`'s `CanonicalDeserialize`: succeeds
/// exactly on canonical encodings of valid proofs (point validation
/// included), and re-serializing the proof gives the input bytes back.
#[verifier::external_body]
pub(crate) fn deserialize_ring_proof(b: &[u8]) -> (r: Result<RingProof, SerializationError>)
    requires
        b@.len() == 752,
    ensures
        r is Ok <==> is_ring_proof_encoding(b@),
        r is Ok ==> ring_proof_repr(r.unwrap()) == b@,
{
    ark_vrf::ring::Proof::deserialize_compressed(b).map(RingProof)
}

/// The canonical compressed encoding of the suite's fixed padding public
/// key: the point's y coordinate in 32 little-endian bytes, with the top
/// bit of the last byte carrying the sign of x.
pub open spec fn padding_point_encoding() -> Seq<u8> {
    seq![
        0xdau8, 0x5cu8, 0xa1u8, 0x8eu8, 0x76u8, 0xfbu8, 0xd5u8, 0x46u8, 0x73u8, 0x19u8, 0x79u8,
        0x5eu8, 0x26u8, 0xfdu8, 0x80u8, 0xf0u8, 0xb9u8, 0xcfu8, 0x7fu8, 0xc8u8, 0x88u8, 0xd9u8,
        0x95u8, 0x34u8, 0x8bu8, 0x7fu8, 0xf2u8, 0x99u8, 0x19u8, 0x7au8, 0x42u8, 0xc4u8,
    ]
}

/// Relies on `ark_vrf::ring::RingSetup::padding_point` and the point's
/// `CanonicalSerialize`: the fixed backend-defined padding public key,
/// whose canonical 32-byte encoding is the same in every process; writing
/// into a `Vec` cannot fail.
#[verifier::external_body]
pub(crate) fn padding_point_bytes() -> (r: Result<Vec<u8>, SerializationError>)
    ensures
        r is Ok,
        r is Ok ==> r.unwrap()@ == padding_point_encoding() && r.unwrap()@.len() == 32,
{
    let p = ark_vrf::Public::<VrfSuite>::from_affine_unchecked(
        ark_vrf::ring::RingSetup::<VrfSuite>::padding_point(),
    );
    let mut buf = Vec::new();
    match p.serialize_compressed(&mut buf) {
        Ok(()) => Ok(buf),
        Err(e) => Err(e),
    }
}

} // verus!
