//! Prover and verifier actors.
//!
//! The prover holds a secret key, a ring of public keys and its position
//! in that ring, and produces either signature type. The verifier holds a
//! ring and the commitment computed from it, and checks either signature
//! type, returning the canonical 32-byte VRF output hash on success —
//! the same value in both modes for the same input data.

use vstd::prelude::*;

use crate::backend::{
    input_of_data, input_ok, output_of, public_of_secret, public_repr, secret_output, secret_repr,
    vrf_input_point, PublicKey, SecretKey,
};
use crate::backend::{ietf_prove, public_eq, secret_public};
use crate::codec::{
    encode_ietf_signature, encode_ring_signature, IETF_SIGNATURE_SIZE, RING_SIGNATURE_SIZE,
    VRF_OUTPUT_SIZE,
};
use crate::context::{RingContextCache, RingContextError};
use crate::ring_backend::{
    pcs_supports, prover_key, ring_accepts, ring_prove, ring_prover, vk_from_commitment,
    MAX_RING_SIZE_BOUND,
};
use crate::backend::{hash_of_output, ietf_accepts, ietf_proof_of, ietf_verify, output_hash32};
use crate::codec::{
    decode_ietf_signature, decode_ring_signature, is_ietf_signature_encoding,
    is_ring_signature_encoding,
};
use crate::ring_backend::{
    commitment_repr, ring_commitment_of, ring_proof_verify, ring_reprs, ring_verifier, setup_of,
    verifier_key, verifier_key_from_commitment, vk_commitment, RingCommitment,
};


verus! {

/// Why signing failed.
#[derive(Debug, PartialEq, Eq, Structural, Clone, Copy)]
pub enum ProverError {
    /// The backend could not serialize the signature. Kept for the
    /// error taxonomy; the signing paths here are total once their
    /// checks pass, so it is never produced.
    SerializationError,
    /// The prover's index does not point at the prover's own key inside
    /// the ring.
    InvalidProverIndex,
    /// The input data could not be mapped to a curve point.
    InvalidInput,
    /// No ring context could be derived for this ring size.
    ContextError(RingContextError),
}

/// The serialized output point that signing with the given secret key over
/// the given input data commits to, in either mode.
pub open spec fn signed_output_bytes(sk: Seq<u8>, input_data: Seq<u8>) -> Seq<u8> {
    output_of(sk, input_of_data(input_data))
}

/// The whole 80-byte non-anonymous signature that a secret key, input
/// data and aux data determine: proving is deterministic in this mode.
pub open spec fn ietf_signature_bytes(sk: Seq<u8>, input_data: Seq<u8>, aux: Seq<u8>) -> Seq<u8> {
    signed_output_bytes(sk, input_data) + ietf_proof_of(
        sk,
        input_of_data(input_data),
        output_of(sk, input_of_data(input_data)),
        aux,
    )
}

/// Whether the ring proof check accepts an encoded ring signature against
/// a reference string, a ring size, a stored commitment, input data and
/// aux data.
pub open spec fn ring_sig_accepted(
    params: Seq<u8>,
    ring_size: int,
    commitment: Seq<u8>,
    input_data: Seq<u8>,
    aux: Seq<u8>,
    sig: Seq<u8>,
) -> bool {
    ring_accepts(
        setup_of(params, ring_size),
        vk_from_commitment(setup_of(params, ring_size), commitment),
        input_of_data(input_data),
        sig.subrange(0, VRF_OUTPUT_SIZE as int),
        aux,
        sig.subrange(VRF_OUTPUT_SIZE as int, RING_SIGNATURE_SIZE as int),
    )
}

/// Whether the non-anonymous check accepts an encoded signature against
/// one public key, input data and aux data.
pub open spec fn ietf_sig_accepted(key: Seq<u8>, input_data: Seq<u8>, aux: Seq<u8>, sig: Seq<u8>) -> bool {
    ietf_accepts(
        key,
        input_of_data(input_data),
        sig.subrange(0, VRF_OUTPUT_SIZE as int),
        aux,
        sig.subrange(VRF_OUTPUT_SIZE as int, IETF_SIGNATURE_SIZE as int),
    )
}

/// Prover actor: a secret key and its position inside an ordered ring.
pub struct Prover {
    pub prover_idx: usize,
    pub secret: SecretKey,
    pub ring: Vec<PublicKey>,
}

impl Prover {
    /// Assemble a prover without validating the index against the ring.
    pub fn new(ring: Vec<PublicKey>, prover_secret: SecretKey, prover_idx: usize) -> (r: Prover)
        ensures
            r.ring@ == ring@,
            r.secret == prover_secret,
            r.prover_idx == prover_idx,
    {
        Prover { prover_idx, secret: prover_secret, ring }
    }

    /// Assemble a prover, checking that the claimed position inside the
    /// ring really holds this prover's own public key; a mismatch or an
    /// out-of-range index is an invalid-prover-index condition.
    pub fn new_checked(ring: Vec<PublicKey>, prover_secret: SecretKey, prover_idx: usize) -> (r:
        Result<Prover, ProverError>)
        ensures
            r is Ok <==> prover_idx < ring@.len() && public_repr(ring@[prover_idx as int])
                == public_of_secret(secret_repr(prover_secret)),
            r is Ok ==> r->Ok_0.ring@ == ring@ && r->Ok_0.secret == prover_secret
                && r->Ok_0.prover_idx == prover_idx,
            r is Err ==> r->Err_0 == ProverError::InvalidProverIndex,
    {
        if prover_idx >= ring.len() {
            return Err(ProverError::InvalidProverIndex);
        }
        let own = secret_public(&prover_secret);
        if !public_eq(&ring[prover_idx], &own) {
            return Err(ProverError::InvalidProverIndex);
        }
        Ok(Prover { prover_idx, secret: prover_secret, ring })
    }

    /// Anonymous VRF signature over the ring.
    ///
    /// Derives the input point from the input data, the output point from
    /// the secret key, a ring context sized to the ring from the cache,
    /// and a ring proof binding output, input, aux data and the prover's
    /// position; the encoded signature is exactly 784 bytes and opens with
    /// the canonical output point, which depends on the secret key and the
    /// input data alone — never on the aux data.
    pub fn ring_vrf_sign(
        &self,
        ctx: &mut RingContextCache,
        vrf_input_data: &[u8],
        aux_data: &[u8],
    ) -> (r: Result<Vec<u8>, ProverError>)
        requires
            old(ctx).wf(),
        ensures
            final(ctx).wf(),
            final(ctx).params_id() == old(ctx).params_id(),
            final(ctx).capacity() == old(ctx).capacity(),
            r is Err && r->Err_0 == ProverError::InvalidInput <==> !input_ok(vrf_input_data@),
            r is Err && r->Err_0 == ProverError::InvalidProverIndex <==> input_ok(vrf_input_data@)
                && self.prover_idx >= self.ring@.len(),
            r is Err && r->Err_0 == ProverError::ContextError(
                RingContextError::UnsupportedRingSize,
            ) <==> input_ok(vrf_input_data@) && self.prover_idx < self.ring@.len() && !(self.ring@.len()
                <= MAX_RING_SIZE_BOUND && pcs_supports(old(ctx).params_id(), self.ring@.len() as int)),
            r is Ok <==> input_ok(vrf_input_data@) && self.prover_idx < self.ring@.len()
                && self.ring@.len() <= MAX_RING_SIZE_BOUND && pcs_supports(
                old(ctx).params_id(),
                self.ring@.len() as int,
            ),
            r is Ok ==> r->Ok_0@.len() == RING_SIGNATURE_SIZE,
            r is Ok ==> r->Ok_0@.subrange(0, VRF_OUTPUT_SIZE as int) == signed_output_bytes(
                secret_repr(self.secret),
                vrf_input_data@,
            ),
    {
        let input = match vrf_input_point(vrf_input_data) {
            Some(i) => i,
            None => {
                return Err(ProverError::InvalidInput);
            }
        };
        if self.prover_idx >= self.ring.len() {
            return Err(ProverError::InvalidProverIndex);
        }
        let output = secret_output(&self.secret, &input);
        let ring_ctx = match ctx.ring_context(self.ring.len()) {
            Ok(c) => c,
            Err(e) => {
                return Err(ProverError::ContextError(e));
            }
        };
        let key = match prover_key(&ring_ctx, &self.ring) {
            Ok(k) => k,
            Err(_) => {
                // Unreachable: the context was derived for this very ring
                // size, so its capacity covers the ring.
                proof {
                    assert(false);
                }
                return Err(ProverError::SerializationError);
            }
        };
        let prover = ring_prover(&ring_ctx, key, self.prover_idx);
        let proof = ring_prove(&self.secret, &input, &output, aux_data, &prover);
        Ok(encode_ring_signature(&output, &proof))
    }

    /// Non-anonymous VRF signature.
    ///
    /// The proof is a direct proof of knowledge tied to the signer's own
    /// key: no ring traversal and no ring context. The encoded signature
    /// is exactly 80 bytes and opens with the same canonical output point
    /// as the anonymous mode for the same key and input data.
    pub fn ietf_vrf_sign(&self, vrf_input_data: &[u8], aux_data: &[u8]) -> (r: Result<
        Vec<u8>,
        ProverError,
    >)
        ensures
            r is Ok <==> input_ok(vrf_input_data@),
            r is Err ==> r->Err_0 == ProverError::InvalidInput,
            r is Ok ==> r->Ok_0@.len() == IETF_SIGNATURE_SIZE,
            r is Ok ==> r->Ok_0@ == ietf_signature_bytes(
                secret_repr(self.secret),
                vrf_input_data@,
                aux_data@,
            ),
            r is Ok ==> r->Ok_0@.subrange(0, VRF_OUTPUT_SIZE as int) == signed_output_bytes(
                secret_repr(self.secret),
                vrf_input_data@,
            ),
    {
        let input = match vrf_input_point(vrf_input_data) {
            Some(i) => i,
            None => {
                return Err(ProverError::InvalidInput);
            }
        };
        let output = secret_output(&self.secret, &input);
        let proof = ietf_prove(&self.secret, &input, &output, aux_data);
        Ok(encode_ietf_signature(&output, &proof))
    }
}


/// Why verification failed.
#[derive(Debug, PartialEq, Eq, Structural, Clone, Copy)]
pub enum VerifierError {
    /// The signature bytes are not a well-formed encoding, or the input
    /// data could not be mapped to a curve point.
    DeserializationError,
    /// The proof did not check out against the ring and data.
    VerificationFailed,
    /// The signer key index points outside the ring.
    InvalidSignerKeyIndex,
    /// No ring context could be derived for this ring size.
    ContextError(RingContextError),
}

/// The 32-byte value a successful verification returns for an encoded
/// signature: the canonical hash of its leading output point.
pub open spec fn verified_output_hash(sig: Seq<u8>) -> Seq<u8> {
    hash_of_output(sig.subrange(0, VRF_OUTPUT_SIZE as int))
}

/// Verifier actor: an ordered ring and the commitment that stands for it.
pub struct Verifier {
    pub commitment: RingCommitment,
    pub ring: Vec<PublicKey>,
}

impl Verifier {
    /// Build a verifier for a ring, computing its commitment once.
    ///
    /// The commitment is exactly the one the ring and the cache's
    /// reference string determine, so later verifications need only the
    /// commitment, not the keys. Fails only when no context can be
    /// derived for this ring size.
    pub fn new(ctx: &mut RingContextCache, ring: Vec<PublicKey>) -> (r: Result<
        Verifier,
        VerifierError,
    >)
        requires
            old(ctx).wf(),
        ensures
            final(ctx).wf(),
            final(ctx).params_id() == old(ctx).params_id(),
            final(ctx).capacity() == old(ctx).capacity(),
            r is Ok <==> ring@.len() <= MAX_RING_SIZE_BOUND && pcs_supports(
                old(ctx).params_id(),
                ring@.len() as int,
            ),
            r is Ok ==> r->Ok_0.ring@ == ring@,
            r is Ok ==> commitment_repr(r->Ok_0.commitment) == ring_commitment_of(
                setup_of(old(ctx).params_id(), ring@.len() as int),
                ring_reprs(ring@),
            ),
            r is Err ==> r->Err_0 == VerifierError::ContextError(
                RingContextError::UnsupportedRingSize,
            ),
    {
        let ring_ctx = match ctx.ring_context(ring.len()) {
            Ok(c) => c,
            Err(e) => {
                return Err(VerifierError::ContextError(e));
            }
        };
        let vkey = match verifier_key(&ring_ctx, &ring) {
            Ok(k) => k,
            Err(_) => {
                // Unreachable: the context was derived for this very ring
                // size, so its capacity covers the ring.
                proof {
                    assert(false);
                }
                return Err(VerifierError::VerificationFailed);
            }
        };
        let commitment = vk_commitment(&vkey);
        Ok(Verifier { commitment, ring })
    }

    /// Anonymous VRF signature verification.
    ///
    /// Decodes the signature, recomputes the input point, rebuilds the
    /// verifying key from the stored commitment through the cached
    /// context, and checks the ring proof against input, output and aux
    /// data. On success the result is the canonical 32-byte hash of the
    /// signature's output point.
    pub fn ring_vrf_verify(
        &self,
        ctx: &mut RingContextCache,
        vrf_input_data: &[u8],
        aux_data: &[u8],
        signature: &[u8],
    ) -> (r: Result<Vec<u8>, VerifierError>)
        requires
            old(ctx).wf(),
        ensures
            final(ctx).wf(),
            final(ctx).params_id() == old(ctx).params_id(),
            final(ctx).capacity() == old(ctx).capacity(),
            !is_ring_signature_encoding(signature@) ==> r is Err && r->Err_0
                == VerifierError::DeserializationError,
            is_ring_signature_encoding(signature@) && !input_ok(vrf_input_data@) ==> r is Err
                && r->Err_0 == VerifierError::DeserializationError,
            is_ring_signature_encoding(signature@) && input_ok(vrf_input_data@) && !(self.ring@.len()
                <= MAX_RING_SIZE_BOUND && pcs_supports(old(ctx).params_id(), self.ring@.len() as int))
                ==> r is Err && r->Err_0 == VerifierError::ContextError(
                RingContextError::UnsupportedRingSize,
            ),
            r is Ok <==> is_ring_signature_encoding(signature@) && input_ok(vrf_input_data@)
                && self.ring@.len() <= MAX_RING_SIZE_BOUND && pcs_supports(
                old(ctx).params_id(),
                self.ring@.len() as int,
            ) && ring_sig_accepted(
                old(ctx).params_id(),
                self.ring@.len() as int,
                commitment_repr(self.commitment),
                vrf_input_data@,
                aux_data@,
                signature@,
            ),
            r is Err && r->Err_0 == VerifierError::VerificationFailed <==> is_ring_signature_encoding(
                signature@,
            ) && input_ok(vrf_input_data@) && self.ring@.len() <= MAX_RING_SIZE_BOUND
                && pcs_supports(old(ctx).params_id(), self.ring@.len() as int)
                && !ring_sig_accepted(
                old(ctx).params_id(),
                self.ring@.len() as int,
                commitment_repr(self.commitment),
                vrf_input_data@,
                aux_data@,
                signature@,
            ),
            r is Ok ==> r->Ok_0@ == verified_output_hash(signature@) && r->Ok_0@.len() == 32,
            r is Err ==> r->Err_0 == VerifierError::DeserializationError || r->Err_0
                == VerifierError::VerificationFailed || r->Err_0 == VerifierError::ContextError(
                RingContextError::UnsupportedRingSize,
            ),
    {
        let sig = match decode_ring_signature(signature) {
            Some(s) => s,
            None => {
                return Err(VerifierError::DeserializationError);
            }
        };
        let input = match vrf_input_point(vrf_input_data) {
            Some(i) => i,
            None => {
                return Err(VerifierError::DeserializationError);
            }
        };
        let ring_ctx = match ctx.ring_context(self.ring.len()) {
            Ok(c) => c,
            Err(e) => {
                return Err(VerifierError::ContextError(e));
            }
        };
        let vkey = verifier_key_from_commitment(&ring_ctx, &self.commitment);
        let verifier = ring_verifier(&ring_ctx, vkey);
        match ring_proof_verify(&input, &sig.output, aux_data, &sig.proof, &verifier) {
            Ok(()) => Ok(output_hash32(&sig.output)),
            Err(_) => Err(VerifierError::VerificationFailed),
        }
    }

    /// Non-anonymous VRF signature verification.
    ///
    /// Looks up the signer's public key by index — an out-of-range index
    /// is an invalid-index condition, never an out-of-bounds access — and
    /// checks the proof directly against that key. On success the result
    /// is the same canonical 32-byte hash the anonymous path returns for
    /// identical input data.
    pub fn ietf_vrf_verify(
        &self,
        vrf_input_data: &[u8],
        aux_data: &[u8],
        signature: &[u8],
        signer_key_index: usize,
    ) -> (r: Result<Vec<u8>, VerifierError>)
        ensures
            !is_ietf_signature_encoding(signature@) ==> r is Err && r->Err_0
                == VerifierError::DeserializationError,
            is_ietf_signature_encoding(signature@) && !input_ok(vrf_input_data@) ==> r is Err
                && r->Err_0 == VerifierError::DeserializationError,
            r is Err && r->Err_0 == VerifierError::InvalidSignerKeyIndex <==> is_ietf_signature_encoding(
                signature@,
            ) && input_ok(vrf_input_data@) && signer_key_index >= self.ring@.len(),
            r is Ok <==> is_ietf_signature_encoding(signature@) && input_ok(vrf_input_data@)
                && signer_key_index < self.ring@.len() && ietf_sig_accepted(
                public_repr(self.ring@[signer_key_index as int]),
                vrf_input_data@,
                aux_data@,
                signature@,
            ),
            r is Err && r->Err_0 == VerifierError::VerificationFailed <==> is_ietf_signature_encoding(
                signature@,
            ) && input_ok(vrf_input_data@) && signer_key_index < self.ring@.len()
                && !ietf_sig_accepted(
                public_repr(self.ring@[signer_key_index as int]),
                vrf_input_data@,
                aux_data@,
                signature@,
            ),
            r is Ok ==> r->Ok_0@ == verified_output_hash(signature@) && r->Ok_0@.len() == 32,
            r is Err ==> r->Err_0 == VerifierError::DeserializationError || r->Err_0
                == VerifierError::VerificationFailed || r->Err_0
                == VerifierError::InvalidSignerKeyIndex,
    {
        let sig = match decode_ietf_signature(signature) {
            Some(s) => s,
            None => {
                return Err(VerifierError::DeserializationError);
            }
        };
        let input = match vrf_input_point(vrf_input_data) {
            Some(i) => i,
            None => {
                return Err(VerifierError::DeserializationError);
            }
        };
        if signer_key_index >= self.ring.len() {
            return Err(VerifierError::InvalidSignerKeyIndex);
        }
        let public = &self.ring[signer_key_index];
        match ietf_verify(public, &input, &sig.output, aux_data, &sig.proof) {
            Ok(()) => Ok(output_hash32(&sig.output)),
            Err(_) => Err(VerifierError::VerificationFailed),
        }
    }
}

} // verus!
