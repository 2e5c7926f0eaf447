//! Commitment-based verifier.
//!
//! Verifies ring signatures against a precomputed ring commitment and a
//! ring size, skipping commitment recomputation entirely — the preferred
//! path when verifying repeatedly against a stable, already-known ring.

use vstd::prelude::*;

use crate::backend::{input_ok, output_hash32, vrf_input_point};
use crate::codec::{decode_ring_signature, is_ring_signature_encoding};
use crate::context::{RingContextCache, RingContextError};
use crate::ring_backend::{
    commitment_repr, pcs_supports, ring_proof_verify, ring_verifier, verifier_key_from_commitment,
    RingCommitment, MAX_RING_SIZE_BOUND,
};
use crate::ring_vrf::{ring_sig_accepted, verified_output_hash};

verus! {

/// Why commitment-based verification failed.
#[derive(Debug, PartialEq, Eq, Structural, Clone, Copy)]
pub enum CommitmentVerifierError {
    /// The proof did not check out against the commitment and data.
    SignatureVerificationFailed,
    /// The signature bytes are not a well-formed encoding, or the input
    /// data could not be mapped to a curve point.
    DeserializationError,
    /// No ring context could be derived for this ring size.
    RingContextError(RingContextError),
}

/// Verifier working from a precomputed ring commitment and the size of
/// the ring it stands for.
pub struct CommitmentVerifier {
    pub commitment: RingCommitment,
    pub ring_size: usize,
}

impl CommitmentVerifier {
    /// Assemble a verifier from a commitment and its ring size.
    pub fn new(commitment: RingCommitment, ring_size: usize) -> (r: CommitmentVerifier)
        ensures
            r.commitment == commitment,
            r.ring_size == ring_size,
    {
        CommitmentVerifier { commitment, ring_size }
    }

    /// Anonymous VRF signature verification against the stored commitment.
    ///
    /// Same checks and same returned hash as the full-ring verifier, but
    /// the verifying key is rebuilt from the commitment alone.
    pub fn ring_vrf_verify(
        &self,
        ctx: &mut RingContextCache,
        vrf_input_data: &[u8],
        aux_data: &[u8],
        signature: &[u8],
    ) -> (r: Result<Vec<u8>, CommitmentVerifierError>)
        requires
            old(ctx).wf(),
        ensures
            final(ctx).wf(),
            final(ctx).params_id() == old(ctx).params_id(),
            final(ctx).capacity() == old(ctx).capacity(),
            !is_ring_signature_encoding(signature@) ==> r is Err && r->Err_0
                == CommitmentVerifierError::DeserializationError,
            is_ring_signature_encoding(signature@) && !input_ok(vrf_input_data@) ==> r is Err
                && r->Err_0 == CommitmentVerifierError::DeserializationError,
            is_ring_signature_encoding(signature@) && input_ok(vrf_input_data@) && !(self.ring_size
                <= MAX_RING_SIZE_BOUND && pcs_supports(old(ctx).params_id(), self.ring_size as int))
                ==> r is Err && r->Err_0 == CommitmentVerifierError::RingContextError(
                RingContextError::UnsupportedRingSize,
            ),
            r is Ok <==> is_ring_signature_encoding(signature@) && input_ok(vrf_input_data@)
                && self.ring_size <= MAX_RING_SIZE_BOUND && pcs_supports(
                old(ctx).params_id(),
                self.ring_size as int,
            ) && ring_sig_accepted(
                old(ctx).params_id(),
                self.ring_size as int,
                commitment_repr(self.commitment),
                vrf_input_data@,
                aux_data@,
                signature@,
            ),
            r is Err && r->Err_0 == CommitmentVerifierError::SignatureVerificationFailed
                <==> is_ring_signature_encoding(signature@) && input_ok(vrf_input_data@)
                && self.ring_size <= MAX_RING_SIZE_BOUND && pcs_supports(
                old(ctx).params_id(),
                self.ring_size as int,
            ) && !ring_sig_accepted(
                old(ctx).params_id(),
                self.ring_size as int,
                commitment_repr(self.commitment),
                vrf_input_data@,
                aux_data@,
                signature@,
            ),
            r is Ok ==> r->Ok_0@ == verified_output_hash(signature@) && r->Ok_0@.len() == 32,
            r is Err ==> r->Err_0 == CommitmentVerifierError::DeserializationError || r->Err_0
                == CommitmentVerifierError::SignatureVerificationFailed || r->Err_0
                == CommitmentVerifierError::RingContextError(RingContextError::UnsupportedRingSize),
    {
        let sig = match decode_ring_signature(signature) {
            Some(s) => s,
            None => {
                return Err(CommitmentVerifierError::DeserializationError);
            }
        };
        let input = match vrf_input_point(vrf_input_data) {
            Some(i) => i,
            None => {
                return Err(CommitmentVerifierError::DeserializationError);
            }
        };
        let ring_ctx = match ctx.ring_context(self.ring_size) {
            Ok(c) => c,
            Err(e) => {
                return Err(CommitmentVerifierError::RingContextError(e));
            }
        };
        let vkey = verifier_key_from_commitment(&ring_ctx, &self.commitment);
        let verifier = ring_verifier(&ring_ctx, vkey);
        match ring_proof_verify(&input, &sig.output, aux_data, &sig.proof, &verifier) {
            Ok(()) => Ok(output_hash32(&sig.output)),
            Err(_) => Err(CommitmentVerifierError::SignatureVerificationFailed),
        }
    }
}

} // verus!
