//! Signature codec.
//!
//! Both signature formats are the canonical compressed output point
//! followed by the canonical compressed proof, nothing else: ring
//! signatures are exactly 784 bytes, non-anonymous ones exactly 80.
//! Decoding rejects any input of the wrong length — truncated or with
//! trailing bytes — and any malformed point or proof encoding.

use vstd::prelude::*;

use crate::backend::{
    deserialize_ietf_proof, deserialize_output, ietf_proof_repr, is_ietf_proof_encoding,
    is_output_encoding, output_repr, serialize_ietf_proof, serialize_output, IetfProof, VrfOutput,
};
use crate::backend::RingProof;
use crate::ring_backend::{
    deserialize_ring_proof, is_ring_proof_encoding, ring_proof_repr, serialize_ring_proof,
};
use vstd::slice::slice_subrange;

verus! {

/// Compressed size of a VRF output point.
pub const VRF_OUTPUT_SIZE: usize = 32;

/// Compressed size of a ring proof.
pub const RING_PROOF_SIZE: usize = 752;

/// Exact size of an encoded ring signature.
pub const RING_SIGNATURE_SIZE: usize = 784;

/// Compressed size of a non-anonymous proof.
pub const IETF_PROOF_SIZE: usize = 48;

/// Exact size of an encoded non-anonymous signature.
pub const IETF_SIGNATURE_SIZE: usize = 80;

/// An anonymous signature: a VRF output point and a ring proof.
pub struct RingVrfSignature {
    pub output: VrfOutput,
    pub proof: RingProof,
}

/// A non-anonymous signature: a VRF output point and an IETF-style proof.
pub struct IetfVrfSignature {
    pub output: VrfOutput,
    pub proof: IetfProof,
}

/// Whether the bytes are a well-formed encoded ring signature.
pub open spec fn is_ring_signature_encoding(b: Seq<u8>) -> bool {
    &&& b.len() == RING_SIGNATURE_SIZE
    &&& is_output_encoding(b.subrange(0, VRF_OUTPUT_SIZE as int))
    &&& is_ring_proof_encoding(
        b.subrange(VRF_OUTPUT_SIZE as int, VRF_OUTPUT_SIZE as int + RING_PROOF_SIZE as int),
    )
}

/// Whether the bytes are a well-formed encoded non-anonymous signature.
pub open spec fn is_ietf_signature_encoding(b: Seq<u8>) -> bool {
    &&& b.len() == IETF_SIGNATURE_SIZE
    &&& is_output_encoding(b.subrange(0, VRF_OUTPUT_SIZE as int))
    &&& is_ietf_proof_encoding(
        b.subrange(VRF_OUTPUT_SIZE as int, VRF_OUTPUT_SIZE as int + IETF_PROOF_SIZE as int),
    )
}

/// Encode a ring signature: output point then proof, 784 bytes.
///
/// Serialization is deterministic and total: the result is exactly the
/// two canonical parts, in order.
pub fn encode_ring_signature(output: &VrfOutput, proof: &RingProof) -> (r: Vec<u8>)
    ensures
        r@.len() == RING_SIGNATURE_SIZE,
        r@ == output_repr(*output) + ring_proof_repr(*proof),
        r@.subrange(0, VRF_OUTPUT_SIZE as int) == output_repr(*output),
{
    let mut buf = match serialize_output(output) {
        Ok(b) => b,
        Err(_) => {
            // Unreachable: serializing into a byte vector cannot fail.
            proof {
                assert(false);
            }
            Vec::new()
        }
    };
    let mut proof_bytes = match serialize_ring_proof(proof) {
        Ok(b) => b,
        Err(_) => {
            proof {
                assert(false);
            }
            Vec::new()
        }
    };
    let ghost out_model = buf@;
    buf.append(&mut proof_bytes);
    proof {
        assert(buf@.subrange(0, VRF_OUTPUT_SIZE as int) == out_model);
    }
    buf
}

/// Encode a non-anonymous signature: output point then proof, 80 bytes.
///
/// Serialization is deterministic and total: the result is exactly the
/// two canonical parts, in order.
pub fn encode_ietf_signature(output: &VrfOutput, proof: &IetfProof) -> (r: Vec<u8>)
    ensures
        r@.len() == IETF_SIGNATURE_SIZE,
        r@ == output_repr(*output) + ietf_proof_repr(*proof),
        r@.subrange(0, VRF_OUTPUT_SIZE as int) == output_repr(*output),
{
    let mut buf = match serialize_output(output) {
        Ok(b) => b,
        Err(_) => {
            // Unreachable: serializing into a byte vector cannot fail.
            proof {
                assert(false);
            }
            Vec::new()
        }
    };
    let mut proof_bytes = match serialize_ietf_proof(proof) {
        Ok(b) => b,
        Err(_) => {
            proof {
                assert(false);
            }
            Vec::new()
        }
    };
    let ghost out_model = buf@;
    buf.append(&mut proof_bytes);
    proof {
        assert(buf@.subrange(0, VRF_OUTPUT_SIZE as int) == out_model);
    }
    buf
}

/// Decode a ring signature.
///
/// Succeeds exactly on well-formed encodings: exactly 784 bytes whose two
/// parts both decode; the decoded output point re-serializes to the first
/// 32 bytes.
pub fn decode_ring_signature(b: &[u8]) -> (r: Option<RingVrfSignature>)
    ensures
        r is Some <==> is_ring_signature_encoding(b@),
        r is Some ==> output_repr(r.unwrap().output) == b@.subrange(0, VRF_OUTPUT_SIZE as int),
        r is Some ==> ring_proof_repr(r.unwrap().proof) == b@.subrange(
            VRF_OUTPUT_SIZE as int,
            RING_SIGNATURE_SIZE as int,
        ),
{
    if b.len() != RING_SIGNATURE_SIZE {
        return None;
    }
    let out_bytes = slice_subrange(b, 0, VRF_OUTPUT_SIZE);
    let proof_bytes = slice_subrange(b, VRF_OUTPUT_SIZE, RING_SIGNATURE_SIZE);
    let output = match deserialize_output(out_bytes) {
        Ok(o) => o,
        Err(_) => {
            return None;
        }
    };
    let proof = match deserialize_ring_proof(proof_bytes) {
        Ok(p) => p,
        Err(_) => {
            return None;
        }
    };
    Some(RingVrfSignature { output, proof })
}

/// Decode a non-anonymous signature.
///
/// Succeeds exactly on well-formed encodings: exactly 80 bytes whose two
/// parts both decode; the decoded output point re-serializes to the first
/// 32 bytes.
pub fn decode_ietf_signature(b: &[u8]) -> (r: Option<IetfVrfSignature>)
    ensures
        r is Some <==> is_ietf_signature_encoding(b@),
        r is Some ==> output_repr(r.unwrap().output) == b@.subrange(0, VRF_OUTPUT_SIZE as int),
        r is Some ==> ietf_proof_repr(r.unwrap().proof) == b@.subrange(
            VRF_OUTPUT_SIZE as int,
            IETF_SIGNATURE_SIZE as int,
        ),
{
    if b.len() != IETF_SIGNATURE_SIZE {
        return None;
    }
    let out_bytes = slice_subrange(b, 0, VRF_OUTPUT_SIZE);
    let proof_bytes = slice_subrange(b, VRF_OUTPUT_SIZE, IETF_SIGNATURE_SIZE);
    let output = match deserialize_output(out_bytes) {
        Ok(o) => o,
        Err(_) => {
            return None;
        }
    };
    let proof = match deserialize_ietf_proof(proof_bytes) {
        Ok(p) => p,
        Err(_) => {
            return None;
        }
    };
    Some(IetfVrfSignature { output, proof })
}

} // verus!
