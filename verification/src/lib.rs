//! A Bandersnatch ring-VRF signature engine.
//!
//! The crate orchestrates two VRF proof modes over the Bandersnatch curve —
//! an anonymous ring mode and a non-anonymous IETF-style mode — around a
//! cached, expensive-to-derive ring-proof context, together with Ed25519
//! signature verification and a small bytecode-executor state machine.

use vstd::prelude::*;

pub mod backend;
pub mod codec;
pub mod commitment;
pub mod context;
pub mod ed25519;
pub mod keys;
pub mod laws;
pub mod ring_backend;
pub mod ring_vrf;
pub mod vm;

pub use backend::{IetfProof, PublicKey, RingProof, SecretKey, VrfInput, VrfOutput};
pub use codec::{
    IETF_PROOF_SIZE, IETF_SIGNATURE_SIZE, RING_PROOF_SIZE, RING_SIGNATURE_SIZE, VRF_OUTPUT_SIZE,
};
pub use commitment::{CommitmentVerifier, CommitmentVerifierError};
pub use context::{RingContextCache, RingContextError, DEFAULT_CACHE_CAPACITY, DEFAULT_RING_SIZE};
pub use ed25519::ed25519_verify;
pub use keys::{create_key_pair_from_seed, get_padding_point, public_key_from_bytes};
pub use ring_backend::RingCommitment;
pub use ring_vrf::{Prover, ProverError, Verifier, VerifierError};
pub use vm::{
    ExecutionResult, ExecutionStatus, InitializationError, MachineSnapshot, MemoryPage,
    ProgramExecutor, StepOutcome,
};

verus! {

} // verus!
