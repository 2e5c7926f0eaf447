//! Engine-wide laws.
//!
//! Properties that span several functions, stated over the same spec
//! functions their contracts use and proved once here. Each rests only on
//! what the contracts in this crate state.

use vstd::prelude::*;

use crate::backend::hash_of_output;
use crate::keys::key_pair_of_seed;
use crate::ring_backend::setup_of;
use crate::ring_vrf::{signed_output_bytes, verified_output_hash};

verus! {

/// The 32-byte VRF output hash ("ticket score") that a secret key and
/// input data determine, independent of proof mode and aux data.
pub open spec fn vrf_output_hash_of(sk: Seq<u8>, input_data: Seq<u8>) -> Seq<u8> {
    hash_of_output(signed_output_bytes(sk, input_data))
}

/// Key-pair derivation is deterministic: equal seeds give the identical
/// serialized {secret ‖ public} pair. `create_key_pair_from_seed` returns
/// exactly `key_pair_of_seed(seed)`, so two calls on one seed agree.
pub proof fn lemma_key_pair_determinism(seed1: Seq<u8>, seed2: Seq<u8>)
    requires
        seed1 == seed2,
    ensures
        key_pair_of_seed(seed1) == key_pair_of_seed(seed2),
{
}

/// Verifying any signature that signing produced returns the VRF output
/// hash of the key and the input data: both signing paths promise that
/// the signature opens with `signed_output_bytes`, which never depends on
/// the aux data, and both verifying paths promise to return the hash of
/// those leading bytes.
pub proof fn lemma_verify_returns_signed_hash(sk: Seq<u8>, input_data: Seq<u8>, sig: Seq<u8>)
    requires
        sig.subrange(0, 32) == signed_output_bytes(sk, input_data),
    ensures
        verified_output_hash(sig) == vrf_output_hash_of(sk, input_data),
{
}

/// Cross-mode output equality: a ring signature and a non-anonymous
/// signature made with the same secret key over the same input data —
/// with any aux data in either — verify to the same 32-byte output hash.
pub proof fn lemma_cross_mode_output_equality(
    sk: Seq<u8>,
    input_data: Seq<u8>,
    ring_sig: Seq<u8>,
    ietf_sig: Seq<u8>,
)
    requires
        ring_sig.subrange(0, 32) == signed_output_bytes(sk, input_data),
        ietf_sig.subrange(0, 32) == signed_output_bytes(sk, input_data),
    ensures
        verified_output_hash(ring_sig) == verified_output_hash(ietf_sig),
{
}

/// Cache correctness: any two contexts the cache hands out for one ring
/// size over one reference string are the same derived context, even if
/// the entry was evicted and re-derived in between — `ring_context`
/// promises each successful result equals `setup_of(params, n)`.
pub proof fn lemma_cached_context_stable(params: Seq<u8>, ring_size: int, c1: Seq<u8>, c2: Seq<u8>)
    requires
        c1 == setup_of(params, ring_size),
        c2 == setup_of(params, ring_size),
    ensures
        c1 == c2,
{
}

} // verus!
