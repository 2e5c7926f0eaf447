//! Ring and IETF VRF behavior with real backend cryptography.

use vrf_engine::keys::{secret_key_from_bytes, secret_key_from_seed};
use vrf_engine::{
    create_key_pair_from_seed, public_key_from_bytes, CommitmentVerifier,
    CommitmentVerifierError, Prover, ProverError, PublicKey, RingContextCache, RingContextError,
    SecretKey, Verifier, VerifierError, IETF_SIGNATURE_SIZE, RING_SIGNATURE_SIZE,
};

const TEST_SEED: [u8; 32] = [7u8; 32];

fn test_cache(max_ring_size: usize) -> RingContextCache {
    RingContextCache::from_seed(&TEST_SEED, max_ring_size, 10)
}

fn secret(tag: u8) -> SecretKey {
    secret_key_from_seed(&[tag, 1, 2, 3])
}

fn public_of(tag: u8) -> PublicKey {
    let pair = create_key_pair_from_seed(&[tag, 1, 2, 3]).expect("key pair");
    public_key_from_bytes(&pair[32..64]).expect("public key parses")
}

fn ring_of(tags: &[u8]) -> Vec<PublicKey> {
    tags.iter().map(|t| public_of(*t)).collect()
}

#[test]
fn test_ring_sign_verify_roundtrip() {
    let mut cache = test_cache(8);
    let ring = ring_of(&[1, 2, 3]);
    let prover = Prover::new(ring_of(&[1, 2, 3]), secret(2), 1);

    let sig = prover
        .ring_vrf_sign(&mut cache, b"some input", b"some aux")
        .expect("signing should succeed");
    assert_eq!(sig.len(), RING_SIGNATURE_SIZE);

    let verifier = Verifier::new(&mut cache, ring).expect("verifier construction");
    let hash1 = verifier
        .ring_vrf_verify(&mut cache, b"some input", b"some aux", &sig)
        .expect("verification should succeed");
    assert_eq!(hash1.len(), 32);

    // Verifying the same signature again returns the same hash.
    let hash2 = verifier
        .ring_vrf_verify(&mut cache, b"some input", b"some aux", &sig)
        .expect("repeat verification");
    assert_eq!(hash1, hash2);

    // A fresh signature over the same input with different aux data
    // verifies to the same hash: aux never affects the output value.
    let sig3 = prover
        .ring_vrf_sign(&mut cache, b"some input", b"other aux")
        .expect("second signing");
    let hash3 = verifier
        .ring_vrf_verify(&mut cache, b"some input", b"other aux", &sig3)
        .expect("verification of second signature");
    assert_eq!(hash1, hash3);

    // A different input gives a different hash.
    let sig4 = prover
        .ring_vrf_sign(&mut cache, b"another input", b"some aux")
        .expect("third signing");
    let hash4 = verifier
        .ring_vrf_verify(&mut cache, b"another input", b"some aux", &sig4)
        .expect("verification of third signature");
    assert_ne!(hash1, hash4);
}

#[test]
fn test_cross_mode_output_equality() {
    let mut cache = test_cache(8);
    let ring = ring_of(&[1, 2, 3, 4]);
    let prover = Prover::new(ring_of(&[1, 2, 3, 4]), secret(3), 2);

    let ring_sig = prover
        .ring_vrf_sign(&mut cache, b"shared input", b"ring aux")
        .expect("ring signing");
    let ietf_sig = prover
        .ietf_vrf_sign(b"shared input", b"ietf aux")
        .expect("ietf signing");
    assert_eq!(ietf_sig.len(), IETF_SIGNATURE_SIZE);

    let verifier = Verifier::new(&mut cache, ring).expect("verifier construction");
    let ring_hash = verifier
        .ring_vrf_verify(&mut cache, b"shared input", b"ring aux", &ring_sig)
        .expect("ring verification");
    let ietf_hash = verifier
        .ietf_vrf_verify(b"shared input", b"ietf aux", &ietf_sig, 2)
        .expect("ietf verification");

    // Same key, same input data: identical 32-byte hash in both modes,
    // regardless of the differing aux data.
    assert_eq!(ring_hash, ietf_hash);
}

#[test]
fn test_ring_signature_corruption_fails() {
    let mut cache = test_cache(8);
    let ring = ring_of(&[5, 6, 7]);
    let prover = Prover::new(ring_of(&[5, 6, 7]), secret(5), 0);

    let sig = prover
        .ring_vrf_sign(&mut cache, b"payload", b"")
        .expect("signing");
    let verifier = Verifier::new(&mut cache, ring).expect("verifier construction");
    assert!(verifier
        .ring_vrf_verify(&mut cache, b"payload", b"", &sig)
        .is_ok());

    // Corrupting a byte anywhere — output point, Pedersen part or
    // membership part — must fail verification, never panic or pass.
    for &pos in &[0usize, 16, 31, 32, 100, 190, 200, 400, 600, 783] {
        let mut bad = sig.clone();
        bad[pos] ^= 0x01;
        assert!(
            verifier
                .ring_vrf_verify(&mut cache, b"payload", b"", &bad)
                .is_err(),
            "corruption at byte {} must fail",
            pos
        );
    }
}

#[test]
fn test_ietf_signature_corruption_fails() {
    let mut cache = test_cache(8);
    let ring = ring_of(&[5, 6, 7]);
    let prover = Prover::new(ring_of(&[5, 6, 7]), secret(6), 1);

    let sig = prover.ietf_vrf_sign(b"payload", b"aux").expect("signing");
    let verifier = Verifier::new(&mut cache, ring).expect("verifier construction");
    assert!(verifier.ietf_vrf_verify(b"payload", b"aux", &sig, 1).is_ok());

    // Every single-byte corruption must fail, never panic.
    for pos in 0..sig.len() {
        let mut bad = sig.clone();
        bad[pos] ^= 0x01;
        assert!(
            verifier.ietf_vrf_verify(b"payload", b"aux", &bad, 1).is_err(),
            "corruption at byte {} must fail",
            pos
        );
    }
}

#[test]
fn test_altered_ring_fails() {
    let mut cache = test_cache(8);
    let prover = Prover::new(ring_of(&[1, 2, 3, 4]), secret(2), 1);
    let sig = prover
        .ring_vrf_sign(&mut cache, b"input", b"aux")
        .expect("signing");

    // Same ring: fine.
    let good = Verifier::new(&mut cache, ring_of(&[1, 2, 3, 4])).expect("verifier");
    assert!(good.ring_vrf_verify(&mut cache, b"input", b"aux", &sig).is_ok());

    // Signer's key replaced by another key: verification fails.
    let swapped = Verifier::new(&mut cache, ring_of(&[1, 9, 3, 4])).expect("verifier");
    assert!(swapped
        .ring_vrf_verify(&mut cache, b"input", b"aux", &sig)
        .is_err());

    // Signer's key removed (shorter ring): verification fails.
    let removed = Verifier::new(&mut cache, ring_of(&[1, 3, 4])).expect("verifier");
    assert!(removed
        .ring_vrf_verify(&mut cache, b"input", b"aux", &sig)
        .is_err());
}

#[test]
fn test_cache_eviction_equivalence() {
    // Capacity 1: asking for a second ring size evicts the first; a later
    // request re-derives it. Results must be verification-equivalent
    // across the eviction.
    let mut cache = RingContextCache::from_seed(&TEST_SEED, 8, 1);
    let ring = ring_of(&[1, 2, 3]);
    let prover = Prover::new(ring_of(&[1, 2, 3]), secret(1), 0);

    let sig = prover
        .ring_vrf_sign(&mut cache, b"input", b"")
        .expect("signing");
    let verifier = Verifier::new(&mut cache, ring).expect("verifier");
    let hash1 = verifier
        .ring_vrf_verify(&mut cache, b"input", b"", &sig)
        .expect("first verification");

    // Evict the size-3 context by touching a different ring size.
    let other_ring = ring_of(&[4, 5, 6, 7]);
    let other = Verifier::new(&mut cache, other_ring).expect("other verifier");
    let _ = other;

    // Re-derivation after eviction: same outcome, same hash.
    let hash2 = verifier
        .ring_vrf_verify(&mut cache, b"input", b"", &sig)
        .expect("verification after eviction");
    assert_eq!(hash1, hash2);
}

#[test]
fn test_ring_vrf_scenario() {
    // Ring of 4, prover index 2, input "ticket-seal", empty aux: the
    // signature is exactly 784 bytes and verifies to a stable 32-byte
    // value across repeated runs.
    let mut cache = test_cache(8);
    let ring = ring_of(&[10, 20, 30, 40]);
    let prover = Prover::new(ring_of(&[10, 20, 30, 40]), secret(30), 2);

    let sig = prover
        .ring_vrf_sign(&mut cache, b"ticket-seal", b"")
        .expect("signing");
    assert_eq!(sig.len(), 784);

    let verifier = Verifier::new(&mut cache, ring).expect("verifier");
    let hash1 = verifier
        .ring_vrf_verify(&mut cache, b"ticket-seal", b"", &sig)
        .expect("verification");
    assert_eq!(hash1.len(), 32);

    let hash2 = verifier
        .ring_vrf_verify(&mut cache, b"ticket-seal", b"", &sig)
        .expect("repeat verification");
    assert_eq!(hash1, hash2);

    // A fresh signature over the same data verifies to the same value.
    let sig2 = prover
        .ring_vrf_sign(&mut cache, b"ticket-seal", b"")
        .expect("second signing");
    let hash3 = verifier
        .ring_vrf_verify(&mut cache, b"ticket-seal", b"", &sig2)
        .expect("second verification");
    assert_eq!(hash1, hash3);
}

#[test]
fn test_ietf_invalid_signer_index() {
    let mut cache = test_cache(8);
    let ring = ring_of(&[1, 2, 3]);
    let prover = Prover::new(ring_of(&[1, 2, 3]), secret(2), 1);
    let sig = prover.ietf_vrf_sign(b"input", b"aux").expect("signing");

    let verifier = Verifier::new(&mut cache, ring).expect("verifier");

    // Out-of-range index: a distinct invalid-index condition, not a
    // verification failure and not a panic.
    assert_eq!(
        verifier.ietf_vrf_verify(b"input", b"aux", &sig, 3),
        Err(VerifierError::InvalidSignerKeyIndex)
    );
    assert_eq!(
        verifier.ietf_vrf_verify(b"input", b"aux", &sig, usize::MAX),
        Err(VerifierError::InvalidSignerKeyIndex)
    );

    // Wrong (but in-range) signer: plain verification failure.
    assert_eq!(
        verifier.ietf_vrf_verify(b"input", b"aux", &sig, 0),
        Err(VerifierError::VerificationFailed)
    );
}

#[test]
fn test_truncated_and_padded_signatures_rejected() {
    let mut cache = test_cache(8);
    let ring = ring_of(&[1, 2, 3]);
    let prover = Prover::new(ring_of(&[1, 2, 3]), secret(1), 0);
    let verifier = Verifier::new(&mut cache, ring).expect("verifier");

    let ring_sig = prover
        .ring_vrf_sign(&mut cache, b"input", b"")
        .expect("ring signing");
    let ietf_sig = prover.ietf_vrf_sign(b"input", b"").expect("ietf signing");

    // Truncated input.
    assert_eq!(
        verifier.ring_vrf_verify(&mut cache, b"input", b"", &ring_sig[..783]),
        Err(VerifierError::DeserializationError)
    );
    assert_eq!(
        verifier.ietf_vrf_verify(b"input", b"", &ietf_sig[..79], 0),
        Err(VerifierError::DeserializationError)
    );

    // Trailing bytes beyond the fixed format.
    let mut long_ring = ring_sig.clone();
    long_ring.push(0);
    assert_eq!(
        verifier.ring_vrf_verify(&mut cache, b"input", b"", &long_ring),
        Err(VerifierError::DeserializationError)
    );
    let mut long_ietf = ietf_sig.clone();
    long_ietf.push(0);
    assert_eq!(
        verifier.ietf_vrf_verify(b"input", b"", &long_ietf, 0),
        Err(VerifierError::DeserializationError)
    );

    // Empty input.
    assert_eq!(
        verifier.ring_vrf_verify(&mut cache, b"input", b"", &[]),
        Err(VerifierError::DeserializationError)
    );
}

#[test]
fn test_checked_prover_constructor() {
    let ring = ring_of(&[1, 2, 3]);

    // Correct index: accepted, fields as given.
    let ok = Prover::new_checked(ring_of(&[1, 2, 3]), secret(2), 1).expect("valid prover");
    assert_eq!(ok.prover_idx, 1);

    // Index pointing at someone else's key.
    assert!(matches!(
        Prover::new_checked(ring_of(&[1, 2, 3]), secret(2), 0),
        Err(ProverError::InvalidProverIndex)
    ));

    // Out-of-range index.
    assert!(matches!(
        Prover::new_checked(ring, secret(2), 3),
        Err(ProverError::InvalidProverIndex)
    ));
}

#[test]
fn test_unsupported_ring_size() {
    // A reference string sized for small rings cannot serve a large one:
    // a typed context error on both actors, not a panic.
    let mut cache = test_cache(8);
    let pair = create_key_pair_from_seed(b"big ring member").expect("key pair");
    let mut big_ring: Vec<PublicKey> = Vec::new();
    for _ in 0..600 {
        big_ring.push(public_key_from_bytes(&pair[32..64]).expect("public key"));
    }
    let prover = Prover::new(big_ring, secret(1), 0);
    match prover.ring_vrf_sign(&mut cache, b"input", b"") {
        Err(ProverError::ContextError(RingContextError::UnsupportedRingSize)) => {}
        _ => panic!("oversized ring must give the unsupported-ring-size condition"),
    }
    match Verifier::new(&mut cache, prover.ring) {
        Err(VerifierError::ContextError(RingContextError::UnsupportedRingSize)) => {}
        _ => panic!("oversized ring must give the unsupported-ring-size condition"),
    }
}

#[test]
fn test_sign_with_out_of_range_index() {
    let mut cache = test_cache(8);
    let prover = Prover::new(ring_of(&[1, 2, 3]), secret(2), 7);
    assert!(matches!(
        prover.ring_vrf_sign(&mut cache, b"input", b""),
        Err(ProverError::InvalidProverIndex)
    ));
}

#[test]
fn test_malformed_reference_string() {
    // A reference-string blob that does not deserialize is reported as
    // malformed, not a panic.
    match RingContextCache::from_srs_bytes(&[1, 2, 3, 4, 5], 10) {
        Err(RingContextError::MalformedReferenceString) => {}
        _ => panic!("junk blob must be reported as malformed"),
    }
}

#[test]
fn test_ring_with_equal_keys() {
    // Order is significant but duplicate keys are allowed: a ring holding
    // the same key twice still signs and verifies at either position.
    let mut cache = test_cache(8);
    let ring = ring_of(&[1, 1, 2]);
    let prover = Prover::new(ring_of(&[1, 1, 2]), secret(1), 0);
    let sig = prover
        .ring_vrf_sign(&mut cache, b"input", b"")
        .expect("signing");
    let verifier = Verifier::new(&mut cache, ring).expect("verifier");
    assert!(verifier.ring_vrf_verify(&mut cache, b"input", b"", &sig).is_ok());
}

#[test]
fn test_commitment_verifier_matches_full_verifier() {
    let mut cache = test_cache(8);
    let ring = ring_of(&[1, 2, 3, 4]);
    let ring_len = ring.len();
    let prover = Prover::new(ring_of(&[1, 2, 3, 4]), secret(4), 3);
    let sig = prover
        .ring_vrf_sign(&mut cache, b"input", b"aux")
        .expect("signing");

    let verifier = Verifier::new(&mut cache, ring).expect("verifier");
    let full_hash = verifier
        .ring_vrf_verify(&mut cache, b"input", b"aux", &sig)
        .expect("full verification");

    // The commitment-based path accepts the same signature and returns
    // the same hash.
    let by_commitment = CommitmentVerifier::new(verifier.commitment, ring_len);
    let commit_hash = by_commitment
        .ring_vrf_verify(&mut cache, b"input", b"aux", &sig)
        .expect("commitment verification");
    assert_eq!(full_hash, commit_hash);

    // Wrong aux data: a plain verification failure.
    assert_eq!(
        by_commitment.ring_vrf_verify(&mut cache, b"input", b"other aux", &sig),
        Err(CommitmentVerifierError::SignatureVerificationFailed)
    );

    // Truncated bytes: a deserialization failure.
    assert_eq!(
        by_commitment.ring_vrf_verify(&mut cache, b"input", b"aux", &sig[..100]),
        Err(CommitmentVerifierError::DeserializationError)
    );

    // A commitment claiming an unsupported ring size: a context error.
    let prover2 = Prover::new(ring_of(&[1, 2, 3, 4]), secret(4), 3);
    let sig2 = prover2
        .ring_vrf_sign(&mut cache, b"input", b"aux")
        .expect("signing");
    let oversized = CommitmentVerifier::new(
        Verifier::new(&mut cache, ring_of(&[1, 2, 3, 4])).expect("verifier").commitment,
        600,
    );
    assert_eq!(
        oversized.ring_vrf_verify(&mut cache, b"input", b"aux", &sig2),
        Err(CommitmentVerifierError::RingContextError(
            RingContextError::UnsupportedRingSize
        ))
    );
}

#[test]
fn test_serialized_secret_signs() {
    // The secret half of a serialized key pair parses back into a working
    // key: signatures made with the re-parsed key verify at the position
    // of the pair's public half.
    let mut cache = test_cache(8);
    let pair = create_key_pair_from_seed(b"round trip").expect("key pair");
    let reparsed = secret_key_from_bytes(&pair[..32]).expect("secret parses");
    let me = public_key_from_bytes(&pair[32..]).expect("public parses");

    let ring = vec![public_of(1), me];
    let prover = Prover::new_checked(ring, reparsed, 1).expect("index matches re-parsed key");
    let sig = prover.ietf_vrf_sign(b"input", b"aux").expect("signing");

    let ring_again = vec![
        public_of(1),
        public_key_from_bytes(&pair[32..]).expect("public parses"),
    ];
    let verifier = Verifier::new(&mut cache, ring_again).expect("verifier");
    assert!(verifier.ietf_vrf_verify(b"input", b"aux", &sig, 1).is_ok());

    // Malformed secrets are rejected.
    assert!(secret_key_from_bytes(&pair[..31]).is_none());
    assert!(secret_key_from_bytes(&[0xffu8; 32]).is_none());
}
