//! Ed25519 verification behavior, exercised with real keys and signatures.

use ed25519_consensus::{SigningKey, VerificationKey};
use rand::thread_rng;
use vrf_engine::ed25519_verify;

#[test]
fn test_corrupted_signature_fails() {
    // Generate a valid keypair and sign a message
    let sk = SigningKey::new(thread_rng());
    let vk = VerificationKey::from(&sk);
    let msg = b"test message";
    let sig = sk.sign(msg);

    let vk_bytes: [u8; 32] = vk.into();
    let mut sig_bytes: [u8; 64] = sig.into();

    // Corrupt the signature
    sig_bytes[32] ^= 0xff;

    // Verification should fail for corrupted signature
    let result = ed25519_verify(&vk_bytes, &sig_bytes, msg);
    assert_eq!(result, -1, "FFI should reject corrupted signature");
}

#[test]
fn test_invalid_public_key_encoding() {
    // A public key with the high bit set in the wrong way is invalid
    let mut invalid_pk: [u8; 32] = [0xff; 32];
    invalid_pk[31] = 0xff; // Invalid encoding
    let zero_sig: [u8; 64] = [0u8; 64];
    let msg = b"test message";

    // Should reject invalid public key encoding
    let result = ed25519_verify(&invalid_pk, &zero_sig, msg);
    assert_eq!(result, -1, "FFI should reject invalid public key encoding");
}

#[test]
fn test_sign_and_verify() {
    let sk = SigningKey::new(thread_rng());
    let vk = VerificationKey::from(&sk);
    let msg = b"test message for ed25519-consensus";

    let sig = sk.sign(msg);

    let vk_bytes: [u8; 32] = vk.into();
    let sig_bytes: [u8; 64] = sig.into();

    let result = ed25519_verify(&vk_bytes, &sig_bytes, msg);
    assert_eq!(result, 0, "Valid signature should verify");
}

#[test]
fn test_invalid_signature() {
    let sk = SigningKey::new(thread_rng());
    let vk = VerificationKey::from(&sk);
    let msg = b"test message";

    let sig = sk.sign(msg);

    let vk_bytes: [u8; 32] = vk.into();
    let mut sig_bytes: [u8; 64] = sig.into();

    // Corrupt the signature
    sig_bytes[0] ^= 0xff;

    let result = ed25519_verify(&vk_bytes, &sig_bytes, msg);
    assert_eq!(result, -1, "Invalid signature should fail verification");
}

#[test]
fn test_wrong_message() {
    let sk = SigningKey::new(thread_rng());
    let vk = VerificationKey::from(&sk);
    let msg = b"original message";
    let wrong_msg = b"different message";

    let sig = sk.sign(msg);

    let vk_bytes: [u8; 32] = vk.into();
    let sig_bytes: [u8; 64] = sig.into();

    let result = ed25519_verify(&vk_bytes, &sig_bytes, wrong_msg);
    assert_eq!(result, -1, "Signature for different message should fail");
}

#[test]
fn test_empty_message() {
    let sk = SigningKey::new(thread_rng());
    let vk = VerificationKey::from(&sk);
    let msg: &[u8] = b"";

    let sig = sk.sign(msg);

    let vk_bytes: [u8; 32] = vk.into();
    let sig_bytes: [u8; 64] = sig.into();

    let result = ed25519_verify(&vk_bytes, &sig_bytes, msg);
    assert_eq!(result, 0, "Empty message signature should verify");
}

#[test]
fn test_ed25519_bit_flip_scenario() {
    // Sign "test message" with a fresh key; flipping one bit in byte 32 of
    // the signature must flip acceptance from 0 to -1; the empty message
    // must also sign and verify.
    let sk = SigningKey::new(thread_rng());
    let vk = VerificationKey::from(&sk);
    let msg = b"test message";
    let sig = sk.sign(msg);

    let vk_bytes: [u8; 32] = vk.into();
    let sig_bytes: [u8; 64] = sig.into();

    assert_eq!(ed25519_verify(&vk_bytes, &sig_bytes, msg), 0);

    let mut tampered = sig_bytes;
    tampered[32] ^= 0x01;
    assert_eq!(ed25519_verify(&vk_bytes, &tampered, msg), -1);

    let empty_sig: [u8; 64] = sk.sign(b"").into();
    assert_eq!(ed25519_verify(&vk_bytes, &empty_sig, b""), 0);
}

#[test]
fn test_ed25519_wrong_lengths_rejected() {
    let sk = SigningKey::new(thread_rng());
    let vk = VerificationKey::from(&sk);
    let msg = b"test message";
    let sig = sk.sign(msg);

    let vk_bytes: [u8; 32] = vk.into();
    let sig_bytes: [u8; 64] = sig.into();

    assert_eq!(ed25519_verify(&vk_bytes[..31], &sig_bytes, msg), -1);
    assert_eq!(ed25519_verify(&vk_bytes, &sig_bytes[..63], msg), -1);
    assert_eq!(ed25519_verify(&[], &sig_bytes, msg), -1);
    assert_eq!(ed25519_verify(&vk_bytes, &[], msg), -1);
}
