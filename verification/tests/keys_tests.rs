//! Key-pair derivation, key parsing and the padding point.

use vrf_engine::keys::ring_from_bytes;
use vrf_engine::{create_key_pair_from_seed, get_padding_point, public_key_from_bytes};

#[test]
fn test_keypair_derivation_deterministic() {
    // Identical seed: identical {secret ‖ public} pair, for any seed length.
    let a = create_key_pair_from_seed(b"some seed").expect("derivation");
    let b = create_key_pair_from_seed(b"some seed").expect("derivation");
    assert_eq!(a, b);
    assert_eq!(a.len(), 64);

    let short = create_key_pair_from_seed(b"x").expect("derivation");
    let short_again = create_key_pair_from_seed(b"x").expect("derivation");
    assert_eq!(short, short_again);
    assert_eq!(short.len(), 64);

    let empty = create_key_pair_from_seed(b"").expect("derivation");
    assert_eq!(empty.len(), 64);

    // Different seeds: different pairs.
    assert_ne!(a, short);
    assert_ne!(a, empty);
}

#[test]
fn test_keypair_public_part_parses() {
    let pair = create_key_pair_from_seed(b"parsing seed").expect("derivation");
    let public = &pair[32..64];
    let parsed = public_key_from_bytes(public);
    assert!(parsed.is_some(), "derived public key must be a canonical encoding");
}

#[test]
fn test_public_key_rejects_bad_encodings() {
    // Wrong length.
    assert!(public_key_from_bytes(&[0u8; 31]).is_none());
    assert!(public_key_from_bytes(&[0u8; 33]).is_none());
    assert!(public_key_from_bytes(&[]).is_none());

    // 32 bytes that are not a valid point encoding.
    let junk = [0xffu8; 32];
    assert!(public_key_from_bytes(&junk).is_none());
}

#[test]
fn test_padding_point_stable() {
    let a = get_padding_point().expect("padding point");
    let b = get_padding_point().expect("padding point");
    assert_eq!(a, b);
    assert_eq!(a.len(), 32);

    // The exact canonical encoding of the suite's padding point: the
    // same 32 bytes in every process.
    let expected: [u8; 32] = [
        0xda, 0x5c, 0xa1, 0x8e, 0x76, 0xfb, 0xd5, 0x46, 0x73, 0x19, 0x79, 0x5e, 0x26, 0xfd,
        0x80, 0xf0, 0xb9, 0xcf, 0x7f, 0xc8, 0x88, 0xd9, 0x95, 0x34, 0x8b, 0x7f, 0xf2, 0x99,
        0x19, 0x7a, 0x42, 0xc4,
    ];
    assert_eq!(a, expected.to_vec());

    // The padding point is itself a decodable public key.
    assert!(public_key_from_bytes(&a).is_some());
}

#[test]
fn test_ring_from_bytes() {
    let pair_a = create_key_pair_from_seed(b"member a").expect("key pair");
    let pair_b = create_key_pair_from_seed(b"member b").expect("key pair");
    let mut packed = Vec::new();
    packed.extend_from_slice(&pair_a[32..64]);
    packed.extend_from_slice(&pair_b[32..64]);

    // Two valid packed keys parse into a two-key ring, in order.
    let ring = ring_from_bytes(&packed).expect("ring parses");
    assert_eq!(ring.len(), 2);

    // A length that is not a multiple of the key size is rejected.
    assert!(ring_from_bytes(&packed[..63]).is_none());

    // A malformed chunk anywhere is rejected.
    let mut bad = packed.clone();
    for b in bad[32..64].iter_mut() {
        *b = 0xff;
    }
    assert!(ring_from_bytes(&bad).is_none());

    // The empty packing is the empty ring.
    assert_eq!(ring_from_bytes(&[]).expect("empty ring").len(), 0);
}
