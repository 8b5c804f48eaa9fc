use predictive_rolls::fair::{
    hex_decode, roll_direct, roll_rejection, u64_to_be_bytes, u64_to_dec_bytes, verify,
    ProvablyFairEngine,
};
use predictive_rolls::hashing::{hex_encode, sha256};
use predictive_rolls::sites::BetError;

const SEED: &[u8] = b"0123456789abcdef0123456789abcdef0123456789abcdef0123456789abcdef";

#[test]
fn roll_direct_known_vector() {
    let r = roll_direct(SEED, b"myclientseed", 7);
    assert_eq!(r, 8156);
}

#[test]
fn roll_rejection_known_vector() {
    let r = roll_rejection(SEED, b"myclientseed", 7);
    assert_eq!(r, 9946);
}

#[test]
fn roll_direct_is_deterministic() {
    let a = roll_direct(SEED, b"client", 42);
    let b = roll_direct(SEED, b"client", 42);
    assert_eq!(a, b);
    assert!(a < 10000);
}

#[test]
fn roll_rejection_is_deterministic() {
    let a = roll_rejection(SEED, b"client", 42);
    let b = roll_rejection(SEED, b"client", 42);
    assert_eq!(a, b);
    assert!(a < 10000);
}

#[test]
fn rolls_differ_when_nonce_changes() {
    // Not guaranteed in principle, but these concrete nonces do differ;
    // a roll function that ignored its nonce would fail here.
    let a = roll_direct(SEED, b"client", 1);
    let b = roll_direct(SEED, b"client", 2);
    assert_ne!(a, b);
}

#[test]
fn sha256_and_hex_known_vector() {
    let digest = sha256(b"abc");
    let hex = hex_encode(digest.as_slice());
    assert_eq!(
        hex,
        "ba7816bf8f01cfea414140de5dae2223b00361a396177a9cb410ff61f20015ad"
    );
}

#[test]
fn verify_accepts_matching_hash() {
    let hash = "e3b0c44298fc1c149afbf4c8996fb92427ae41e4649b934ca495991b7852b855";
    assert_eq!(verify(b"", hash).unwrap(), true);
}

#[test]
fn verify_rejects_bit_flipped_seed() {
    // SHA-256 of "abc" against the seed "abb": one flipped bit in the
    // last byte.
    let hash = "ba7816bf8f01cfea414140de5dae2223b00361a396177a9cb410ff61f20015ad";
    assert_eq!(verify(b"abc", hash).unwrap(), true);
    assert_eq!(verify(b"abb", hash).unwrap(), false);
}

#[test]
fn verify_rejects_malformed_hash() {
    assert!(matches!(verify(b"abc", "zz"), Err(BetError::VerificationError)));
    let bad = "ga7816bf8f01cfea414140de5dae2223b00361a396177a9cb410ff61f20015ad";
    assert!(matches!(verify(b"abc", bad), Err(BetError::VerificationError)));
}

#[test]
fn verify_accepts_uppercase_hash() {
    let hash = "BA7816BF8F01CFEA414140DE5DAE2223B00361A396177A9CB410FF61F20015AD";
    assert_eq!(verify(b"abc", hash).unwrap(), true);
}

#[test]
fn hex_decode_round_trip() {
    let decoded = hex_decode(b"0102030f10").unwrap();
    assert_eq!(decoded, vec![1u8, 2, 3, 15, 16]);
    assert!(hex_decode(b"abc").is_none());
    assert!(hex_decode(b"0g").is_none());
}

#[test]
fn dec_and_be_bytes() {
    assert_eq!(u64_to_dec_bytes(0), b"0".to_vec());
    assert_eq!(u64_to_dec_bytes(10457), b"10457".to_vec());
    assert_eq!(
        u64_to_be_bytes(0x0102030405060708),
        vec![1u8, 2, 3, 4, 5, 6, 7, 8]
    );
}

#[test]
fn engine_commit_reveals_verifiable_seed() {
    let mut engine = ProvablyFairEngine::new("clientseed".to_string());
    assert_eq!(engine.current.nonce, 0);
    let first_hash = engine.current.server_seed_hash.clone();
    let revealed = engine.commit();
    // The revealed seed must match the digest published before.
    assert_eq!(revealed.server_seed_hash, first_hash);
    assert_eq!(
        verify(revealed.server_seed.as_slice(), &revealed.server_seed_hash).unwrap(),
        true
    );
    // A roll under the current commitment is deterministic.
    let a = engine.roll_direct(3);
    let b = engine.roll_direct(3);
    assert_eq!(a, b);
    let c = engine.roll_rejection(3);
    let d = engine.roll_rejection(3);
    assert_eq!(c, d);
}
