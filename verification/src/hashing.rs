//! Digests and HMACs used by the provably-fair scheme.
//!
//! The cryptographic primitives themselves come from outside crates; each is
//! reached through one trusted wrapper whose contract names its result, and
//! everything built on top of them is verified against those names.

use vstd::prelude::*;

verus! {

/// The SHA-256 digest of a byte sequence; always 32 bytes long.
pub uninterp spec fn sha256_of(data: Seq<u8>) -> Seq<u8>;

/// The HMAC-SHA256 tag for a key and a message; always 32 bytes long.
pub uninterp spec fn hmac_sha256_of(key: Seq<u8>, msg: Seq<u8>) -> Seq<u8>;

/// The HMAC-SHA512 tag for a key and a message; always 64 bytes long.
pub uninterp spec fn hmac_sha512_of(key: Seq<u8>, msg: Seq<u8>) -> Seq<u8>;

/// Relies on sha2's `Sha256`: the digest is a function of the input bytes
/// alone, and is 32 bytes long.
#[verifier::external_body]
pub fn sha256(data: &[u8]) -> (r: Vec<u8>)
    ensures
        r@ == sha256_of(data@),
        r@.len() == 32,
{
    <sha2::Sha256 as sha2::Digest>::digest(data).to_vec()
}

/// Relies on ring's `hmac::sign` with `HMAC_SHA256`: the tag is a function
/// of key and message alone, and is as long as a SHA-256 digest. `sign`
/// aborts only when the message exceeds the digest's astronomical input
/// limit, which the length bound rules out.
#[verifier::external_body]
pub fn hmac_sha256(key: &[u8], msg: &[u8]) -> (r: Vec<u8>)
    requires
        key@.len() <= 0x1000000,
        msg@.len() <= 0x1000000,
    ensures
        r@ == hmac_sha256_of(key@, msg@),
        r@.len() == 32,
{
    let k = ring::hmac::Key::new(ring::hmac::HMAC_SHA256, key);
    ring::hmac::sign(&k, msg).as_ref().to_vec()
}

/// Relies on ring's `hmac::sign` with `HMAC_SHA512`: the tag is a function
/// of key and message alone, and is as long as a SHA-512 digest. The length
/// bound keeps the input below the digest's documented limit.
#[verifier::external_body]
pub fn hmac_sha512(key: &[u8], msg: &[u8]) -> (r: Vec<u8>)
    requires
        key@.len() <= 0x1000000,
        msg@.len() <= 0x1000000,
    ensures
        r@ == hmac_sha512_of(key@, msg@),
        r@.len() == 64,
{
    let k = ring::hmac::Key::new(ring::hmac::HMAC_SHA512, key);
    ring::hmac::sign(&k, msg).as_ref().to_vec()
}

/// The lowercase hex digit for a value below 16.
pub open spec fn hex_digit_char(v: u8) -> char
    recommends
        v < 16,
{
    if v < 10 {
        (v + 48) as char
    } else {
        (v + 87) as char
    }
}

/// The lowercase hex encoding of a byte sequence: two digits per byte,
/// high nibble first.
pub open spec fn hex_lower_of(data: Seq<u8>) -> Seq<char>
    decreases data.len(),
{
    if data.len() == 0 {
        Seq::<char>::empty()
    } else {
        seq![
            hex_digit_char(data.first() / 16),
            hex_digit_char(data.first() % 16),
        ] + hex_lower_of(data.drop_first())
    }
}

/// Relies on `hex::encode`, which documents its result exactly: lowercase
/// digits, two per input byte, high nibble first.
#[verifier::external_body]
pub fn hex_encode(data: &[u8]) -> (r: String)
    ensures
        r@ == hex_lower_of(data@),
{
    hex::encode(data)
}

/// The hex encoding of `n` bytes is `2 * n` characters long.
pub proof fn lemma_hex_lower_len(data: Seq<u8>)
    ensures
        hex_lower_of(data).len() == 2 * data.len(),
    decreases data.len(),
{
    if data.len() > 0 {
        lemma_hex_lower_len(data.drop_first());
    }
}

} // verus!
