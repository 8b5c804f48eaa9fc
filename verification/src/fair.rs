//! The provably-fair commit-reveal engine.
//!
//! A site commits to a server seed by publishing the hex SHA-256 digest of
//! the seed before any roll under it, and reveals the seed when a new
//! commitment rotates in. Rolls are deterministic functions of
//! `(server_seed, client_seed, nonce)`; the two published algorithms of the
//! supported sites are kept as separate variants because call sites depend
//! on which site's fairness formula is being reproduced.

use vstd::prelude::*;

use crate::hashing::{
    hex_digit_char, hex_encode, hex_lower_of, hmac_sha256, hmac_sha256_of, hmac_sha512,
    hmac_sha512_of, lemma_hex_lower_len, sha256, sha256_of,
};
use crate::random::random_seed_bytes;
use crate::sites::BetError;
use vstd::string::StringSliceAdditionalSpecFns;
use vstd::utf8::encode_utf8;

verus! {

/// The decimal ASCII digits of `n`, most significant first.
pub open spec fn dec_bytes_of(n: nat) -> Seq<u8>
    decreases n,
{
    if n < 10 {
        seq![(48 + n) as u8]
    } else {
        dec_bytes_of(n / 10).push((48 + n % 10) as u8)
    }
}

/// Writes `n` in decimal ASCII, most significant digit first.
pub fn u64_to_dec_bytes(n: u64) -> (r: Vec<u8>)
    ensures
        r@ == dec_bytes_of(n as nat),
        r@.len() >= 1,
    decreases n,
{
    if n < 10 {
        let mut v: Vec<u8> = Vec::new();
        v.push(48 + n as u8);
        assert(v@ =~= dec_bytes_of(n as nat));
        v
    } else {
        let mut v = u64_to_dec_bytes(n / 10);
        v.push(48 + (n % 10) as u8);
        assert(v@ =~= dec_bytes_of(n as nat));
        v
    }
}

/// The eight big-endian bytes of `n`.
pub open spec fn be_bytes_of(n: u64) -> Seq<u8> {
    seq![
        ((n >> 56) & 0xFF) as u8,
        ((n >> 48) & 0xFF) as u8,
        ((n >> 40) & 0xFF) as u8,
        ((n >> 32) & 0xFF) as u8,
        ((n >> 24) & 0xFF) as u8,
        ((n >> 16) & 0xFF) as u8,
        ((n >> 8) & 0xFF) as u8,
        (n & 0xFF) as u8,
    ]
}

/// Writes `n` as eight big-endian bytes.
pub fn u64_to_be_bytes(n: u64) -> (r: Vec<u8>)
    ensures
        r@ == be_bytes_of(n),
{
    assert(forall|k: u64| (#[trigger] (k & 0xFF)) < 256) by (bit_vector);
    let mut v: Vec<u8> = Vec::new();
    v.push(((n >> 56) & 0xFF) as u8);
    v.push(((n >> 48) & 0xFF) as u8);
    v.push(((n >> 40) & 0xFF) as u8);
    v.push(((n >> 32) & 0xFF) as u8);
    v.push(((n >> 24) & 0xFF) as u8);
    v.push(((n >> 16) & 0xFF) as u8);
    v.push(((n >> 8) & 0xFF) as u8);
    v.push((n & 0xFF) as u8);
    assert(v@ =~= be_bytes_of(n));
    v
}

/// The little-endian 32-bit value held in the first four bytes.
pub open spec fn le_u32_of(b: Seq<u8>) -> u32
    recommends
        b.len() >= 4,
{
    (b[0] + b[1] * 0x100 + b[2] * 0x10000 + b[3] * 0x1000000) as u32
}

/// The high and low nibble of every byte, in order: the values of the hex
/// digits of the byte sequence's hex encoding.
pub open spec fn nibbles_of(data: Seq<u8>) -> Seq<u8>
    decreases data.len(),
{
    if data.len() == 0 {
        Seq::<u8>::empty()
    } else {
        seq![data.first() / 16, data.first() % 16] + nibbles_of(data.drop_first())
    }
}

/// There are two nibbles for every byte.
pub proof fn lemma_nibbles_len(data: Seq<u8>)
    ensures
        nibbles_of(data).len() == 2 * data.len(),
        forall|i: int| 0 <= i < nibbles_of(data).len() ==> nibbles_of(data)[i] < 16,
    decreases data.len(),
{
    if data.len() > 0 {
        lemma_nibbles_len(data.drop_first());
    }
}

/// Splits every byte into its two nibbles, high first.
pub fn to_nibbles(data: &[u8]) -> (r: Vec<u8>)
    ensures
        r@ == nibbles_of(data@),
{
    let mut r: Vec<u8> = Vec::new();
    let n = data.len();
    for i in 0..n
        invariant
            n == data@.len(),
            r@ =~= nibbles_of(data@.take(i as int)),
    {
        r.push(data[i] / 16);
        r.push(data[i] % 16);
        proof {
            lemma_nibbles_take_step(data@, i as int);
        }
    }
    assert(data@.take(n as int) =~= data@);
    r
}

/// The value of the five-digit window starting at nibble `i`.
pub open spec fn window_value(nibs: Seq<u8>, i: int) -> int
    recommends
        0 <= i,
        i + 5 <= nibs.len(),
{
    nibs[i] * 0x10000 + nibs[i + 1] * 0x1000 + nibs[i + 2] * 0x100 + nibs[i + 3] * 16 + nibs[i + 4]
}

/// Scans five-digit windows left to right from nibble `i` and reduces the
/// first window below 0x100000 modulo 10000; 0 when no window qualifies.
pub open spec fn scan_windows(nibs: Seq<u8>, i: nat) -> u32
    decreases nibs.len() - i,
{
    if i + 5 <= nibs.len() {
        if window_value(nibs, i as int) < 0x100000 {
            (window_value(nibs, i as int) % 10000) as u32
        } else {
            scan_windows(nibs, i + 5)
        }
    } else {
        0
    }
}

/// The rejection-sampling roll: the HMAC-SHA512 tag for the server seed
/// over `server_seed || client_seed || decimal(nonce)` is hex-encoded and
/// scanned in five-digit windows; the first window below 0x100000 gives the
/// roll modulo 10000. The scan runs over the tag's nibbles, which spell
/// exactly the hex encoding's digits (`lemma_hex_chars_spell_nibbles`).
pub open spec fn spec_roll_rejection(server_seed: Seq<u8>, client_seed: Seq<u8>, nonce: u64) -> u32 {
    scan_windows(
        nibbles_of(
            hmac_sha512_of(server_seed, server_seed + client_seed + dec_bytes_of(nonce as nat)),
        ),
        0,
    )
}

/// The direct-HMAC roll: the first four bytes of the HMAC-SHA256 tag for
/// the server seed over `server_seed || client_seed || be_bytes(nonce)`,
/// read little-endian, reduced modulo 10000. The modulo bias is accepted as
/// matching the site's published formula.
pub open spec fn spec_roll_direct(server_seed: Seq<u8>, client_seed: Seq<u8>, nonce: u64) -> u32 {
    (le_u32_of(hmac_sha256_of(server_seed, server_seed + client_seed + be_bytes_of(nonce)))
        % 10000u32) as u32
}

/// Concatenates the seeds and the nonce bytes into one message.
fn build_message(server_seed: &[u8], client_seed: &[u8], nonce_bytes: Vec<u8>) -> (r: Vec<u8>)
    ensures
        r@ == server_seed@ + client_seed@ + nonce_bytes@,
{
    let mut msg: Vec<u8> = Vec::new();
    msg.extend_from_slice(server_seed);
    msg.extend_from_slice(client_seed);
    let mut nb = nonce_bytes;
    msg.append(&mut nb);
    assert(msg@ =~= server_seed@ + client_seed@ + nonce_bytes@);
    msg
}

/// Computes the rejection-sampling roll for one `(server_seed, client_seed,
/// nonce)` triple. The result is below 10000 and is the same on every call
/// with the same arguments. The length bounds keep the composed HMAC
/// message inside the digest wrapper's input cap.
pub fn roll_rejection(server_seed: &[u8], client_seed: &[u8], nonce: u64) -> (r: u32)
    requires
        server_seed@.len() <= 0x10000,
        client_seed@.len() <= 0x100000,
    ensures
        r == spec_roll_rejection(server_seed@, client_seed@, nonce),
        r < 10000,
{
    let msg = build_message(server_seed, client_seed, u64_to_dec_bytes(nonce));
    proof {
        lemma_dec_bytes_len(nonce);
    }
    let tag = hmac_sha512(server_seed, msg.as_slice());
    let nibs = to_nibbles(tag.as_slice());
    proof {
        lemma_nibbles_len(tag@);
    }
    let mut i: usize = 0;
    while i + 5 <= nibs.len()
        invariant
            scan_windows(nibs@, 0) == scan_windows(nibs@, i as nat),
            forall|k: int| 0 <= k < nibs@.len() ==> nibs@[k] < 16,
            nibs@.len() <= 0x10000,
            i <= nibs@.len() + 5,
            nibs@ == nibbles_of(tag@),
            tag@ == hmac_sha512_of(server_seed@, msg@),
            msg@ == server_seed@ + client_seed@ + dec_bytes_of(nonce as nat),
        decreases nibs@.len() - i,
    {
        let w: u32 = nibs[i] as u32 * 0x10000 + nibs[i + 1] as u32 * 0x1000 + nibs[i + 2] as u32
            * 0x100 + nibs[i + 3] as u32 * 16 + nibs[i + 4] as u32;
        if w < 0x100000 {
            return w % 10000;
        }
        i = i + 5;
    }
    0
}

/// Computes the direct-HMAC roll for one `(server_seed, client_seed,
/// nonce)` triple. The result is below 10000 and is the same on every call
/// with the same arguments. The length bounds keep the composed HMAC
/// message inside the digest wrapper's input cap.
pub fn roll_direct(server_seed: &[u8], client_seed: &[u8], nonce: u64) -> (r: u32)
    requires
        server_seed@.len() <= 0x10000,
        client_seed@.len() <= 0x100000,
    ensures
        r == spec_roll_direct(server_seed@, client_seed@, nonce),
        r < 10000,
{
    let msg = build_message(server_seed, client_seed, u64_to_be_bytes(nonce));
    let tag = hmac_sha256(server_seed, msg.as_slice());
    let v: u32 = tag[0] as u32 + tag[1] as u32 * 0x100 + tag[2] as u32 * 0x10000 + tag[3] as u32
        * 0x1000000;
    v % 10000
}

/// A 64-bit number has between 1 and 20 decimal digits.
pub proof fn lemma_dec_bytes_len(n: u64)
    ensures
        1 <= dec_bytes_of(n as nat).len() <= 20,
{
    assert(pow10(20) == 100000000000000000000) by {
        reveal_with_fuel(pow10, 21);
    }
    lemma_dec_len_bound(n as nat, 20);
}

/// A number below 10^k has at most k decimal digits (k at least 1).
proof fn lemma_dec_len_bound(n: nat, k: nat)
    requires
        n < pow10(k),
        k >= 1,
    ensures
        dec_bytes_of(n).len() <= k,
    decreases n,
{
    if n >= 10 {
        lemma_dec_len_bound(n / 10, (k - 1) as nat);
    }
}

/// Ten to the `k`.
pub open spec fn pow10(k: nat) -> nat
    decreases k,
{
    if k == 0 {
        1
    } else {
        10 * pow10((k - 1) as nat)
    }
}

/// Whether a byte is an ASCII hex digit, in either case.
pub open spec fn is_hex_digit(b: u8) -> bool {
    (48 <= b && b <= 57) || (97 <= b && b <= 102) || (65 <= b && b <= 70)
}

/// The value of an ASCII hex digit.
pub open spec fn hex_val(b: u8) -> u8
    recommends
        is_hex_digit(b),
{
    if 48 <= b && b <= 57 {
        (b - 48) as u8
    } else if 97 <= b && b <= 102 {
        (b - 87) as u8
    } else {
        (b - 55) as u8
    }
}

/// Whether a byte sequence spells the 64 hex digits of a SHA-256 digest.
pub open spec fn is_hex_digest(s: Seq<u8>) -> bool {
    s.len() == 64 && forall|i: int| 0 <= i < s.len() ==> is_hex_digit(#[trigger] s[i])
}

/// The bytes spelled by a sequence of hex digit pairs.
pub open spec fn hex_decode_of(s: Seq<u8>) -> Seq<u8>
    decreases s.len(),
{
    if s.len() < 2 {
        Seq::<u8>::empty()
    } else {
        seq![(hex_val(s[0]) * 16 + hex_val(s[1])) as u8] + hex_decode_of(s.skip(2))
    }
}

/// Reads a hex digit pair prefix off the front of the decoding.
proof fn lemma_hex_decode_take_step(s: Seq<u8>, i: int)
    requires
        0 <= i,
        i + 2 <= s.len(),
        i % 2 == 0,
    ensures
        hex_decode_of(s.take(i + 2)) =~= hex_decode_of(s.take(i)).push(
            (hex_val(s[i]) * 16 + hex_val(s[i + 1])) as u8,
        ),
    decreases i,
{
    if i == 0 {
        reveal_with_fuel(hex_decode_of, 3);
        assert(s.take(2).skip(2) =~= Seq::<u8>::empty());
        assert(hex_decode_of(s.take(0)) =~= Seq::<u8>::empty());
        assert(hex_decode_of(s.take(2)) =~= seq![(hex_val(s[0]) * 16 + hex_val(s[1])) as u8]);
    } else {
        assert(s.take(i + 2).skip(2) =~= s.skip(2).take(i));
        assert(s.take(i).skip(2) =~= s.skip(2).take(i - 2));
        lemma_hex_decode_take_step(s.skip(2), i - 2);
        assert(s.skip(2)[i - 2] == s[i]);
        assert(s.skip(2)[i - 1] == s[i + 1]);
    }
}

/// Decodes a string of hex digit pairs to bytes; `None` when a character is
/// not a hex digit or the length is odd.
pub fn hex_decode(s: &[u8]) -> (r: Option<Vec<u8>>)
    ensures
        r is Some <==> (s@.len() % 2 == 0 && forall|i: int|
            0 <= i < s@.len() ==> is_hex_digit(#[trigger] s@[i])),
        r matches Some(v) ==> v@ == hex_decode_of(s@),
{
    let n = s.len();
    if n % 2 != 0 {
        return None;
    }
    let mut out: Vec<u8> = Vec::new();
    let mut i: usize = 0;
    while i < n
        invariant
            n == s@.len(),
            n % 2 == 0,
            i % 2 == 0,
            i <= n,
            out@ =~= hex_decode_of(s@.take(i as int)),
            forall|k: int| 0 <= k < i ==> is_hex_digit(#[trigger] s@[k]),
        decreases n - i,
    {
        let hi = s[i];
        let lo = s[i + 1];
        if !(hi >= 48 && hi <= 57 || hi >= 97 && hi <= 102 || hi >= 65 && hi <= 70) {
            return None;
        }
        if !(lo >= 48 && lo <= 57 || lo >= 97 && lo <= 102 || lo >= 65 && lo <= 70) {
            return None;
        }
        let hv: u8 = if hi <= 57 {
            hi - 48
        } else if hi >= 97 {
            hi - 87
        } else {
            hi - 55
        };
        let lv: u8 = if lo <= 57 {
            lo - 48
        } else if lo >= 97 {
            lo - 87
        } else {
            lo - 55
        };
        out.push(hv * 16 + lv);
        proof {
            lemma_hex_decode_take_step(s@, i as int);
        }
        i = i + 2;
    }
    assert(s@.take(n as int) =~= s@);
    Some(out)
}

/// Compares two byte vectors for equality.
pub fn bytes_eq(a: &Vec<u8>, b: &Vec<u8>) -> (r: bool)
    ensures
        r <==> a@ == b@,
{
    if a.len() != b.len() {
        assert(a@ !~= b@);
        return false;
    }
    let n = a.len();
    for i in 0..n
        invariant
            n == a@.len() == b@.len(),
            forall|k: int| 0 <= k < i ==> a@[k] == b@[k],
    {
        if a[i] != b[i] {
            return false;
        }
    }
    assert(a@ =~= b@);
    true
}

/// A hex digit's character spells its value back.
pub proof fn lemma_hex_digit_char_val(v: u8)
    requires
        v < 16,
    ensures
        is_hex_digit(hex_digit_char(v) as u8),
        hex_val(hex_digit_char(v) as u8) == v,
{
}

/// The hex encoding of a byte sequence spells exactly its nibbles: the
/// character at each position is the hex digit of the nibble at that
/// position, so a scan over nibbles is a scan over the hex encoding.
pub proof fn lemma_hex_chars_spell_nibbles(data: Seq<u8>)
    ensures
        hex_lower_of(data) =~= nibbles_of(data).map_values(|v: u8| hex_digit_char(v)),
    decreases data.len(),
{
    lemma_hex_lower_len(data);
    lemma_nibbles_len(data);
    if data.len() > 0 {
        lemma_hex_chars_spell_nibbles(data.drop_first());
        lemma_hex_lower_len(data.drop_first());
        lemma_nibbles_len(data.drop_first());
        let hd = seq![data.first() / 16, data.first() % 16];
        assert(nibbles_of(data).map_values(|v: u8| hex_digit_char(v)) =~= hd.map_values(
            |v: u8| hex_digit_char(v),
        ) + nibbles_of(data.drop_first()).map_values(|v: u8| hex_digit_char(v)));
        assert(hd.map_values(|v: u8| hex_digit_char(v)) =~= seq![
            hex_digit_char(data.first() / 16),
            hex_digit_char(data.first() % 16),
        ]);
    }
}

/// The nibble at an even position is its byte's high half, at an odd
/// position its byte's low half.
proof fn lemma_nibbles_index(data: Seq<u8>)
    ensures
        forall|k: int|
            0 <= k < data.len() ==> #[trigger] nibbles_of(data)[2 * k] == data[k] / 16
                && nibbles_of(data)[2 * k + 1] == data[k] % 16,
    decreases data.len(),
{
    lemma_nibbles_len(data);
    if data.len() > 0 {
        lemma_nibbles_index(data.drop_first());
        lemma_nibbles_len(data.drop_first());
        assert forall|k: int|
            0 <= k < data.len() implies #[trigger] nibbles_of(data)[2 * k] == data[k] / 16
            && nibbles_of(data)[2 * k + 1] == data[k] % 16 by {
            if k > 0 {
                assert(nibbles_of(data)[2 * k] == nibbles_of(data.drop_first())[2 * (k - 1)]);
                assert(nibbles_of(data)[2 * k + 1] == nibbles_of(data.drop_first())[2 * (k - 1)
                    + 1]);
                assert(data.drop_first()[k - 1] == data[k]);
            }
        }
    }
}

/// Decoding a sequence of hex digit pairs reads one byte per pair.
proof fn lemma_hex_decode_index(s: Seq<u8>)
    requires
        s.len() % 2 == 0,
    ensures
        hex_decode_of(s).len() == s.len() / 2,
        forall|k: int|
            0 <= k < s.len() / 2 ==> #[trigger] hex_decode_of(s)[k] == (hex_val(s[2 * k]) * 16
                + hex_val(s[2 * k + 1])) as u8,
    decreases s.len(),
{
    if s.len() >= 2 {
        lemma_hex_decode_index(s.skip(2));
        assert forall|k: int|
            0 <= k < s.len() / 2 implies #[trigger] hex_decode_of(s)[k] == (hex_val(s[2 * k]) * 16
            + hex_val(s[2 * k + 1])) as u8 by {
            if k > 0 {
                assert(hex_decode_of(s)[k] == hex_decode_of(s.skip(2))[k - 1]);
                assert(s.skip(2)[2 * (k - 1)] == s[2 * k]);
                assert(s.skip(2)[2 * (k - 1) + 1] == s[2 * k + 1]);
            }
        }
    }
}

/// The hex encoding of a byte sequence is ASCII.
proof fn lemma_hex_lower_ascii(data: Seq<u8>)
    ensures
        vstd::utf8::is_ascii_chars(hex_lower_of(data)),
{
    lemma_hex_chars_spell_nibbles(data);
    lemma_nibbles_len(data);
    assert forall|i: int|
        0 <= i < hex_lower_of(data).len() implies '\0' <= #[trigger] hex_lower_of(data)[i]
        <= '\u{7f}' by {
        let v = nibbles_of(data)[i];
        assert(hex_lower_of(data)[i] == hex_digit_char(v));
        assert(v < 16);
    }
}

/// Hex round trip: decoding the UTF-8 bytes of a byte sequence's hex
/// encoding gives the sequence back, and every byte of that encoding is
/// a hex digit.
pub proof fn lemma_hex_encode_decode(data: Seq<u8>)
    ensures
        encode_utf8(hex_lower_of(data)).len() == 2 * data.len(),
        forall|i: int|
            0 <= i < 2 * data.len() ==> is_hex_digit(
                #[trigger] encode_utf8(hex_lower_of(data))[i],
            ),
        hex_decode_of(encode_utf8(hex_lower_of(data))) =~= data,
{
    let chars = hex_lower_of(data);
    let bytes = encode_utf8(chars);
    lemma_hex_lower_len(data);
    lemma_nibbles_len(data);
    lemma_nibbles_index(data);
    lemma_hex_chars_spell_nibbles(data);
    lemma_hex_lower_ascii(data);
    vstd::utf8::is_ascii_chars_encode_utf8(chars);
    assert forall|i: int| 0 <= i < 2 * data.len() implies is_hex_digit(#[trigger] bytes[i])
        && hex_val(bytes[i]) == nibbles_of(data)[i] by {
        let v = nibbles_of(data)[i];
        assert(chars[i] == hex_digit_char(v));
        assert(bytes[i] == chars[i] as u8);
        lemma_hex_digit_char_val(v);
    }
    assert(bytes.len() % 2 == 0);
    lemma_hex_decode_index(bytes);
    assert forall|k: int| 0 <= k < data.len() implies #[trigger] hex_decode_of(bytes)[k]
        == data[k] by {
        assert(hex_decode_of(bytes)[k] == (hex_val(bytes[2 * k]) * 16 + hex_val(bytes[2 * k + 1]))
            as u8);
        assert(hex_val(bytes[2 * k]) == nibbles_of(data)[2 * k]);
        assert(hex_val(bytes[2 * k + 1]) == nibbles_of(data)[2 * k + 1]);
        assert(nibbles_of(data)[2 * k] == data[k] / 16);
        assert(nibbles_of(data)[2 * k + 1] == data[k] % 16);
    }
}

/// Commit-reveal integrity law: a well-formed commitment's published
/// digest spells exactly the SHA-256 of its server seed — so, by the
/// contract of `verify`, checking the revealed seed against the digest
/// published before it must answer true.
pub proof fn lemma_commitment_verifies(c: SeedCommitment)
    requires
        c.wf(),
    ensures
        is_hex_digest(encode_utf8(c.server_seed_hash@)),
        hex_decode_of(encode_utf8(c.server_seed_hash@)) == sha256_of(c.server_seed@),
{
    let digest = sha256_of(c.server_seed@);
    lemma_hex_lower_len(digest);
    lemma_hex_encode_decode(digest);
}

/// Determinism of the rejection-sampling roll: any two rolls computed from
/// the same server seed, client seed and nonce are equal.
pub proof fn lemma_roll_rejection_deterministic(
    server_seed: Seq<u8>,
    client_seed: Seq<u8>,
    nonce: u64,
    r1: u32,
    r2: u32,
)
    requires
        r1 == spec_roll_rejection(server_seed, client_seed, nonce),
        r2 == spec_roll_rejection(server_seed, client_seed, nonce),
    ensures
        r1 == r2,
{
}

/// Determinism of the direct-HMAC roll: any two rolls computed from the
/// same server seed, client seed and nonce are equal.
pub proof fn lemma_roll_direct_deterministic(
    server_seed: Seq<u8>,
    client_seed: Seq<u8>,
    nonce: u64,
    r1: u32,
    r2: u32,
)
    requires
        r1 == spec_roll_direct(server_seed, client_seed, nonce),
        r2 == spec_roll_direct(server_seed, client_seed, nonce),
    ensures
        r1 == r2,
{
}

/// Checks a revealed server seed against a previously published digest:
/// true exactly when the hex digits of `published_hash` spell the SHA-256
/// digest of `revealed_seed`. A published hash that is not 64 hex digits is
/// malformed and reported as a `VerificationError`, never a panic.
pub fn verify(revealed_seed: &[u8], published_hash: &str) -> (r: Result<bool, BetError>)
    ensures
        r is Ok <==> is_hex_digest(published_hash.spec_bytes()),
        r matches Ok(b) ==> (b <==> sha256_of(revealed_seed@) == hex_decode_of(
            published_hash.spec_bytes(),
        )),
        r matches Err(e) ==> e is VerificationError,
{
    let hb = published_hash.as_bytes();
    if hb.len() != 64 {
        return Err(BetError::VerificationError);
    }
    match hex_decode(hb) {
        None => Err(BetError::VerificationError),
        Some(decoded) => {
            let digest = sha256(revealed_seed);
            Ok(bytes_eq(&digest, &decoded))
        },
    }
}

/// One commit-reveal commitment: a 64-byte server seed, the published hex
/// SHA-256 digest that protects it, the bettor's client seed, and the nonce
/// of the next roll under this commitment.
#[derive(Debug)]
pub struct SeedCommitment {
    pub server_seed: Vec<u8>,
    pub server_seed_hash: String,
    pub client_seed: String,
    pub nonce: u64,
}

impl SeedCommitment {
    /// The published digest really is the hex SHA-256 of the server seed
    /// — all 64 digits of it — and the seed has its full 64 bytes.
    pub open spec fn wf(&self) -> bool {
        &&& self.server_seed@.len() == 64
        &&& self.server_seed_hash@ == hex_lower_of(sha256_of(self.server_seed@))
        &&& self.server_seed_hash@.len() == 64
    }
}

/// Generates and verifies commitments and computes deterministic rolls;
/// also the backbone of the pure-simulation mode, which needs no network.
pub struct ProvablyFairEngine {
    pub current: SeedCommitment,
}

impl ProvablyFairEngine {
    pub open spec fn wf(&self) -> bool {
        self.current.wf()
    }

    /// Draws a fresh 64-byte random server seed and publishes its digest;
    /// the nonce starts at 0 for the new commitment.
    pub fn new(client_seed: String) -> (e: Self)
        ensures
            e.wf(),
            e.current.nonce == 0,
            e.current.client_seed@ == client_seed@,
    {
        let server_seed = random_seed_bytes();
        let digest = sha256(server_seed.as_slice());
        let server_seed_hash = hex_encode(digest.as_slice());
        proof {
            lemma_hex_lower_len(sha256_of(server_seed@));
        }
        ProvablyFairEngine {
            current: SeedCommitment { server_seed, server_seed_hash, client_seed, nonce: 0 },
        }
    }

    /// Rotates in a fresh commitment and hands back the old one, whose
    /// server seed is thereby revealed; the nonce resets to 0.
    pub fn commit(&mut self) -> (revealed: SeedCommitment)
        ensures
            final(self).wf(),
            final(self).current.nonce == 0,
            final(self).current.client_seed@ == old(self).current.client_seed@,
            revealed == old(self).current,
    {
        let client_seed = self.current.client_seed.clone();
        let server_seed = random_seed_bytes();
        let digest = sha256(server_seed.as_slice());
        let server_seed_hash = hex_encode(digest.as_slice());
        proof {
            lemma_hex_lower_len(sha256_of(server_seed@));
        }
        let mut fresh = SeedCommitment { server_seed, server_seed_hash, client_seed, nonce: 0 };
        core::mem::swap(&mut self.current, &mut fresh);
        fresh
    }

    /// The rejection-sampling roll for the current commitment at `nonce`.
    pub fn roll_rejection(&self, nonce: u64) -> (r: u32)
        requires
            self.wf(),
            encode_utf8(self.current.client_seed@).len() <= 0x100000,
        ensures
            r == spec_roll_rejection(
                self.current.server_seed@,
                encode_utf8(self.current.client_seed@),
                nonce,
            ),
            r < 10000,
    {
        roll_rejection(
            self.current.server_seed.as_slice(),
            self.current.client_seed.as_str().as_bytes(),
            nonce,
        )
    }

    /// The direct-HMAC roll for the current commitment at `nonce`.
    pub fn roll_direct(&self, nonce: u64) -> (r: u32)
        requires
            self.wf(),
            encode_utf8(self.current.client_seed@).len() <= 0x100000,
        ensures
            r == spec_roll_direct(
                self.current.server_seed@,
                encode_utf8(self.current.client_seed@),
                nonce,
            ),
            r < 10000,
    {
        roll_direct(
            self.current.server_seed.as_slice(),
            self.current.client_seed.as_str().as_bytes(),
            nonce,
        )
    }
}

/// Extending the prefix by one byte appends that byte's two nibbles.
proof fn lemma_nibbles_take_step(data: Seq<u8>, i: int)
    requires
        0 <= i < data.len(),
    ensures
        nibbles_of(data.take(i + 1)) =~= nibbles_of(data.take(i)).push(data[i] / 16).push(
            data[i] % 16,
        ),
    decreases i,
{
    if i == 0 {
        reveal_with_fuel(nibbles_of, 3);
        assert(data.take(1).drop_first() =~= Seq::<u8>::empty());
        assert(data.take(1).first() == data[0]);
        assert(nibbles_of(data.take(1)) =~= seq![data[0] / 16, data[0] % 16]);
    } else {
        assert(data.take(i + 1).drop_first() =~= data.drop_first().take(i));
        assert(data.take(i).drop_first() =~= data.drop_first().take(i - 1));
        lemma_nibbles_take_step(data.drop_first(), i - 1);
        assert(data.drop_first()[i - 1] == data[i]);
    }
}

} // verus!
