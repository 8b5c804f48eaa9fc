//! The fixed-width feature encoding handed to the external predictor.
//!
//! Hex-string fields are expanded digit by digit into four bits each, most
//! significant bit first; every slot is then brought to its fixed width by
//! truncating or zero-padding on the right.

use vstd::prelude::*;
use vstd::string::StringSliceAdditionalSpecFns;

use crate::fair::{hex_val, is_hex_digit};

verus! {

/// Width in bits of the `hash_next_roll` slot.
pub const HASH_NEXT_ROLL_SIZE: usize = 256;

/// Cumulative width after the `hash_previous_roll` slot.
pub const HASH_PREVIOUS_ROLL_SIZE: usize = 512;

/// Cumulative width after the `client_seed` slot.
pub const CLIENT_SEED_SIZE: usize = 768;

/// Width of one fully encoded entry.
pub const FINAL_FEATURE_SIZE: usize = 1024;

/// The hex digit value of a byte; a byte that is no hex digit counts as 0.
pub open spec fn lenient_hex_val(b: u8) -> u8 {
    if is_hex_digit(b) {
        hex_val(b)
    } else {
        0
    }
}

/// The four bits of a value below 16, most significant first.
pub open spec fn bits4_of(v: u8) -> Seq<u8> {
    seq![(v / 8) % 2, (v / 4) % 2, (v / 2) % 2, v % 2]
}

/// Four bits for every character of a hex string, most significant first.
pub open spec fn hex_bits_of(s: Seq<u8>) -> Seq<u8>
    decreases s.len(),
{
    if s.len() == 0 {
        Seq::<u8>::empty()
    } else {
        bits4_of(lenient_hex_val(s.first())) + hex_bits_of(s.drop_first())
    }
}

/// Extending the string by one character appends that character's bits.
proof fn lemma_hex_bits_take_step(s: Seq<u8>, i: int)
    requires
        0 <= i < s.len(),
    ensures
        hex_bits_of(s.take(i + 1)) =~= hex_bits_of(s.take(i)) + bits4_of(lenient_hex_val(s[i])),
    decreases i,
{
    if i == 0 {
        reveal_with_fuel(hex_bits_of, 3);
        assert(s.take(1).drop_first() =~= Seq::<u8>::empty());
        assert(s.take(1).first() == s[0]);
        assert(hex_bits_of(s.take(1)) =~= bits4_of(lenient_hex_val(s[0])));
    } else {
        assert(s.take(i + 1).drop_first() =~= s.drop_first().take(i));
        assert(s.take(i).drop_first() =~= s.drop_first().take(i - 1));
        lemma_hex_bits_take_step(s.drop_first(), i - 1);
        assert(s.drop_first()[i - 1] == s[i]);
    }
}

/// Each hex string character contributes four bits.
pub proof fn lemma_hex_bits_len(s: Seq<u8>)
    ensures
        hex_bits_of(s).len() == 4 * s.len(),
    decreases s.len(),
{
    if s.len() > 0 {
        lemma_hex_bits_len(s.drop_first());
    }
}

/// Converts a hexadecimal string to a vector of bits, four per character,
/// most significant bit first; a character that is no hex digit counts
/// as 0. The expansion runs over the string's UTF-8 bytes; on an ASCII
/// string — and the hashes and seeds the sites exchange are ASCII —
/// bytes and characters coincide, so the result is four bits per
/// character.
pub fn hex_string_to_binary_vec(hex_str: &str) -> (r: Vec<u8>)
    ensures
        r@ == hex_bits_of(hex_str.spec_bytes()),
        r@.len() == 4 * hex_str.spec_bytes().len(),
        vstd::utf8::is_ascii_chars(hex_str@) ==> r@.len() == 4 * hex_str@.len(),
{
    proof {
        if vstd::utf8::is_ascii_chars(hex_str@) {
            vstd::utf8::is_ascii_chars_encode_utf8(hex_str@);
        }
    }
    let bytes = hex_str.as_bytes();
    let n = bytes.len();
    let mut r: Vec<u8> = Vec::new();
    for i in 0..n
        invariant
            n == bytes@.len(),
            bytes@ == hex_str.spec_bytes(),
            r@ =~= hex_bits_of(bytes@.take(i as int)),
            r@.len() == 4 * i,
    {
        let b = bytes[i];
        let v: u8 = if b >= 48 && b <= 57 {
            b - 48
        } else if b >= 97 && b <= 102 {
            b - 87
        } else if b >= 65 && b <= 70 {
            b - 55
        } else {
            0
        };
        r.push((v / 8) % 2);
        r.push((v / 4) % 2);
        r.push((v / 2) % 2);
        r.push(v % 2);
        proof {
            lemma_hex_bits_take_step(bytes@, i as int);
        }
    }
    assert(bytes@.take(n as int) =~= bytes@);
    r
}

/// `s` brought to length `n`: truncated, or right-padded with zero bits.
pub open spec fn resized_bits(s: Seq<u8>, n: nat) -> Seq<u8> {
    if s.len() >= n {
        s.take(n as int)
    } else {
        s + Seq::<u8>::new((n - s.len()) as nat, |i: int| 0u8)
    }
}

/// Brings the bit vector to length `n` by truncating or right-padding
/// with zeros.
pub fn resize_bits(v: &mut Vec<u8>, n: usize)
    ensures
        final(v)@ == resized_bits(old(v)@, n as nat),
{
    if v.len() >= n {
        v.truncate(n);
        assert(final(v)@ =~= resized_bits(old(v)@, n as nat));
    } else {
        while v.len() < n
            invariant
                old(v)@.len() < n,
                old(v)@.len() <= v@.len() <= n,
                v@ =~= old(v)@ + Seq::<u8>::new((v@.len() - old(v)@.len()) as nat, |i: int| 0u8),
            decreases n - v@.len(),
        {
            v.push(0u8);
            assert(v@ =~= old(v)@ + Seq::<u8>::new(
                (v@.len() - old(v)@.len()) as nat,
                |i: int| 0u8,
            ));
        }
        assert(v@ =~= resized_bits(old(v)@, n as nat));
    }
}

/// The 32 bits of `n`, least significant first.
pub open spec fn u32_bits_le(n: u32) -> Seq<u8> {
    Seq::<u8>::new(32, |i: int| (((n as nat) / pow2_nat(i as nat)) % 2) as u8)
}

/// Two to the `k`.
pub open spec fn pow2_nat(k: nat) -> nat
    decreases k,
{
    if k == 0 {
        1
    } else {
        2 * pow2_nat((k - 1) as nat)
    }
}

/// The nibble values spelled by a bit sequence, four bits at a time,
/// most significant first.
pub open spec fn bits_to_nibbles(bits: Seq<u8>) -> Seq<u8>
    decreases bits.len(),
{
    if bits.len() < 4 {
        Seq::<u8>::empty()
    } else {
        seq![(bits[0] * 8 + bits[1] * 4 + bits[2] * 2 + bits[3]) as u8] + bits_to_nibbles(
            bits.skip(4),
        )
    }
}

/// Round-trip law: regrouping the bit encoding of a hex string into
/// nibbles, four bits at a time, reproduces the string's hex digit
/// values, one per character.
pub proof fn lemma_hex_bits_roundtrip(s: Seq<u8>)
    ensures
        bits_to_nibbles(hex_bits_of(s)) =~= s.map_values(|b: u8| lenient_hex_val(b)),
    decreases s.len(),
{
    lemma_hex_bits_len(s);
    if s.len() == 0 {
        assert(bits_to_nibbles(hex_bits_of(s)) =~= Seq::<u8>::empty());
    } else {
        let v = lenient_hex_val(s.first());
        let bits = hex_bits_of(s);
        assert(v < 16);
        assert(bits[0] * 8 + bits[1] * 4 + bits[2] * 2 + bits[3] == v) by {
            assert((v / 8) % 2 * 8 + (v / 4) % 2 * 4 + (v / 2) % 2 * 2 + v % 2 == v)
                by (nonlinear_arith)
                requires
                    v < 16,
            ;
        }
        lemma_hex_bits_len(s.drop_first());
        assert(bits.skip(4) =~= hex_bits_of(s.drop_first()));
        lemma_hex_bits_roundtrip(s.drop_first());
        assert(s.drop_first().map_values(|b: u8| lenient_hex_val(b)) =~= s.map_values(
            |b: u8| lenient_hex_val(b),
        ).drop_first());
    }
}

/// A power of two is positive.
proof fn lemma_pow2_pos(k: nat)
    ensures
        pow2_nat(k) >= 1,
    decreases k,
{
    if k > 0 {
        lemma_pow2_pos((k - 1) as nat);
    }
}

/// Writes the 32 bits of `n`, least significant first.
pub fn u32_to_bits_le(n: u32) -> (r: Vec<u8>)
    ensures
        r@ == u32_bits_le(n),
{
    let mut r: Vec<u8> = Vec::new();
    let mut rest: u32 = n;
    proof {
        assert(pow2_nat(0) == 1);
    }
    for i in 0..32usize
        invariant
            r@.len() == i,
            rest == (n as nat) / pow2_nat(i as nat),
            forall|k: int|
                0 <= k < i ==> r@[k] == (((n as nat) / pow2_nat(k as nat)) % 2) as u8,
    {
        r.push((rest % 2) as u8);
        proof {
            lemma_pow2_pos(i as nat);
            assert((n as nat) / pow2_nat(i as nat) / 2 == (n as nat) / pow2_nat(
                (i + 1) as nat,
            )) by {
                vstd::arithmetic::div_mod::lemma_div_denominator(
                    n as int,
                    pow2_nat(i as nat) as int,
                    2,
                );
            }
        }
        rest = rest / 2;
    }
    assert(r@ =~= u32_bits_le(n));
    r
}

} // verus!
