//! Small verified parsers for the sites' wire formats.
//!
//! Numbers are read from ASCII decimal; currency amounts with up to eight
//! fractional digits are read into atomic units of 1e-8. Each parser
//! returns `None` for anything it does not accept, and the specs below say
//! exactly which inputs those are.

use vstd::prelude::*;
use vstd::utf8::{encode_utf8, is_ascii_chars, is_ascii_chars_encode_utf8, valid_utf8};

use crate::fair::{dec_bytes_of, u64_to_dec_bytes};

verus! {

/// Whether a byte is an ASCII decimal digit.
pub open spec fn is_digit(b: u8) -> bool {
    48 <= b <= 57
}

/// The state of a decimal scan over `s` from `i` with accumulator `acc`:
/// `None` as soon as a non-digit appears or the value no longer fits.
pub open spec fn scan_u64(s: Seq<u8>, i: nat, acc: u64) -> Option<u64>
    decreases s.len() - i,
{
    if i >= s.len() {
        Some(acc)
    } else if !is_digit(s[i as int]) {
        None
    } else {
        let d = (s[i as int] - 48) as u64;
        if acc > (u64::MAX - d) / 10 {
            None
        } else {
            scan_u64(s, i + 1, (acc * 10 + d) as u64)
        }
    }
}

/// The u64 spelled by a non-empty, all-digit sequence whose value fits;
/// `None` otherwise.
pub open spec fn parsed_u64(s: Seq<u8>) -> Option<u64> {
    if s.len() == 0 {
        None
    } else {
        scan_u64(s, 0, 0)
    }
}

/// Reads an unsigned decimal number; `None` when the input is empty, holds
/// a non-digit, or does not fit in 64 bits.
pub fn parse_u64(s: &[u8]) -> (r: Option<u64>)
    ensures
        r == parsed_u64(s@),
{
    let n = s.len();
    if n == 0 {
        return None;
    }
    let mut acc: u64 = 0;
    let mut i: usize = 0;
    while i < n
        invariant
            n == s@.len(),
            i <= n,
            scan_u64(s@, 0, 0) == scan_u64(s@, i as nat, acc),
        decreases n - i,
    {
        let b = s[i];
        if !(b >= 48 && b <= 57) {
            return None;
        }
        let d = (b - 48) as u64;
        if acc > (u64::MAX - d) / 10 {
            return None;
        }
        acc = acc * 10 + d;
        i = i + 1;
    }
    Some(acc)
}

/// Reads an unsigned decimal number that must also fit in 32 bits.
pub fn parse_u32(s: &[u8]) -> (r: Option<u32>)
    ensures
        r matches Some(v) ==> parsed_u64(s@) == Some(v as u64),
        r is None <==> (parsed_u64(s@) is None || parsed_u64(s@)->Some_0 > u32::MAX),
{
    match parse_u64(s) {
        None => None,
        Some(v) => {
            if v > 0xFFFFFFFF {
                None
            } else {
                Some(v as u32)
            }
        },
    }
}

/// Reads an unsigned decimal number that must also fit in 8 bits.
pub fn parse_u8(s: &[u8]) -> (r: Option<u8>)
    ensures
        r matches Some(v) ==> parsed_u64(s@) == Some(v as u64),
        r is None <==> (parsed_u64(s@) is None || parsed_u64(s@)->Some_0 > u8::MAX),
{
    match parse_u64(s) {
        None => None,
        Some(v) => {
            if v > 0xFF {
                None
            } else {
                Some(v as u8)
            }
        },
    }
}

/// One atomic unit for each 1e-8 of a coin.
pub const ATOMIC_PER_COIN: u64 = 100000000;

/// The amount in atomic units spelled by `int_part [. frac_part]`: the
/// integer part scaled by 1e8 plus the fraction padded to eight digits;
/// `None` when either part is malformed, the fraction is longer than
/// eight digits, or the amount does not fit.
pub open spec fn parsed_amount(s: Seq<u8>) -> Option<u64> {
    let dot = first_index_of(s, 46);
    if dot is None {
        scaled_amount(parsed_u64(s), Some(0nat))
    } else {
        let d = dot->Some_0;
        scaled_amount(
            parsed_u64(s.take(d as int)),
            frac_value(s.skip(d as int + 1)),
        )
    }
}

/// Combines integer and fraction parts when both are present and the sum
/// fits in 64 bits.
pub open spec fn scaled_amount(int_part: Option<u64>, frac: Option<nat>) -> Option<u64> {
    if int_part is None || frac is None {
        None
    } else {
        let v = int_part->Some_0 * ATOMIC_PER_COIN + frac->Some_0;
        if v > u64::MAX {
            None
        } else {
            Some(v as u64)
        }
    }
}

/// The value of a fraction of at most eight digits, padded with zeros to
/// eight digits; `None` when empty, longer, or not all digits.
pub open spec fn frac_value(s: Seq<u8>) -> Option<nat> {
    if 1 <= s.len() <= 8 && (forall|i: int| 0 <= i < s.len() ==> is_digit(#[trigger] s[i])) {
        Some((scan_u64(s, 0, 0)->Some_0 * pad_factor((8 - s.len()) as nat)) as nat)
    } else {
        None
    }
}

/// Ten to the number of missing fraction digits.
pub open spec fn pad_factor(k: nat) -> nat
    decreases k,
{
    if k == 0 {
        1
    } else {
        10 * pad_factor((k - 1) as nat)
    }
}

/// The first position of `b` in `s`, if any.
pub open spec fn first_index_of(s: Seq<u8>, b: u8) -> Option<nat>
    decreases s.len(),
{
    if s.len() == 0 {
        None
    } else if s.first() == b {
        Some(0nat)
    } else {
        match first_index_of(s.drop_first(), b) {
            None => None,
            Some(i) => Some(i + 1),
        }
    }
}

/// What `first_index_of` finds really is the first occurrence.
pub proof fn lemma_first_index_of(s: Seq<u8>, b: u8)
    ensures
        first_index_of(s, b) matches Some(i) ==> i < s.len() && s[i as int] == b && forall|j: int|
            0 <= j < i ==> s[j] != b,
        first_index_of(s, b) is None ==> forall|j: int| 0 <= j < s.len() ==> s[j] != b,
    decreases s.len(),
{
    if s.len() > 0 && s.first() != b {
        lemma_first_index_of(s.drop_first(), b);
        match first_index_of(s.drop_first(), b) {
            Some(i) => {
                assert(s[i + 1 as int] == s.drop_first()[i as int]);
                assert forall|j: int| 0 <= j < i + 1 implies s[j] != b by {
                    if j > 0 {
                        assert(s.drop_first()[j - 1] != b);
                    }
                }
            },
            None => {
                assert forall|j: int| 0 <= j < s.len() implies s[j] != b by {
                    if j > 0 {
                        assert(s.drop_first()[j - 1] != b);
                    }
                }
            },
        }
    }
}

/// Finds the first position of `b` in `s`, if any.
pub fn find_byte(s: &[u8], b: u8) -> (r: Option<usize>)
    ensures
        match r {
            Some(i) => first_index_of(s@, b) == Some(i as nat),
            None => first_index_of(s@, b) is None,
        },
{
    proof {
        lemma_first_index_of(s@, b);
    }
    let n = s.len();
    for i in 0..n
        invariant
            n == s@.len(),
            forall|j: int| 0 <= j < i ==> s@[j] != b,
    {
        if s[i] == b {
            proof {
                lemma_first_index_found(s@, b, i as nat);
            }
            return Some(i);
        }
    }
    None
}

/// A position holding `b`, before which `b` never occurs, is what
/// `first_index_of` finds.
proof fn lemma_first_index_found(s: Seq<u8>, b: u8, i: nat)
    requires
        i < s.len(),
        s[i as int] == b,
        forall|j: int| 0 <= j < i ==> s[j] != b,
    ensures
        first_index_of(s, b) == Some(i),
    decreases i,
{
    if i > 0 {
        lemma_first_index_found(s.drop_first(), b, (i - 1) as nat);
    }
}

/// Reads a currency amount in atomic units from `int [. frac]` with at
/// most eight fraction digits.
pub fn parse_amount(s: &[u8]) -> (r: Option<u64>)
    ensures
        r == parsed_amount(s@),
{
    match find_byte(s, 46) {
        None => {
            match parse_u64(s) {
                None => None,
                Some(v) => scale_to_atomic(v, 0, 8),
            }
        },
        Some(d) => {
            proof {
                lemma_first_index_of(s@, 46);
            }
            let (int_bytes, rest) = s.split_at(d);
            let (_, frac_bytes) = rest.split_at(1);
            assert(int_bytes@ =~= s@.take(d as int));
            assert(frac_bytes@ =~= s@.skip(d as int + 1));
            let int_val = match parse_u64(int_bytes) {
                None => {
                    return None;
                },
                Some(v) => v,
            };
            let fn_len = frac_bytes.len();
            if fn_len < 1 || fn_len > 8 {
                proof {
                    lemma_frac_none(s@.skip(d as int + 1));
                }
                return None;
            }
            let frac_raw = match parse_u64(frac_bytes) {
                None => {
                    proof {
                        lemma_frac_digits(s@.skip(d as int + 1));
                    }
                    return None;
                },
                Some(v) => v,
            };
            proof {
                lemma_frac_some(s@.skip(d as int + 1), frac_raw);
            }
            scale_to_atomic(int_val, frac_raw, 8 - fn_len as u32)
        },
    }
}

/// A fraction outside one to eight digits has no value.
proof fn lemma_frac_none(s: Seq<u8>)
    requires
        s.len() < 1 || s.len() > 8,
    ensures
        frac_value(s) is None,
{
}

/// A fraction that `parse_u64` rejects holds a non-digit, so it has no
/// value; one it accepts has the scanned value padded to eight digits.
proof fn lemma_frac_digits(s: Seq<u8>)
    requires
        1 <= s.len() <= 8,
        parsed_u64(s) is None,
    ensures
        frac_value(s) is None,
{
    if forall|i: int| 0 <= i < s.len() ==> is_digit(#[trigger] s[i]) {
        lemma_scan_digits_fit(s, 0, 0);
    }
}

/// A scan over at most eight digits never overflows.
proof fn lemma_scan_digits_fit(s: Seq<u8>, i: nat, acc: u64)
    requires
        s.len() <= 8,
        i <= s.len(),
        forall|k: int| 0 <= k < s.len() ==> is_digit(#[trigger] s[k]),
        acc < pow10_int((i) as nat),
    ensures
        scan_u64(s, i, acc) is Some,
        scan_u64(s, i, acc)->Some_0 < pow10_int(s.len() as nat),
    decreases s.len() - i,
{
    reveal_with_fuel(pow10_int, 9);
    if i < s.len() {
        let d = (s[i as int] - 48) as u64;
        assert(acc * 10 + d < pow10_int((i + 1) as nat)) by (nonlinear_arith)
            requires
                acc < pow10_int(i as nat),
                d < 10,
                pow10_int((i + 1) as nat) == 10 * pow10_int(i as nat),
        ;
        assert(pow10_int((i + 1) as nat) <= pow10_int(s.len() as nat)) by {
            lemma_pow10_mono((i + 1) as nat, s.len() as nat);
        }
        assert(acc <= (u64::MAX - d) / 10);
        lemma_scan_digits_fit(s, i + 1, (acc * 10 + d) as u64);
    } else {
        lemma_pow10_mono(i, s.len() as nat);
    }
}

/// Ten to the `k`, within u64 range for small `k`.
pub open spec fn pow10_int(k: nat) -> int
    decreases k,
{
    if k == 0 {
        1
    } else {
        10 * pow10_int((k - 1) as nat)
    }
}

proof fn lemma_pow10_mono(a: nat, b: nat)
    requires
        a <= b,
    ensures
        pow10_int(a) <= pow10_int(b),
        pow10_int(a) >= 1,
    decreases b,
{
    if a == b {
        lemma_pow10_pos(a);
    } else {
        lemma_pow10_mono(a, (b - 1) as nat);
    }
}

proof fn lemma_pow10_pos(a: nat)
    ensures
        pow10_int(a) >= 1,
    decreases a,
{
    if a > 0 {
        lemma_pow10_pos((a - 1) as nat);
    }
}

/// An accepted fraction's value is the scan result times the pad factor.
proof fn lemma_frac_some(s: Seq<u8>, raw: u64)
    requires
        1 <= s.len() <= 8,
        parsed_u64(s) == Some(raw),
    ensures
        forall|i: int| 0 <= i < s.len() ==> is_digit(#[trigger] s[i]),
        frac_value(s) == Some((raw * pad_factor((8 - s.len()) as nat)) as nat),
{
    lemma_scan_digits(s, 0, 0);
}

/// A completed scan saw only digits.
proof fn lemma_scan_digits(s: Seq<u8>, i: nat, acc: u64)
    requires
        i <= s.len(),
        scan_u64(s, i, acc) is Some,
    ensures
        forall|k: int| i <= k < s.len() ==> is_digit(#[trigger] s[k]),
    decreases s.len() - i,
{
    if i < s.len() && is_digit(s[i as int]) {
        let d = (s[i as int] - 48) as u64;
        if acc <= (u64::MAX - d) / 10 {
            lemma_scan_digits(s, i + 1, (acc * 10 + d) as u64);
        }
    }
}

/// Scales `int_val` to atomic units and adds the fraction `frac`, itself
/// scaled by ten to the `shift`; `None` when the total does not fit.
fn scale_to_atomic(int_val: u64, frac: u64, shift: u32) -> (r: Option<u64>)
    requires
        shift <= 8,
    ensures
        r == scaled_amount(Some(int_val), Some((frac * pad_factor(shift as nat)) as nat)),
{
    proof {
        reveal_with_fuel(pad_factor, 9);
    }
    let factor: u64 = if shift == 0 {
        1
    } else if shift == 1 {
        10
    } else if shift == 2 {
        100
    } else if shift == 3 {
        1000
    } else if shift == 4 {
        10000
    } else if shift == 5 {
        100000
    } else if shift == 6 {
        1000000
    } else if shift == 7 {
        10000000
    } else {
        100000000
    };
    assert(factor == pad_factor(shift as nat));
    let padded = match frac.checked_mul(factor) {
        Some(p) => p,
        None => {
            return None;
        },
    };
    match int_val.checked_mul(ATOMIC_PER_COIN) {
        None => None,
        Some(scaled) => {
            match scaled.checked_add(padded) {
                None => None,
                Some(total) => Some(total),
            }
        },
    }
}

/// The signed amount in atomic units: an optional leading minus sign
/// before a plain amount; `None` when malformed or out of the i64 range.
pub open spec fn parsed_signed_amount(s: Seq<u8>) -> Option<i64> {
    if s.len() >= 1 && s[0] == 45 {
        match parsed_amount(s.skip(1)) {
            None => None,
            Some(v) => if v <= i64::MAX { Some((-(v as int)) as i64) } else { None },
        }
    } else {
        match parsed_amount(s) {
            None => None,
            Some(v) => if v <= i64::MAX { Some(v as i64) } else { None },
        }
    }
}

/// Reads a possibly negative currency amount in atomic units.
pub fn parse_signed_amount(s: &[u8]) -> (r: Option<i64>)
    ensures
        r == parsed_signed_amount(s@),
{
    if s.len() >= 1 && s[0] == 45 {
        let (_, rest) = s.split_at(1);
        assert(rest@ =~= s@.skip(1));
        match parse_amount(rest) {
            None => None,
            Some(v) => {
                if v <= 0x7FFFFFFFFFFFFFFF {
                    Some(-(v as i64))
                } else {
                    None
                }
            },
        }
    } else {
        match parse_amount(s) {
            None => None,
            Some(v) => {
                if v <= 0x7FFFFFFFFFFFFFFF {
                    Some(v as i64)
                } else {
                    None
                }
            },
        }
    }
}

/// Appending a byte to a scan's input extends an accepted value by one
/// digit, when that digit keeps the value in range.
proof fn lemma_scan_push(s: Seq<u8>, b: u8, i: nat, acc: u64)
    requires
        i <= s.len(),
    ensures
        scan_u64(s.push(b), i, acc) == (match scan_u64(s, i, acc) {
            None => None::<u64>,
            Some(m) => {
                let d = (b - 48) as u64;
                if is_digit(b) && m <= (u64::MAX - d) / 10 {
                    Some((m * 10 + d) as u64)
                } else {
                    None::<u64>
                }
            },
        }),
    decreases s.len() - i,
{
    if i < s.len() {
        assert(s.push(b)[i as int] == s[i as int]);
        if is_digit(s[i as int]) {
            let d = (s[i as int] - 48) as u64;
            if acc <= (u64::MAX - d) / 10 {
                lemma_scan_push(s, b, i + 1, (acc * 10 + d) as u64);
            }
        }
    } else {
        reveal_with_fuel(scan_u64, 3);
        assert(s.push(b)[i as int] == b);
    }
}

/// Every byte of a decimal representation is a digit.
proof fn lemma_dec_bytes_digits(n: nat)
    ensures
        forall|i: int|
            0 <= i < dec_bytes_of(n).len() ==> is_digit(#[trigger] dec_bytes_of(n)[i]),
    decreases n,
{
    if n < 10 {
        assert(dec_bytes_of(n) =~= seq![(48 + n) as u8]);
    } else {
        lemma_dec_bytes_digits(n / 10);
        let p = dec_bytes_of(n / 10);
        let full = dec_bytes_of(n);
        assert(full == p.push((48 + n % 10) as u8));
        assert forall|i: int| 0 <= i < full.len() implies is_digit(#[trigger] full[i]) by {
            if i < p.len() {
                assert(full[i] == p[i]);
            } else {
                assert(full[i] == (48 + n % 10) as u8);
            }
        }
    }
}

/// Scanning the decimal representation of a number reads the number
/// back.
proof fn lemma_dec_bytes_parse(n: u64)
    ensures
        parsed_u64(dec_bytes_of(n as nat)) == Some(n),
    decreases n,
{
    if n < 10 {
        reveal_with_fuel(scan_u64, 3);
        assert(dec_bytes_of(n as nat) =~= seq![(48 + n) as u8]);
    } else {
        lemma_dec_bytes_parse(n / 10);
        let s = dec_bytes_of((n / 10) as nat);
        let b = (48 + n % 10) as u8;
        assert(dec_bytes_of(n as nat) == s.push(b));
        assert(n / 10 <= (u64::MAX - (n % 10)) / 10) by (nonlinear_arith)
            requires
                n <= u64::MAX,
                n >= 10,
        ;
        lemma_scan_push(s, b, 0, 0);
        assert((n / 10) * 10 + n % 10 == n) by (nonlinear_arith);
    }
}

/// A sequence of bytes below 128 is valid UTF-8, being its own ASCII
/// encoding.
proof fn lemma_ascii_bytes_valid_utf8(bytes: Seq<u8>)
    requires
        forall|i: int| 0 <= i < bytes.len() ==> bytes[i] < 128,
    ensures
        valid_utf8(bytes),
{
    let chars = bytes.map_values(|b: u8| b as char);
    assert(is_ascii_chars(chars)) by {
        assert forall|i: int| 0 <= i < chars.len() implies '\0' <= #[trigger] chars[i]
            <= '\u{7f}' by {
            assert(chars[i] == bytes[i] as char);
        }
    }
    is_ascii_chars_encode_utf8(chars);
    assert(encode_utf8(chars) =~= bytes) by {
        assert forall|i: int| 0 <= i < chars.len() implies #[trigger] encode_utf8(chars)[i]
            == bytes[i] by {
            assert(encode_utf8(chars)[i] == chars[i] as u8);
            assert((bytes[i] as char) as u8 == bytes[i]);
        }
    }
    vstd::utf8::encode_utf8_valid_utf8(chars);
}

/// A decimal representation is a digit string, hence valid UTF-8.
proof fn lemma_dec_bytes_ascii(n: nat)
    ensures
        valid_utf8(dec_bytes_of(n)),
{
    lemma_dec_bytes_digits(n);
    lemma_ascii_bytes_valid_utf8(dec_bytes_of(n));
}

/// Writes `v` in plain decimal; the decimal parser reads the string back
/// to the same value.
pub fn u64_to_string(v: u64) -> (r: String)
    ensures
        parsed_u64(encode_utf8(r@)) == Some(v),
{
    let bytes = u64_to_dec_bytes(v);
    proof {
        lemma_dec_bytes_ascii(v as nat);
        lemma_dec_bytes_parse(v);
    }
    match bytes_to_string(bytes.as_slice()) {
        Some(s) => s,
        None => vstd::pervasive::unreached(),
    }
}

/// A number below ten to the `k` has at most `k` decimal digits.
proof fn lemma_dec_len_le(n: nat, k: nat)
    requires
        n < pow10_int(k),
        k >= 1,
    ensures
        dec_bytes_of(n).len() <= k,
    decreases n,
{
    if n >= 10 {
        reveal_with_fuel(pow10_int, 2);
        assert(n / 10 < pow10_int((k - 1) as nat)) by (nonlinear_arith)
            requires
                n < pow10_int(k),
                pow10_int(k) == 10 * pow10_int((k - 1) as nat),
        ;
        lemma_dec_len_le((n / 10) as nat, (k - 1) as nat);
    }
}

/// Scanning zeros accumulates nothing: the scan may start after them.
proof fn lemma_scan_zero_prefix(t: Seq<u8>, k: nat, i: nat)
    requires
        i <= k <= t.len(),
        forall|m: int| 0 <= m < k ==> t[m] == 48,
    ensures
        scan_u64(t, i, 0) == scan_u64(t, k, 0),
    decreases k - i,
{
    if i < k {
        assert(t[i as int] == 48);
        lemma_scan_zero_prefix(t, k, i + 1);
    }
}

/// A scan past a prefix only sees the suffix.
proof fn lemma_scan_offset(pre: Seq<u8>, s: Seq<u8>, j: nat, acc: u64)
    ensures
        scan_u64(pre + s, pre.len() + j, acc) == scan_u64(s, j, acc),
    decreases s.len() - j,
{
    if j < s.len() {
        assert((pre + s)[(pre.len() + j) as int] == s[j as int]);
        if is_digit(s[j as int]) {
            let d = (s[j as int] - 48) as u64;
            if acc <= (u64::MAX - d) / 10 {
                lemma_scan_offset(pre, s, j + 1, (acc * 10 + d) as u64);
            }
        }
    }
}

/// Writes a fraction below 1e8 as exactly eight digits, left-padded with
/// zeros; a scan reads the fraction back.
fn frac8_bytes(frac: u64) -> (r: Vec<u8>)
    requires
        frac < 100000000,
    ensures
        r@.len() == 8,
        forall|i: int| 0 <= i < 8 ==> is_digit(#[trigger] r@[i]),
        scan_u64(r@, 0, 0) == Some(frac),
{
    let digits = u64_to_dec_bytes(frac);
    proof {
        reveal_with_fuel(pow10_int, 9);
        lemma_dec_len_le(frac as nat, 8);
        lemma_dec_bytes_digits(frac as nat);
    }
    let pad: usize = 8 - digits.len();
    let mut r: Vec<u8> = Vec::new();
    for k in 0..pad
        invariant
            r@.len() == k,
            forall|m: int| 0 <= m < k ==> r@[m] == 48,
    {
        r.push(48);
    }
    let ghost zeros = r@;
    let mut d = digits;
    r.append(&mut d);
    proof {
        assert(r@ =~= zeros + dec_bytes_of(frac as nat));
        lemma_scan_zero_prefix(r@, zeros.len() as nat, 0);
        lemma_scan_offset(zeros, dec_bytes_of(frac as nat), 0, 0);
        lemma_dec_bytes_parse(frac);
    }
    r
}

/// Writes an amount as `int.frac8` in ASCII: the integer part in plain
/// decimal, a dot, and exactly eight fraction digits.
fn amount_bytes(v: u64) -> (r: Vec<u8>)
    ensures
        parsed_amount(r@) == Some(v),
        forall|i: int| 0 <= i < r@.len() ==> r@[i] < 128,
        r@.len() >= 1,
        r@[0] != 45,
{
    let int_part = v / ATOMIC_PER_COIN;
    let frac = v % ATOMIC_PER_COIN;
    let mut bytes = u64_to_dec_bytes(int_part);
    let ghost int_seq = bytes@;
    bytes.push(46);
    let mut f8 = frac8_bytes(frac);
    let ghost frac_seq = f8@;
    bytes.append(&mut f8);
    proof {
        lemma_dec_bytes_digits(int_part as nat);
        lemma_dec_bytes_parse(int_part);
        assert(bytes@ =~= int_seq.push(46) + frac_seq);
        let dot = int_seq.len() as int;
        assert(bytes@[dot] == 46);
        assert forall|j: int| 0 <= j < dot implies bytes@[j] != 46 by {
            assert(bytes@[j] == int_seq[j]);
            assert(is_digit(int_seq[j]));
        }
        lemma_first_index_found(bytes@, 46, int_seq.len() as nat);
        assert(bytes@.take(dot) =~= int_seq);
        assert(bytes@.skip(dot + 1) =~= frac_seq);
        reveal_with_fuel(pad_factor, 2);
        assert(frac_value(frac_seq) == Some(frac as nat));
        assert(int_part * ATOMIC_PER_COIN + frac == v);
        assert(parsed_amount(bytes@) == Some(v));
        assert forall|i: int| 0 <= i < bytes@.len() implies bytes@[i] < 128 by {
            if i < dot {
                assert(is_digit(bytes@[i]));
            } else if i > dot {
                assert(bytes@[i] == frac_seq[i - dot - 1]);
                assert(is_digit(frac_seq[i - dot - 1]));
            }
        }
        assert(is_digit(bytes@[0]));
    }
    bytes
}

/// Writes the amount as `int.frac8` decimal; the amount parser reads the
/// string back to the same value.
pub fn amount_to_string(v: u64) -> (r: String)
    ensures
        parsed_amount(encode_utf8(r@)) == Some(v),
{
    let bytes = amount_bytes(v);
    proof {
        lemma_ascii_bytes_valid_utf8(bytes@);
    }
    match bytes_to_string(bytes.as_slice()) {
        Some(s) => s,
        None => vstd::pervasive::unreached(),
    }
}

/// An accepted amount never opens with a minus sign.
proof fn lemma_amount_not_minus(s: Seq<u8>)
    requires
        parsed_amount(s) is Some,
    ensures
        s.len() >= 1 ==> s[0] != 45,
{
    if s.len() >= 1 {
        lemma_first_index_of(s, 46);
        match first_index_of(s, 46) {
            None => {
                lemma_scan_digits(s, 0, 0);
            },
            Some(d) => {
                if d == 0 {
                    assert(s.take(0).len() == 0);
                } else {
                    lemma_scan_digits(s.take(d as int), 0, 0);
                    assert(s.take(d as int)[0] == s[0]);
                }
            },
        }
    }
}

/// Writes a signed amount: as `amount_to_string`, with a leading minus
/// sign for negative amounts; the signed amount parser reads the string
/// back to the same value.
pub fn signed_amount_to_string(v: i64) -> (r: String)
    requires
        v != i64::MIN,
    ensures
        parsed_signed_amount(encode_utf8(r@)) == Some(v),
{
    if v >= 0 {
        let bytes = amount_bytes(v as u64);
        proof {
            lemma_ascii_bytes_valid_utf8(bytes@);
        }
        match bytes_to_string(bytes.as_slice()) {
            Some(s) => s,
            None => vstd::pervasive::unreached(),
        }
    } else {
        let mag_bytes = amount_bytes((-v) as u64);
        let ghost mag_seq = mag_bytes@;
        let mut bytes: Vec<u8> = Vec::new();
        bytes.push(45);
        let mut m = mag_bytes;
        bytes.append(&mut m);
        proof {
            assert(bytes@ =~= seq![45u8] + mag_seq);
            assert(bytes@.skip(1) =~= mag_seq);
            lemma_ascii_bytes_valid_utf8(bytes@);
        }
        match bytes_to_string(bytes.as_slice()) {
            Some(s) => s,
            None => vstd::pervasive::unreached(),
        }
    }
}

/// Relies on `String::from_utf8`: it succeeds exactly on valid UTF-8 and
/// returns a string over exactly the given bytes.
#[verifier::external_body]
pub fn bytes_to_string(b: &[u8]) -> (r: Option<String>)
    ensures
        r is Some <==> valid_utf8(b@),
        r matches Some(s) ==> encode_utf8(s@) == b@,
{
    match String::from_utf8(b.to_vec()) {
        Ok(s) => Some(s),
        Err(_) => None,
    }
}

/// The pieces of `s` between occurrences of `sep`, in order; one piece
/// more than there are separators.
pub open spec fn split_by(s: Seq<u8>, sep: u8) -> Seq<Seq<u8>>
    decreases s.len(),
{
    match first_index_of(s, sep) {
        None => seq![s],
        Some(i) => {
            if i < s.len() {
                seq![s.take(i as int)] + split_by(s.skip(i as int + 1), sep)
            } else {
                seq![s]
            }
        },
    }
}

/// Splits `s` at every occurrence of `sep`.
pub fn split_bytes(s: &[u8], sep: u8) -> (r: Vec<Vec<u8>>)
    ensures
        r@.map_values(|p: Vec<u8>| p@) == split_by(s@, sep),
    decreases s@.len(),
{
    proof {
        lemma_first_index_of(s@, sep);
    }
    match find_byte(s, sep) {
        None => {
            let mut r: Vec<Vec<u8>> = Vec::new();
            r.push(slice_to_vec(s));
            assert(r@.map_values(|p: Vec<u8>| p@) =~= split_by(s@, sep));
            r
        },
        Some(i) => {
            let (head, tail) = s.split_at(i);
            let (_, rest) = tail.split_at(1);
            assert(head@ =~= s@.take(i as int));
            assert(rest@ =~= s@.skip(i as int + 1));
            let mut r: Vec<Vec<u8>> = Vec::new();
            r.push(slice_to_vec(head));
            let mut pieces = split_bytes(rest, sep);
            r.append(&mut pieces);
            assert(r@.map_values(|p: Vec<u8>| p@) =~= split_by(s@, sep));
            r
        },
    }
}

/// Copies a slice into a vector.
fn slice_to_vec(s: &[u8]) -> (r: Vec<u8>)
    ensures
        r@ == s@,
{
    let n = s.len();
    let mut r: Vec<u8> = Vec::new();
    for i in 0..n
        invariant
            n == s@.len(),
            r@ =~= s@.take(i as int),
    {
        r.push(s[i]);
        assert(r@ =~= s@.take(i as int + 1));
    }
    assert(s@.take(n as int) =~= s@);
    r
}

} // verus!
