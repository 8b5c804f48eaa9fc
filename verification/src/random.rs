//! Sources of randomness for seed generation.
//!
//! Nothing can be promised about a random value itself, so each wrapper
//! states only what holds of every outcome: lengths and character sets.

use vstd::prelude::*;

verus! {

/// Whether a character is an ASCII letter or digit.
pub open spec fn is_alphanumeric_char(c: char) -> bool {
    ('0' <= c && c <= '9') || ('a' <= c && c <= 'z') || ('A' <= c && c <= 'Z')
}

/// Relies on rand's `fill` over a thread-local cryptographically secure
/// generator: it fills the whole slice, so the result is 64 bytes long.
#[verifier::external_body]
pub fn random_seed_bytes() -> (r: Vec<u8>)
    ensures
        r@.len() == 64,
{
    let mut buf = [0u8; 64];
    rand::fill(&mut buf[..]);
    buf.to_vec()
}

/// Relies on rand's `Alphanumeric` distribution: `sample_string` appends
/// exactly `len` characters, each an ASCII letter or digit.
#[verifier::external_body]
pub fn random_alphanumeric(len: usize) -> (r: String)
    ensures
        r@.len() == len,
        forall|i: int| 0 <= i < r@.len() ==> is_alphanumeric_char(#[trigger] r@[i]),
{
    rand::distr::SampleString::sample_string(&rand::distr::Alphanumeric, &mut rand::rng(), len)
}

/// Relies on rand's `random_range`: the result lies in the given range,
/// which the precondition keeps non-empty.
#[verifier::external_body]
pub fn random_index(n: usize) -> (r: usize)
    requires
        n > 0,
    ensures
        r < n,
{
    rand::random_range(0..n)
}

} // verus!
