//! Synthetic bet records for training and evaluating the external
//! predictor, generated with the direct-HMAC roll variant.
//!
//! Every record carries a commit-reveal pair that really matches: the
//! digest published with a roll is the SHA-256 of the seed the roll was
//! computed from.

use vstd::prelude::*;
use vstd::utf8::{encode_utf8, is_ascii_chars, is_ascii_chars_encode_utf8};

use crate::fair::{roll_direct, spec_roll_direct};
use crate::hashing::{hex_encode, hex_lower_of, lemma_hex_lower_len, sha256, sha256_of};
use crate::random::{is_alphanumeric_char, random_alphanumeric, random_index};

verus! {

/// The generator's rolling state: published digests, nonces and rolls,
/// one roll ahead of what a record reports.
#[derive(Debug)]
pub struct FakeServerStorage {
    pub server_seed_hash_previous_roll: String,
    pub server_seed_hash_next_roll: String,
    pub server_seed_previous_roll: u32,
    pub previous_nonce: u64,
    pub current_nonce: u64,
    pub next_nonce: u64,
    pub current_seed_hash: String,
    pub previous_roll: u32,
    pub current_roll: u32,
    pub next_roll: u32,
}

impl Default for FakeServerStorage {
    /// A fresh generator: everything empty, every counter zero.
    fn default() -> (r: Self)
        ensures
            r.current_nonce == 0,
            r.next_roll == 0,
            r.current_roll == 0,
    {
        FakeServerStorage {
            server_seed_hash_previous_roll: String::new(),
            server_seed_hash_next_roll: String::new(),
            server_seed_previous_roll: 0,
            previous_nonce: 0,
            current_nonce: 0,
            next_nonce: 0,
            current_seed_hash: String::new(),
            previous_roll: 0,
            current_roll: 0,
            next_roll: 0,
        }
    }
}

/// One synthetic bet record: amounts in atomic units, nonces as numbers.
#[derive(Debug)]
pub struct BetResultCsvRecord {
    pub result: bool,
    pub rolled_number: u32,
    pub next_number: u32,
    pub user_balance: u64,
    pub amount_won: u64,
    pub server_seed_hash_next_roll: String,
    pub client_seed: String,
    pub nonce_next_roll: u64,
    pub nonce: u64,
    pub server_seed_previous_roll: String,
    pub server_seed_hash_previous_roll: String,
    pub previous_nonce: u64,
    pub duplicate_rolls: Vec<u32>,
}

/// Rolls one number under a fresh 64-byte random seed and a fresh random
/// client seed, with the direct-HMAC variant at the given nonce. The
/// returned digest commits to exactly the seed the roll came from:
/// revealing that seed would let the roll be reproduced.
pub fn gen_fake_bet(server_storage: &mut FakeServerStorage, _client_seed: &str, nonce: u64) -> (r:
    (u32, String, String, u64))
    ensures
        *final(server_storage) == *old(server_storage),
        r.0 < 10000,
        r.1@.len() == 64,
        r.2@.len() < 64,
        is_ascii_chars(r.2@),
        r.3 == final(server_storage).current_nonce,
        exists|seed: Seq<u8>|
            #![auto]
            seed.len() == 64 && r.0 == spec_roll_direct(seed, encode_utf8(r.2@), nonce) && r.1@
                == hex_lower_of(sha256_of(seed)),
{
    let server_seed = crate::random::random_seed_bytes();
    let digest = sha256(server_seed.as_slice());
    let server_seed_hash = hex_encode(digest.as_slice());
    proof {
        lemma_hex_lower_len(sha256_of(server_seed@));
    }

    let client_seed_len = random_index(64);
    let client_seed = random_alphanumeric(client_seed_len);
    proof {
        assert(is_ascii_chars(client_seed@)) by {
            assert(forall|i: int|
                0 <= i < client_seed@.len() ==> is_alphanumeric_char(#[trigger] client_seed@[i]));
        }
        is_ascii_chars_encode_utf8(client_seed@);
    }

    let number = roll_direct(
        server_seed.as_slice(),
        client_seed.as_str().as_bytes(),
        nonce,
    );
    proof {
        assert(server_seed@.len() == 64 && number == spec_roll_direct(
            server_seed@,
            encode_utf8(client_seed@),
            nonce,
        ) && server_seed_hash@ == hex_lower_of(sha256_of(server_seed@)));
    }
    (number, server_seed_hash, client_seed, server_storage.current_nonce)
}

/// The winning threshold at this generator's 99.95% return:
/// `9995 / multiplier` rolls win out of 10000.
pub open spec fn csv_win_target(mult_centi: u64) -> int
    recommends
        mult_centi >= 1,
{
    999500int / mult_centi as int
}

/// Whether a roll wins under the generator's threshold.
pub open spec fn csv_roll_wins(roll: u32, high: bool, mult_centi: u64) -> bool {
    if high {
        roll > 10000 - csv_win_target(mult_centi)
    } else {
        (roll as int) < csv_win_target(mult_centi)
    }
}

/// One synthetic freebitco.in-shaped record at the given nonce: two
/// rolls are generated so the record also carries the number after the
/// reported one, and the storage advances by one commitment.
pub fn free_bitcoin_fake_bet(
    server_storage: &mut FakeServerStorage,
    high: bool,
    client_seed: &str,
    _stake: u64,
    multiplier: u64,
    nonce: u64,
) -> (r: BetResultCsvRecord)
    requires
        multiplier >= 100,
        nonce < u64::MAX,
    ensures
        r.result == csv_roll_wins(old(server_storage).next_roll, high, multiplier),
        r.nonce == nonce,
        r.nonce_next_roll == nonce + 1,
        r.next_number == final(server_storage).next_roll,
        r.rolled_number == final(server_storage).current_roll,
        r.next_number < 10000,
        r.rolled_number < 10000,
        r.user_balance == 0,
        r.amount_won == 0,
        r.client_seed@.len() < 64,
        r.duplicate_rolls@.len() == 0,
        crate::parse::parsed_u64(encode_utf8(r.server_seed_previous_roll@)) == Some(
            old(server_storage).server_seed_previous_roll as u64,
        ),
        r.server_seed_hash_previous_roll@ == old(server_storage).current_seed_hash@,
        r.server_seed_hash_next_roll@.len() == 64,
        final(server_storage).current_nonce == nonce,
        final(server_storage).previous_nonce == nonce,
        final(server_storage).next_nonce == nonce + 1,
        final(server_storage).server_seed_hash_previous_roll@ == old(
            server_storage,
        ).server_seed_hash_next_roll@,
        final(server_storage).current_seed_hash@ == r.server_seed_hash_next_roll@,
        final(server_storage).server_seed_hash_next_roll@.len() == 64,
        final(server_storage).previous_roll == old(server_storage).next_roll,
        final(server_storage).server_seed_previous_roll == old(
            server_storage,
        ).server_seed_previous_roll,
{
    let (rolled_number, server_seed, s_client_seed, _n) = gen_fake_bet(
        server_storage,
        client_seed,
        nonce,
    );
    server_storage.server_seed_hash_previous_roll = server_storage.current_seed_hash.clone();
    server_storage.current_seed_hash = server_storage.server_seed_hash_next_roll.clone();
    server_storage.server_seed_hash_next_roll = server_seed;
    server_storage.previous_nonce = nonce;
    server_storage.current_nonce = nonce;
    server_storage.next_nonce = nonce + 1;
    server_storage.previous_roll = server_storage.current_roll;
    server_storage.current_roll = server_storage.next_roll;
    server_storage.next_roll = rolled_number;

    let target = compute_csv_win_target(multiplier);
    let result = (high && server_storage.current_roll > 10000 - target) || (!high
        && server_storage.current_roll < target);

    let mut record = BetResultCsvRecord {
        result,
        rolled_number,
        next_number: 0,
        user_balance: 0,
        amount_won: 0,
        server_seed_hash_next_roll: server_storage.server_seed_hash_next_roll.clone(),
        client_seed: s_client_seed,
        nonce_next_roll: nonce + 1,
        nonce,
        server_seed_previous_roll: crate::parse::u64_to_string(
            server_storage.server_seed_previous_roll as u64,
        ),
        server_seed_hash_previous_roll: server_storage.server_seed_hash_previous_roll.clone(),
        previous_nonce: server_storage.previous_nonce,
        duplicate_rolls: Vec::new(),
    };

    let (rolled_number2, server_seed2, _cs2, _n2) = gen_fake_bet(
        server_storage,
        client_seed,
        nonce,
    );
    server_storage.server_seed_hash_previous_roll = server_storage.current_seed_hash.clone();
    server_storage.current_seed_hash = server_storage.server_seed_hash_next_roll.clone();
    server_storage.server_seed_hash_next_roll = server_seed2;
    server_storage.previous_nonce = nonce;
    server_storage.current_nonce = nonce;
    server_storage.next_nonce = nonce + 1;
    server_storage.previous_roll = server_storage.current_roll;
    server_storage.current_roll = server_storage.next_roll;
    server_storage.next_roll = rolled_number2;

    record.next_number = rolled_number2;

    record
}

/// Computes the generator's winning threshold for a multiplier.
pub fn compute_csv_win_target(mult_centi: u64) -> (r: u32)
    requires
        mult_centi >= 100,
    ensures
        r == csv_win_target(mult_centi),
        r <= 9995,
{
    proof {
        assert(999500int / (mult_centi as int) <= 9995) by (nonlinear_arith)
            requires
                mult_centi >= 100,
        ;
        assert(999500int / (mult_centi as int) >= 0) by (nonlinear_arith)
            requires
                mult_centi >= 100,
        ;
    }
    (999500 / mult_centi) as u32
}

/// A stream of synthetic records of a fixed length.
pub struct BetResultsDataset {
    pub len: usize,
}

impl BetResultsDataset {
    /// The training split: one million synthetic records; opening it
    /// never fails.
    pub fn train() -> (r: Result<BetResultsDataset, std::io::Error>)
        ensures
            r is Ok,
            r matches Ok(d) ==> d.len == 1000000,
    {
        Ok(BetResultsDataset { len: 1000000 })
    }

    /// The evaluation split: one thousand synthetic records; opening it
    /// never fails.
    pub fn test() -> (r: Result<BetResultsDataset, std::io::Error>)
        ensures
            r is Ok,
            r matches Ok(d) ==> d.len == 1000,
    {
        Ok(BetResultsDataset { len: 1000 })
    }

    /// The record at an index: generated on the fly, high bets of one
    /// atomic unit at 2x, the index as the nonce.
    pub fn get(&self, server_storage: &mut FakeServerStorage, index: usize) -> (r: Option<
        BetResultCsvRecord,
    >)
        requires
            index < u64::MAX,
        ensures
            r is Some,
            r matches Some(rec) ==> rec.nonce == index,
    {
        Some(
            free_bitcoin_fake_bet(
                server_storage,
                true,
                "lYypIPVEgzvCflWF",
                1,
                200,
                index as u64,
            ),
        )
    }

    /// How many records the split holds.
    pub fn len(&self) -> (r: usize)
        ensures
            r == self.len,
    {
        self.len
    }
}

/// The error type the split constructors report; declared so it can
/// stand in their signatures, though the synthetic generator never fails.
#[verifier::external_type_specification]
#[verifier::external_body]
pub struct ExIoError(std::io::Error);

} // verus!
