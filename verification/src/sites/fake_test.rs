//! The simulated site: deterministic offline betting backed by the
//! provably-fair engine, for tests and strategy replay without a network.
//!
//! The storage plays the server's role: it owns the secret seed, publishes
//! digests one roll ahead, and rotates commitments exactly as the live
//! sites do. It is an explicitly owned value handed to whoever needs
//! deterministic rolls; there is no process-wide instance.

use vstd::prelude::*;
use vstd::string::StringSliceAdditionalSpecFns;
use vstd::utf8::encode_utf8;

use crate::fair::{roll_rejection, spec_roll_rejection};
use crate::hashing::{hex_encode, hex_lower_of, sha256, sha256_of};
use crate::parse::{amount_to_string, signed_amount_to_string};
use crate::random::random_seed_bytes;
use crate::sites::duck_dice::{BetInfo, BetResponse, UserInBet};
use crate::sites::free_bitco_in::BetSiteResult;

verus! {

/// The simulated server's state: the current secret seed, the digests
/// published for the neighbouring rolls, and the rolls themselves, one
/// ahead of what the bettor sees.
#[derive(Debug)]
pub struct FakeServerStorage {
    pub server_seed_hash_previous_roll: String,
    pub server_seed_hash_next_roll: String,
    pub server_seed_previous_roll: u32,
    pub previous_nonce: u64,
    pub current_nonce: u64,
    pub next_nonce: u64,
    pub current_seed_hash: String,
    pub previous_roll: u32,
    pub current_roll: u32,
    pub next_roll: u32,
    pub initialized: bool,
    pub client_seed: String,
    pub server_seed: Vec<u8>,
}

impl FakeServerStorage {
    /// The secret seed stays short enough that rolls can always be
    /// computed over it.
    pub open spec fn wf(&self) -> bool {
        self.server_seed@.len() <= 0x10000
    }
}

impl Default for FakeServerStorage {
    /// A fresh storage: everything empty, every counter zero.
    fn default() -> (r: Self)
        ensures
            r.wf(),
            r.current_nonce == 0,
            r.server_seed@ =~= Seq::<u8>::empty(),
            r.next_roll == 0,
            r.current_roll == 0,
    {
        FakeServerStorage {
            server_seed_hash_previous_roll: String::new(),
            server_seed_hash_next_roll: String::new(),
            server_seed_previous_roll: 0,
            previous_nonce: 0,
            current_nonce: 0,
            next_nonce: 0,
            current_seed_hash: String::new(),
            previous_roll: 0,
            current_roll: 0,
            next_roll: 0,
            initialized: false,
            client_seed: String::new(),
            server_seed: Vec::new(),
        }
    }
}

/// Starts a fresh commitment chain: the nonce returns to 0, every other
/// field is kept, and the next roll is therefore generated under a new
/// seed.
pub fn reset_server_seed(server_storage: &mut FakeServerStorage)
    ensures
        (*final(server_storage) == FakeServerStorage {
            current_nonce: 0,
            ..*old(server_storage)
        }),
{
    server_storage.current_nonce = 0;
}

/// Rolls one number for the bettor's seed at the server's current nonce:
/// at nonce 0 a fresh 64-byte cryptographically random server seed is
/// drawn first; every other storage field is kept. Returns the rolled
/// number, the hex digest that commits to the server seed, and the nonce
/// it was rolled under.
pub fn gen_fake_bet(server_storage: &mut FakeServerStorage, client_seed: &str) -> (r: (
    u32,
    String,
    u64,
))
    requires
        old(server_storage).wf(),
        client_seed.spec_bytes().len() <= 0x100000,
    ensures
        final(server_storage).wf(),
        (*final(server_storage) == FakeServerStorage {
            server_seed: final(server_storage).server_seed,
            ..*old(server_storage)
        }),
        old(server_storage).current_nonce == 0 ==> final(server_storage).server_seed@.len() == 64,
        old(server_storage).current_nonce != 0 ==> final(server_storage).server_seed == old(server_storage).server_seed,
        r.0 == spec_roll_rejection(
            final(server_storage).server_seed@,
            client_seed.spec_bytes(),
            final(server_storage).current_nonce,
        ),
        r.0 < 10000,
        r.1@ == hex_lower_of(sha256_of(final(server_storage).server_seed@)),
        r.2 == final(server_storage).current_nonce,
{
    if server_storage.current_nonce == 0 {
        server_storage.server_seed = random_seed_bytes();
    }
    let digest = sha256(server_storage.server_seed.as_slice());
    let server_seed_hash = hex_encode(digest.as_slice());
    let number = roll_rejection(
        server_storage.server_seed.as_slice(),
        client_seed.as_bytes(),
        server_storage.current_nonce,
    );
    (number, server_seed_hash, server_storage.current_nonce)
}

/// The winning threshold for a payout multiplier in hundredths, at the
/// simulated sites' 97.5% return: `9750 / multiplier` rolls win out of
/// 10000.
pub open spec fn win_target(mult_centi: u64) -> int
    recommends
        mult_centi >= 1,
{
    975000int / mult_centi as int
}

/// Whether a roll wins: above `10000 - target` betting high, below
/// `target` betting low.
pub open spec fn roll_wins(roll: u32, high: bool, mult_centi: u64) -> bool {
    if high {
        roll > 10000 - win_target(mult_centi)
    } else {
        (roll as int) < win_target(mult_centi)
    }
}

/// The amount won on a winning stake: `stake * (multiplier - 1)`, carried
/// exactly and clamped to the type's range.
pub open spec fn won_amount(stake: u64, mult_centi: u64) -> u64
    recommends
        mult_centi >= 100,
{
    let v = stake * (mult_centi - 100) / 100;
    if v > u64::MAX {
        u64::MAX
    } else {
        v as u64
    }
}

/// Computes the amount won on a winning stake.
pub fn compute_won_amount(stake: u64, mult_centi: u64) -> (r: u64)
    requires
        mult_centi >= 100,
    ensures
        r == won_amount(stake, mult_centi),
{
    proof {
        assert((stake as int) * ((mult_centi - 100) as int) < 0x100000000000000000000000000000000)
            by (nonlinear_arith)
            requires
                stake <= 0xFFFFFFFFFFFFFFFFu64,
                mult_centi >= 100,
                mult_centi <= 0xFFFFFFFFFFFFFFFFu64,
        ;
    }
    let prod: u128 = (stake as u128) * ((mult_centi - 100) as u128);
    proof {
        assert(prod == (stake as int) * ((mult_centi - 100) as int)) by (nonlinear_arith)
            requires
                prod == ((stake as u128) as int) * (((mult_centi - 100) as u128) as int),
                (stake as u128) as int == stake as int,
                ((mult_centi - 100) as u128) as int == (mult_centi - 100) as int,
        ;
    }
    let wide: u128 = prod / 100;
    if wide > 0xFFFFFFFFFFFFFFFF {
        0xFFFFFFFFFFFFFFFFu64
    } else {
        wide as u64
    }
}

/// Computes the winning threshold for a multiplier.
pub fn compute_win_target(mult_centi: u64) -> (r: u32)
    requires
        mult_centi >= 100,
    ensures
        r == win_target(mult_centi),
        r <= 9750,
{
    proof {
        assert(975000int / (mult_centi as int) <= 9750) by (nonlinear_arith)
            requires
                mult_centi >= 100,
        ;
        assert(975000int / (mult_centi as int) >= 0) by (nonlinear_arith)
            requires
                mult_centi >= 100,
        ;
    }
    (975000 / mult_centi) as u32
}

/// One simulated freebitco.in bet: rolls under the current commitment,
/// rotates the published digests, nonces and rolls forward by one step of
/// the commit-reveal chain, and reports the (one roll delayed) current
/// roll with its outcome, exactly as the live site would.
pub fn free_bitcoin_fake_bet(
    server_storage: &mut FakeServerStorage,
    high: bool,
    client_seed: &str,
    stake: u64,
    multiplier: u64,
) -> (r: BetSiteResult)
    requires
        old(server_storage).wf(),
        client_seed.spec_bytes().len() <= 0x100000,
        multiplier >= 100,
        old(server_storage).current_nonce < u64::MAX,
    ensures
        final(server_storage).wf(),
        final(server_storage).current_nonce == old(server_storage).current_nonce + 1,
        final(server_storage).previous_nonce == old(server_storage).current_nonce,
        final(server_storage).next_nonce == old(server_storage).current_nonce + 1,
        final(server_storage).server_seed_hash_previous_roll@ == old(server_storage).current_seed_hash@,
        final(server_storage).current_seed_hash@ == old(server_storage).server_seed_hash_next_roll@,
        final(server_storage).server_seed_hash_next_roll@ == hex_lower_of(
            sha256_of(final(server_storage).server_seed@),
        ),
        final(server_storage).previous_roll == old(server_storage).current_roll,
        final(server_storage).current_roll == old(server_storage).next_roll,
        final(server_storage).next_roll == spec_roll_rejection(
            final(server_storage).server_seed@,
            client_seed.spec_bytes(),
            old(server_storage).current_nonce,
        ),
        final(server_storage).next_roll < 10000,
        old(server_storage).current_nonce == 0 ==> final(server_storage).server_seed@.len() == 64,
        old(server_storage).current_nonce != 0 ==> final(server_storage).server_seed == old(server_storage).server_seed,
        final(server_storage).server_seed_previous_roll == old(server_storage).server_seed_previous_roll,
        final(server_storage).initialized == old(server_storage).initialized,
        final(server_storage).client_seed == old(server_storage).client_seed,
        r.success_code@ == "1"@,
        r.result == roll_wins(final(server_storage).current_roll, high, multiplier),
        r.rolled_number == final(server_storage).current_roll,
        r.user_balance == 0,
        r.amount_won == if r.result {
            won_amount(stake, multiplier)
        } else {
            stake
        },
        r.server_seed_hash_next_roll@ == final(server_storage).server_seed_hash_next_roll@,
        r.client_seed_previous_roll@ == client_seed@,
        r.nonce_next_roll == final(server_storage).current_nonce,
        r.server_seed_previous_roll == old(server_storage).server_seed_previous_roll,
        r.server_seed_hash_previous_roll@ == final(server_storage).server_seed_hash_previous_roll@,
        r.previous_nonce == final(server_storage).previous_nonce,
        r.jackpot_result == 0,
        r.jackpot_amount_won == 0,
        r.bonus_account_balance_after_bet == 0,
        r.bonus_acount_wager_remaining == 0,
        r.max_amount_bonus_eligable == 0,
        r.max_bet == 2000000000,
        r.account_balance_after_bet == 0,
        r.account_balance_before_bet == 0,
        r.bonus_account_balance_before_bet == 0,
{
    let (rolled_number, server_seed, _nonce) = gen_fake_bet(server_storage, client_seed);
    server_storage.server_seed_hash_previous_roll = server_storage.current_seed_hash.clone();
    server_storage.current_seed_hash = server_storage.server_seed_hash_next_roll.clone();
    server_storage.server_seed_hash_next_roll = server_seed;
    server_storage.previous_nonce = server_storage.current_nonce;
    server_storage.next_nonce = server_storage.current_nonce + 1;
    server_storage.current_nonce = server_storage.next_nonce;
    server_storage.previous_roll = server_storage.current_roll;
    server_storage.current_roll = server_storage.next_roll;
    server_storage.next_roll = rolled_number;

    let target = compute_win_target(multiplier);
    let result = (high && server_storage.current_roll > 10000 - target) || (!high
        && server_storage.current_roll < target);

    let amount_won = if result {
        compute_won_amount(stake, multiplier)
    } else {
        stake
    };

    BetSiteResult {
        success_code: one_string(),
        result,
        rolled_number: server_storage.current_roll,
        user_balance: 0,
        amount_won,
        server_seed_hash_next_roll: server_storage.server_seed_hash_next_roll.clone(),
        client_seed_previous_roll: client_seed.to_owned(),
        nonce_next_roll: server_storage.current_nonce,
        server_seed_previous_roll: server_storage.server_seed_previous_roll,
        server_seed_hash_previous_roll: server_storage.server_seed_hash_previous_roll.clone(),
        previous_nonce: server_storage.previous_nonce,
        jackpot_result: 0,
        jackpot_amount_won: 0,
        bonus_account_balance_after_bet: 0,
        bonus_acount_wager_remaining: 0,
        max_amount_bonus_eligable: 0,
        max_bet: 2000000000,
        account_balance_after_bet: 0,
        account_balance_before_bet: 0,
        bonus_account_balance_before_bet: 0,
    }
}

/// The chance implied by a payout multiplier, in hundredths of a percent.
pub open spec fn duckdice_chance(mult_centi: u64) -> u32
    recommends
        mult_centi >= 100,
{
    (1000000int / mult_centi as int) as u32
}

/// The profit a simulated DuckDice bet reports: the won amount on a win,
/// clamped into the signed range, and the lost stake on a loss.
pub open spec fn duck_profit(stake: u64, mult_centi: u64, result: bool) -> i64
    recommends
        mult_centi >= 100,
        stake <= i64::MAX,
{
    if result {
        let w = won_amount(stake, mult_centi);
        if w > i64::MAX {
            i64::MAX
        } else {
            w as i64
        }
    } else {
        (-(stake as int)) as i64
    }
}

/// One simulated DuckDice bet: the same commit-reveal rotation as the
/// freebitco.in simulation, reported in the DuckDice response shape with
/// its amounts written as decimal strings.
pub fn duckdice_fake_bet(
    server_storage: &mut FakeServerStorage,
    high: bool,
    client_seed: &str,
    stake: u64,
    multiplier: u64,
) -> (r: BetResponse)
    requires
        old(server_storage).wf(),
        client_seed.spec_bytes().len() <= 0x100000,
        multiplier >= 100,
        old(server_storage).current_nonce < u64::MAX,
        stake <= i64::MAX,
    ensures
        final(server_storage).wf(),
        final(server_storage).current_nonce == old(server_storage).current_nonce + 1,
        final(server_storage).previous_nonce == old(server_storage).current_nonce,
        final(server_storage).next_nonce == old(server_storage).current_nonce + 1,
        final(server_storage).server_seed_hash_previous_roll@ == old(server_storage).current_seed_hash@,
        final(server_storage).current_seed_hash@ == old(server_storage).server_seed_hash_next_roll@,
        final(server_storage).server_seed_hash_next_roll@ == hex_lower_of(
            sha256_of(final(server_storage).server_seed@),
        ),
        final(server_storage).previous_roll == old(server_storage).current_roll,
        final(server_storage).current_roll == old(server_storage).next_roll,
        final(server_storage).next_roll == spec_roll_rejection(
            final(server_storage).server_seed@,
            client_seed.spec_bytes(),
            old(server_storage).current_nonce,
        ),
        old(server_storage).current_nonce == 0 ==> final(server_storage).server_seed@.len() == 64,
        old(server_storage).current_nonce != 0 ==> final(server_storage).server_seed == old(server_storage).server_seed,
        final(server_storage).server_seed_previous_roll == old(server_storage).server_seed_previous_roll,
        final(server_storage).initialized == old(server_storage).initialized,
        final(server_storage).client_seed == old(server_storage).client_seed,
        r.bet.result == roll_wins(final(server_storage).current_roll, high, multiplier),
        r.bet.number == final(server_storage).current_roll,
        r.bet.nonce == final(server_storage).current_nonce,
        r.bet.chance == duckdice_chance(multiplier),
        r.bet.payout == multiplier,
        crate::parse::parsed_amount(encode_utf8(r.bet.bet_amount@)) == Some(stake),
        crate::parse::parsed_signed_amount(encode_utf8(r.bet.profit@)) == Some(
            duck_profit(stake, multiplier, r.bet.result),
        ),
        crate::parse::parsed_signed_amount(encode_utf8(r.bet.win_amount@)) == Some(
            duck_profit(stake, multiplier, r.bet.result),
        ),
        r.bet.hash@ == final(server_storage).current_seed_hash@,
        r.bet.symbol@.len() == 0,
        crate::sites::duck_dice::choice_is_high(encode_utf8(r.bet.choice@)) == (final(server_storage).current_roll > 5000),
{
    let (rolled_number, server_seed, _nonce) = gen_fake_bet(server_storage, client_seed);
    server_storage.server_seed_hash_previous_roll = server_storage.current_seed_hash.clone();
    server_storage.current_seed_hash = server_storage.server_seed_hash_next_roll.clone();
    server_storage.server_seed_hash_next_roll = server_seed;
    server_storage.previous_nonce = server_storage.current_nonce;
    server_storage.next_nonce = server_storage.current_nonce + 1;
    server_storage.current_nonce = server_storage.next_nonce;
    server_storage.previous_roll = server_storage.current_roll;
    server_storage.current_roll = server_storage.next_roll;
    server_storage.next_roll = rolled_number;

    let target = compute_win_target(multiplier);
    let result = (high && server_storage.current_roll > 10000 - target) || (!high
        && server_storage.current_roll < target);

    let won: u64 = compute_won_amount(stake, multiplier);
    let profit: i64 = if result {
        if won > 0x7FFFFFFFFFFFFFFF {
            i64::MAX
        } else {
            won as i64
        }
    } else {
        -(stake as i64)
    };

    let choice = if server_storage.current_roll > 5000 {
        high_choice_string()
    } else {
        low_choice_string()
    };
    proof {
        reveal_strlit("> 5000");
        reveal_strlit("< 5000");
        vstd::utf8::is_ascii_chars_encode_utf8(choice@);
    }

    BetResponse {
        bet: BetInfo {
            hash: server_storage.current_seed_hash.clone(),
            symbol: String::new(),
            choice,
            result,
            number: server_storage.current_roll,
            chance: (1000000 / multiplier) as u32,
            payout: multiplier,
            bet_amount: amount_to_string(stake),
            win_amount: signed_amount_to_string(profit),
            profit: signed_amount_to_string(profit),
            nonce: server_storage.current_nonce,
        },
        user: UserInBet { hash: String::new(), username: String::new(), balance: String::new() },
    }
}

/// The success code the simulated site reports.
fn one_string() -> (r: String)
    ensures
        r@ == "1"@,
{
    "1".to_owned()
}

/// The choice string reported for a roll above the midpoint.
fn high_choice_string() -> (r: String)
    ensures
        r@ == "> 5000"@,
{
    "> 5000".to_owned()
}

/// The choice string reported for a roll at or below the midpoint.
fn low_choice_string() -> (r: String)
    ensures
        r@ == "< 5000"@,
{
    "< 5000".to_owned()
}

} // verus!
