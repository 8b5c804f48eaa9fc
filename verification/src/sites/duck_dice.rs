//! The DuckDice bot API: its error taxonomy, its wire records, and the
//! normalisation of a bet response into the canonical form.
//!
//! The HTTP calls themselves live outside the library; the functions here
//! work on the plain values read off the responses. Amounts arrive as
//! decimal strings and are carried into atomic units of 1e-8.

use vstd::prelude::*;
use vstd::string::StringSliceAdditionalSpecFns;
use vstd::utf8::encode_utf8;

use crate::history::{pushed, HistoryWindow};
use crate::parse::{parse_signed_amount, parse_u64, parsed_signed_amount, parsed_u64};
use crate::sites::{max64, max_u64, negate_sat, neg_sat, BetError, BetResult};
use crate::strategies::{
    balance_shifted, clamped_stake, profit_shifted, Strategy, MIDPOINT,
};

verus! {

/// Error kinds for DuckDice API operations.
#[derive(Debug)]
pub enum DuckDiceError {
    NetworkError(String),
    ApiError(String),
    JsonError(String),
    AuthenticationError,
    /// Seconds to wait before retrying.
    RateLimitError(u64),
}

/// User information response.
#[derive(Debug)]
pub struct UserInfo {
    pub hash: String,
    pub username: String,
    pub created_at: u64,
    pub level: u32,
    pub balances: Vec<Balance>,
}

/// Balance information: amounts as the site sends them, decimal strings.
#[derive(Debug)]
pub struct Balance {
    pub currency: String,
    pub main: Option<String>,
    pub faucet: Option<String>,
    pub affiliate: Option<String>,
}

/// Bet request payload: chance in hundredths of a percent, amount in
/// atomic units.
#[derive(Debug)]
pub struct BetRequest {
    pub symbol: String,
    pub chance: u32,
    pub is_high: bool,
    pub amount: u64,
    pub faucet: Option<bool>,
}

/// Bet response.
#[derive(Debug)]
pub struct BetResponse {
    pub bet: BetInfo,
    pub user: UserInBet,
}

/// Bet information: chance in hundredths of a percent, payout multiplier
/// in hundredths, amounts as the decimal strings the site sends.
#[derive(Debug)]
pub struct BetInfo {
    pub hash: String,
    pub symbol: String,
    pub choice: String,
    pub result: bool,
    pub number: u32,
    pub chance: u32,
    pub payout: u64,
    pub bet_amount: String,
    pub win_amount: String,
    pub profit: String,
    pub nonce: u64,
}

/// User info in a bet response.
#[derive(Debug)]
pub struct UserInBet {
    pub hash: String,
    pub username: String,
    pub balance: String,
}

/// The cooldown to honour when the site answers 429: the `retry-after`
/// header's seconds, or 60 when the header is absent or unreadable.
pub open spec fn retry_after_seconds(retry_after: Option<Seq<u8>>) -> u64 {
    match retry_after {
        Some(s) => match parsed_u64(s) {
            Some(v) => v,
            None => 60,
        },
        None => 60,
    }
}

/// Checks an HTTP status and the `retry-after` header for rate
/// limiting: a 429 yields `RateLimitError` with the advertised seconds,
/// or 60 when none are readable; every other status passes.
pub fn handle_rate_limit(status: u16, retry_after: Option<&str>) -> (r: Result<
    (),
    DuckDiceError,
>)
    ensures
        status != 429 ==> r is Ok,
        status == 429 ==> r == Result::<(), DuckDiceError>::Err(
            DuckDiceError::RateLimitError(
                retry_after_seconds(
                    match retry_after {
                        Some(s) => Some(s.spec_bytes()),
                        None => None,
                    },
                ),
            ),
        ),
{
    if status != 429 {
        return Ok(());
    }
    match retry_after {
        Some(h) => {
            match parse_u64(h.as_bytes()) {
                Some(v) => Err(DuckDiceError::RateLimitError(v)),
                None => Err(DuckDiceError::RateLimitError(60)),
            }
        },
        None => Err(DuckDiceError::RateLimitError(60)),
    }
}

/// The confidence-tiered sizing used by the mobile host bridge: high
/// confidence plays a 50% chance, medium 40%, low 30%, and the stake is
/// 100 atomic units on high confidence and 50 otherwise. Confidence is
/// in percent, prediction on the `[0, 10000)` roll scale.
pub fn tiered_bet_parameters(prediction: u32, confidence: u32) -> (r: BetRequest)
    requires
        prediction < 10000,
        confidence <= 100,
    ensures
        r.is_high == (prediction > 5000),
        r.chance == if confidence > 70 {
            5000u32
        } else if confidence > 50 {
            4000u32
        } else {
            3000u32
        },
        r.amount == if confidence > 70 {
            100u64
        } else {
            50u64
        },
        r.faucet is None,
{
    let chance: u32 = if confidence > 70 {
        5000
    } else if confidence > 50 {
        4000
    } else {
        3000
    };
    let amount: u64 = if confidence > 70 {
        100
    } else {
        50
    };
    BetRequest {
        symbol: String::new(),
        chance,
        is_high: prediction > 5000,
        amount,
        faucet: None,
    }
}

/// Whether the bet was on the high side: the choice string opens with `>`.
pub open spec fn choice_is_high(choice: Seq<u8>) -> bool {
    choice.len() >= 1 && choice[0] == 62
}

impl BetResponse {
    /// The canonical form of this response: hashes and seed carried over,
    /// direction read off the choice string, amounts parsed from their
    /// decimal strings. Fails with `ParseError` exactly when the profit
    /// string is not a signed decimal amount.
    pub fn to_bet_result(&self, previous_hash: String, client_seed: String) -> (r: Result<
        BetResult,
        BetError,
    >)
        ensures
            r is Ok <==> parsed_signed_amount(encode_utf8(self.bet.profit@)) is Some,
            r matches Err(e) ==> e is ParseError,
            r matches Ok(b) ==> {
                &&& b.hash_previous_roll@ == previous_hash@
                &&& b.hash_next_roll@ == self.bet.hash@
                &&& b.client_seed@ == client_seed@
                &&& b.nonce == self.bet.nonce % 0x100000000
                &&& b.symbol@ == self.bet.symbol@
                &&& b.result == self.bet.result
                &&& b.is_high == choice_is_high(encode_utf8(self.bet.choice@))
                &&& b.number == self.bet.number
                &&& b.threshold == 0
                &&& b.chance == self.bet.chance
                &&& b.payout == self.bet.payout
                &&& b.bet_amount == 0
                &&& Some(b.win_amount) == parsed_signed_amount(encode_utf8(self.bet.profit@))
            },
    {
        let win_amount = match parse_signed_amount(self.bet.profit.as_str().as_bytes()) {
            Some(v) => v,
            None => {
                return Err(BetError::ParseError);
            },
        };
        let is_high = {
            let cb = self.bet.choice.as_str().as_bytes();
            cb.len() >= 1 && cb[0] == 62
        };
        Ok(
            BetResult {
                hash_previous_roll: previous_hash,
                hash_next_roll: self.bet.hash.clone(),
                client_seed,
                nonce: truncate_nonce(self.bet.nonce),
                symbol: self.bet.symbol.clone(),
                result: self.bet.result,
                is_high,
                number: self.bet.number,
                threshold: 0,
                chance: self.bet.chance,
                payout: self.bet.payout,
                bet_amount: 0,
                win_amount,
            },
        )
    }
}

/// The chance played while the history window is still warming up, in
/// hundredths of a percent (50%).
pub const DD_NEUTRAL_CHANCE_BP: u32 = 5000;

/// The multiplier reported while the history window is still warming up,
/// in hundredths (2x).
pub const DD_NEUTRAL_MULT_CENTI: u64 = 200;

/// One authenticated DuckDice bot API session: sizing state, cumulative
/// metrics, and the rolling history of settled bets; the HTTP calls live
/// outside the library.
pub struct DuckDice<S: Strategy> {
    pub rolls: u64,
    pub client_seed: String,
    pub current_bet: u64,
    pub multiplier: u64,
    pub profit: i64,
    pub prediction: u32,
    pub strategy: S,
    pub history: HistoryWindow,
    pub symbol: String,
    pub min_bet: u64,
}

impl<S: Strategy> DuckDice<S> {
    /// The adapter's rolling history stays inside its capacity.
    pub open spec fn wf(&self) -> bool {
        self.history.wf()
    }

    /// A fresh session over the given strategy, betting the given coin
    /// with its minimum bet; sizing starts at that minimum and a neutral
    /// multiplier.
    pub fn new(strategy: S, symbol: String, min_bet: u64, history_size: usize) -> (r: Self)
        requires
            history_size >= 1,
        ensures
            r.wf(),
            r.rolls == 0,
            r.current_bet == min_bet,
            r.multiplier == DD_NEUTRAL_MULT_CENTI,
            r.profit == 0,
            r.history@ =~= Seq::<BetResult>::empty(),
            r.history.spec_capacity() == history_size,
            r.strategy == strategy,
            r.symbol@ == symbol@,
            r.min_bet == min_bet,
    {
        DuckDice {
            rolls: 0,
            client_seed: String::new(),
            current_bet: min_bet,
            multiplier: DD_NEUTRAL_MULT_CENTI,
            profit: 0,
            prediction: 0,
            strategy,
            history: HistoryWindow::new(history_size),
            symbol,
            min_bet,
        }
    }

    /// Records the balance the site reported at login on the strategy.
    pub fn apply_login_balance(&mut self, balance: u64)
        ensures
            final(self).strategy.balance() == balance,
            final(self).strategy.min_bet() == old(self).strategy.min_bet(),
            final(self).strategy.raw_stake() == old(self).strategy.raw_stake(),
            final(self).history == old(self).history,
            final(self).rolls == old(self).rolls,
            final(self).profit == old(self).profit,
            final(self).wf() == old(self).wf(),
    {
        self.strategy.set_balance(balance);
    }

    /// Sizes the next bet: the strategy's clamped stake, chance and
    /// multiplier, overridden by conservative defaults while the window
    /// is still warming up, with the stake held at or above the coin's
    /// minimum.
    pub fn prepare_bet(&mut self, prediction: u32, confidence: u32) -> (req: BetRequest)
        requires
            old(self).wf(),
            prediction < 10000,
            confidence <= 100,
            old(self).rolls < u64::MAX,
        ensures
            final(self).wf(),
            final(self).rolls == old(self).rolls + 1,
            final(self).history == old(self).history,
            final(self).strategy == old(self).strategy,
            final(self).profit == old(self).profit,
            final(self).min_bet == old(self).min_bet,
            final(self).client_seed == old(self).client_seed,
            req.is_high == (prediction > MIDPOINT),
            req.symbol@ == old(self).symbol@,
            req.amount == final(self).current_bet,
            req.faucet is None,
            old(self).history@.len() < old(self).history.spec_capacity() ==> {
                &&& final(self).current_bet == old(self).min_bet
                &&& final(self).multiplier == DD_NEUTRAL_MULT_CENTI
                &&& req.chance == DD_NEUTRAL_CHANCE_BP
            },
            old(self).history@.len() >= old(self).history.spec_capacity() ==> {
                &&& final(self).current_bet == max_u64(
                    clamped_stake(
                        old(self).strategy.raw_stake(),
                        old(self).strategy.min_bet(),
                        old(self).strategy.balance(),
                    ),
                    old(self).min_bet,
                )
                &&& final(self).multiplier == crate::strategies::multiplier_from_chance(
                    crate::strategies::chance_from_confidence(confidence),
                )
                &&& req.chance == crate::strategies::chance_from_confidence(confidence)
            },
    {
        self.rolls = self.rolls + 1;
        let decision = self.strategy.get_next_bet(prediction, confidence);
        self.current_bet = decision.stake;
        self.multiplier = decision.multiplier;
        let mut chance = decision.chance;

        if self.history.len() < self.history.capacity() {
            self.current_bet = self.min_bet;
            self.multiplier = DD_NEUTRAL_MULT_CENTI;
            chance = DD_NEUTRAL_CHANCE_BP;
        }

        self.current_bet = max64(self.current_bet, self.min_bet);

        BetRequest {
            symbol: self.symbol.clone(),
            chance,
            is_high: decision.is_high,
            amount: self.current_bet,
            faucet: None,
        }
    }

    /// Appends a settled bet to the rolling history, evicting the oldest
    /// entry when full. A stake above the strategy's bankroll is the
    /// fatal-but-graceful condition: the bet is still recorded and
    /// `InsufficientBalance` is returned so the loop can halt instead of
    /// crashing.
    pub fn record_result(&mut self, b: &BetResult) -> (r: Result<(), BetError>)
        requires
            old(self).wf(),
        ensures
            final(self).wf(),
            final(self).history@ == pushed(
                old(self).history@,
                *b,
                old(self).history.spec_capacity(),
            ),
            final(self).strategy == old(self).strategy,
            final(self).rolls == old(self).rolls,
            final(self).current_bet == old(self).current_bet,
            final(self).multiplier == old(self).multiplier,
            final(self).profit == old(self).profit,
            r is Ok <==> old(self).current_bet <= old(self).strategy.balance(),
            r matches Err(e) ==> e is InsufficientBalance,
    {
        self.history.push(b.clone());
        if self.current_bet > self.strategy.get_balance() {
            return Err(BetError::InsufficientBalance);
        }
        Ok(())
    }

    /// Books a won bet: session profit and the strategy's bankroll grow
    /// by the won amount.
    pub fn on_win(&mut self, bet_result: &BetResult)
        ensures
            final(self).profit == profit_shifted(old(self).profit, bet_result.win_amount as int),
            final(self).strategy.balance() == balance_shifted(
                old(self).strategy.balance(),
                bet_result.win_amount as int,
            ),
            final(self).strategy.profit() == profit_shifted(
                old(self).strategy.profit(),
                bet_result.win_amount as int,
            ),
            final(self).strategy.min_bet() == old(self).strategy.min_bet(),
            final(self).history == old(self).history,
            final(self).rolls == old(self).rolls,
            final(self).current_bet == old(self).current_bet,
            final(self).multiplier == old(self).multiplier,
            final(self).min_bet == old(self).min_bet,
    {
        self.profit = crate::strategies::shift_profit(self.profit, bet_result.win_amount);
        self.strategy.on_win(bet_result);
    }

    /// Books a lost bet: the reported amount is negated first, as this
    /// site reports a loss as negative profit, so profit and the
    /// strategy's bankroll shrink by its magnitude.
    pub fn on_lose(&mut self, bet_result: &BetResult)
        ensures
            final(self).profit == profit_shifted(
                old(self).profit,
                -(neg_sat(bet_result.win_amount) as int),
            ),
            final(self).strategy.balance() == balance_shifted(
                old(self).strategy.balance(),
                -(neg_sat(bet_result.win_amount) as int),
            ),
            final(self).strategy.profit() == profit_shifted(
                old(self).strategy.profit(),
                -(neg_sat(bet_result.win_amount) as int),
            ),
            final(self).strategy.min_bet() == old(self).strategy.min_bet(),
            final(self).history == old(self).history,
            final(self).rolls == old(self).rolls,
            final(self).current_bet == old(self).current_bet,
            final(self).multiplier == old(self).multiplier,
            final(self).min_bet == old(self).min_bet,
    {
        let mut negated = bet_result.clone();
        negated.win_amount = negate_sat(bet_result.win_amount);
        self.profit = crate::strategies::shift_profit_minus(self.profit, negated.win_amount);
        self.strategy.on_lose(&negated);
    }

    /// A copy of the rolling history, oldest entry first.
    pub fn get_history(&self) -> (r: Vec<BetResult>)
        ensures
            r@ == self.history@,
    {
        self.history.to_vec()
    }

    pub fn get_rolls(&self) -> (r: u64)
        ensures
            r == self.rolls,
    {
        self.rolls
    }

    pub fn get_current_bet(&self) -> (r: u64)
        ensures
            r == self.current_bet,
    {
        self.current_bet
    }

    pub fn get_current_multiplier(&self) -> (r: u64)
        ensures
            r == self.multiplier,
    {
        self.multiplier
    }

    pub fn get_history_size(&self) -> (r: usize)
        ensures
            r == self.history.spec_capacity(),
    {
        self.history.capacity()
    }

    pub fn get_profit(&self) -> (r: i64)
        ensures
            r == self.profit,
    {
        self.profit
    }

    pub fn get_balance(&self) -> (r: u64)
        ensures
            r == self.strategy.balance(),
    {
        self.strategy.get_balance()
    }
}

/// The nonce as the canonical record carries it, truncated to 32 bits.
pub fn truncate_nonce(nonce: u64) -> (r: u32)
    ensures
        r == nonce % 0x100000000,
{
    (nonce % 0x100000000) as u32
}

} // verus!
