//! The freebitco.in adapter: the site's colon-delimited positional wire
//! record, its parser, and one bet lifecycle over plain values.
//!
//! The site speaks over a cookie/CSRF browser session owned outside the
//! library. The response to a bet is one line of colon-separated fields;
//! parsing it into the canonical record is this module's logic, and a
//! malformed line is a `ParseError`, never a panic.

use vstd::prelude::*;
use vstd::string::StringSliceAdditionalSpecFns;
use vstd::utf8::{encode_utf8, valid_utf8};

use crate::history::{pushed, HistoryWindow};
use crate::parse::{
    bytes_to_string, parse_amount, parse_u32, parse_u64, parse_u8, parsed_amount, parsed_u64,
    split_by, split_bytes,
};
use crate::sites::{BetError, BetResult};
use crate::strategies::{
    balance_shifted, clamped_stake, profit_shifted, BetDecision, Strategy, MIDPOINT,
};

verus! {

/// Lowest allowed payout multiplier on this site, in hundredths (1.01x).
pub const FB_MIN_MULT_CENTI: u64 = 101;

/// Highest allowed payout multiplier on this site, in hundredths (4750x).
pub const FB_MAX_MULT_CENTI: u64 = 475000;

/// Lowest allowed chance on this site, in hundredths of a percent.
pub const FB_MIN_CHANCE_BP: u32 = 1;

/// Highest allowed chance on this site, in hundredths of a percent (50%).
pub const FB_MAX_CHANCE_BP: u32 = 5000;

/// The login form's fields.
#[derive(Debug)]
pub struct LoginRequest {
    pub csrf_token: String,
    pub op: String,
    pub btc_address: String,
    pub password: String,
    pub tfa_code: String,
}

/// The session values carried in a successful login response.
#[derive(Debug)]
pub struct LoginSession {
    pub btc_address: String,
    pub password: String,
    pub user_id: String,
    pub session: String,
}

/// One settled bet as the site reports it: amounts in atomic units,
/// nonces as numbers, seeds and digests as the strings sent.
#[derive(Debug)]
pub struct BetSiteResult {
    pub success_code: String,
    pub result: bool,
    pub rolled_number: u32,
    pub user_balance: u64,
    pub amount_won: u64,
    pub server_seed_hash_next_roll: String,
    pub client_seed_previous_roll: String,
    pub nonce_next_roll: u64,
    pub server_seed_previous_roll: u32,
    pub server_seed_hash_previous_roll: String,
    pub previous_nonce: u64,
    pub jackpot_result: u8,
    pub jackpot_amount_won: u64,
    pub bonus_account_balance_after_bet: u64,
    pub bonus_acount_wager_remaining: u64,
    pub max_amount_bonus_eligable: u64,
    pub max_bet: u64,
    pub account_balance_before_bet: u64,
    pub account_balance_after_bet: u64,
    pub bonus_account_balance_before_bet: u64,
}

/// The user's account statistics: amounts in atomic units.
#[derive(Debug)]
pub struct UserStats {
    pub balance: u64,
    pub dice_profit: i64,
    pub jackpot_spent: u64,
    pub jackpot_winnings: u64,
    pub lottery_spent: u64,
    pub reward_points: u32,
    pub rolls_played: u64,
    pub status: String,
    pub total_winnings: u64,
    pub wagered: u64,
}

impl Default for UserStats {
    /// The statistics the session assumes before login: the small default
    /// bankroll of 400 atomic units and nothing played.
    fn default() -> (r: Self)
        ensures
            r.balance == 400,
            r.rolls_played == 0,
            r.dice_profit == 0,
    {
        UserStats {
            balance: 400,
            dice_profit: 0,
            jackpot_spent: 0,
            jackpot_winnings: 0,
            lottery_spent: 0,
            reward_points: 0,
            rolls_played: 0,
            status: String::new(),
            total_winnings: 0,
            wagered: 0,
        }
    }
}

/// Whether a colon-separated response line carries a well-formed bet
/// record: at least 23 fields, the numeric fields readable, and the
/// string fields valid UTF-8.
pub open spec fn fb_record_ok(p: Seq<Seq<u8>>) -> bool {
    &&& p.len() >= 23
    &&& valid_utf8(p[0])
    &&& parsed_u64(p[2]) matches Some(v) && v <= u32::MAX
    &&& parsed_amount(p[3]) is Some
    &&& parsed_amount(p[4]) is Some
    &&& valid_utf8(p[6])
    &&& valid_utf8(p[7])
    &&& parsed_u64(p[8]) is Some
    &&& parsed_u64(p[9]) matches Some(v) && v <= u32::MAX
    &&& valid_utf8(p[10])
    &&& parsed_u64(p[12]) is Some
    &&& parsed_u64(p[13]) matches Some(v) && v <= u8::MAX
    &&& parsed_amount(p[15]) is Some
    &&& parsed_amount(p[16]) is Some
    &&& parsed_amount(p[17]) is Some
    &&& parsed_amount(p[18]) is Some
    &&& parsed_amount(p[19]) is Some
    &&& parsed_amount(p[20]) is Some
    &&& parsed_amount(p[21]) is Some
    &&& parsed_amount(p[22]) is Some
}

impl BetSiteResult {
    /// The fields of this record are the given pieces.
    pub open spec fn matches_pieces(&self, p: Seq<Seq<u8>>) -> bool {
        &&& encode_utf8(self.success_code@) == p[0]
        &&& self.result == (p[1] =~= seq![119u8])
        &&& Some(self.rolled_number as u64) == parsed_u64(p[2])
        &&& Some(self.user_balance) == parsed_amount(p[3])
        &&& Some(self.amount_won) == parsed_amount(p[4])
        &&& encode_utf8(self.server_seed_hash_next_roll@) == p[6]
        &&& encode_utf8(self.client_seed_previous_roll@) == p[7]
        &&& Some(self.nonce_next_roll) == parsed_u64(p[8])
        &&& Some(self.server_seed_previous_roll as u64) == parsed_u64(p[9])
        &&& encode_utf8(self.server_seed_hash_previous_roll@) == p[10]
        &&& Some(self.previous_nonce) == parsed_u64(p[12])
        &&& Some(self.jackpot_result as u64) == parsed_u64(p[13])
        &&& Some(self.jackpot_amount_won) == parsed_amount(p[15])
        &&& Some(self.bonus_account_balance_after_bet) == parsed_amount(p[16])
        &&& Some(self.bonus_acount_wager_remaining) == parsed_amount(p[17])
        &&& Some(self.max_amount_bonus_eligable) == parsed_amount(p[18])
        &&& Some(self.max_bet) == parsed_amount(p[19])
        &&& Some(self.account_balance_before_bet) == parsed_amount(p[20])
        &&& Some(self.account_balance_after_bet) == parsed_amount(p[21])
        &&& Some(self.bonus_account_balance_before_bet) == parsed_amount(p[22])
    }
}

/// Parses one colon-separated response line into the site's bet record:
/// succeeds exactly on well-formed records and answers `ParseError` for
/// anything else.
pub fn parse_bet_response(s: &str) -> (r: Result<BetSiteResult, BetError>)
    ensures
        r is Ok <==> fb_record_ok(split_by(s.spec_bytes(), 58)),
        r matches Ok(b) ==> b.matches_pieces(split_by(s.spec_bytes(), 58)),
        r matches Err(e) ==> e is ParseError,
{
    let pieces = split_bytes(s.as_bytes(), 58);
    if pieces.len() < 23 {
        return Err(BetError::ParseError);
    }
    let ghost p = split_by(s.spec_bytes(), 58);

    let success_code = match bytes_to_string(pieces[0].as_slice()) {
        Some(v) => v,
        None => {
            return Err(BetError::ParseError);
        },
    };
    let result = pieces[1].len() == 1 && pieces[1][0] == 119;
    proof {
        if result {
            assert(p[1] =~= seq![119u8]);
        } else {
            assert(!(p[1] =~= seq![119u8]));
        }
    }
    let rolled_number = match parse_u32(pieces[2].as_slice()) {
        Some(v) => v,
        None => {
            return Err(BetError::ParseError);
        },
    };
    let user_balance = match parse_amount(pieces[3].as_slice()) {
        Some(v) => v,
        None => {
            return Err(BetError::ParseError);
        },
    };
    let amount_won = match parse_amount(pieces[4].as_slice()) {
        Some(v) => v,
        None => {
            return Err(BetError::ParseError);
        },
    };
    let server_seed_hash_next_roll = match bytes_to_string(pieces[6].as_slice()) {
        Some(v) => v,
        None => {
            return Err(BetError::ParseError);
        },
    };
    let client_seed_previous_roll = match bytes_to_string(pieces[7].as_slice()) {
        Some(v) => v,
        None => {
            return Err(BetError::ParseError);
        },
    };
    let nonce_next_roll = match parse_u64(pieces[8].as_slice()) {
        Some(v) => v,
        None => {
            return Err(BetError::ParseError);
        },
    };
    let server_seed_previous_roll = match parse_u32(pieces[9].as_slice()) {
        Some(v) => v,
        None => {
            return Err(BetError::ParseError);
        },
    };
    let server_seed_hash_previous_roll = match bytes_to_string(pieces[10].as_slice()) {
        Some(v) => v,
        None => {
            return Err(BetError::ParseError);
        },
    };
    let previous_nonce = match parse_u64(pieces[12].as_slice()) {
        Some(v) => v,
        None => {
            return Err(BetError::ParseError);
        },
    };
    let jackpot_result = match parse_u8(pieces[13].as_slice()) {
        Some(v) => v,
        None => {
            return Err(BetError::ParseError);
        },
    };
    let jackpot_amount_won = match parse_amount(pieces[15].as_slice()) {
        Some(v) => v,
        None => {
            return Err(BetError::ParseError);
        },
    };
    let bonus_account_balance_after_bet = match parse_amount(pieces[16].as_slice()) {
        Some(v) => v,
        None => {
            return Err(BetError::ParseError);
        },
    };
    let bonus_acount_wager_remaining = match parse_amount(pieces[17].as_slice()) {
        Some(v) => v,
        None => {
            return Err(BetError::ParseError);
        },
    };
    let max_amount_bonus_eligable = match parse_amount(pieces[18].as_slice()) {
        Some(v) => v,
        None => {
            return Err(BetError::ParseError);
        },
    };
    let max_bet = match parse_amount(pieces[19].as_slice()) {
        Some(v) => v,
        None => {
            return Err(BetError::ParseError);
        },
    };
    let account_balance_before_bet = match parse_amount(pieces[20].as_slice()) {
        Some(v) => v,
        None => {
            return Err(BetError::ParseError);
        },
    };
    let account_balance_after_bet = match parse_amount(pieces[21].as_slice()) {
        Some(v) => v,
        None => {
            return Err(BetError::ParseError);
        },
    };
    let bonus_account_balance_before_bet = match parse_amount(pieces[22].as_slice()) {
        Some(v) => v,
        None => {
            return Err(BetError::ParseError);
        },
    };
    Ok(
        BetSiteResult {
            success_code,
            result,
            rolled_number,
            user_balance,
            amount_won,
            server_seed_hash_next_roll,
            client_seed_previous_roll,
            nonce_next_roll,
            server_seed_previous_roll,
            server_seed_hash_previous_roll,
            previous_nonce,
            jackpot_result,
            jackpot_amount_won,
            bonus_account_balance_after_bet,
            bonus_acount_wager_remaining,
            max_amount_bonus_eligable,
            max_bet,
            account_balance_before_bet,
            account_balance_after_bet,
            bonus_account_balance_before_bet,
        },
    )
}

/// Parses a login response line: the session values sit in fields one to
/// four; fewer than five fields is a failed login.
pub fn parse_login_response(s: &str) -> (r: Result<LoginSession, BetError>)
    ensures
        r is Ok <==> ({
            let p = split_by(s.spec_bytes(), 58);
            p.len() >= 5 && valid_utf8(p[1]) && valid_utf8(p[2]) && valid_utf8(p[3]) && valid_utf8(
                p[4],
            )
        }),
        r matches Ok(l) ==> ({
            let p = split_by(s.spec_bytes(), 58);
            &&& encode_utf8(l.btc_address@) == p[1]
            &&& encode_utf8(l.password@) == p[2]
            &&& encode_utf8(l.user_id@) == p[3]
            &&& encode_utf8(l.session@) == p[4]
        }),
        r matches Err(e) ==> e is LoginFailed,
{
    let pieces = split_bytes(s.as_bytes(), 58);
    if pieces.len() < 5 {
        return Err(BetError::LoginFailed);
    }
    let btc_address = match bytes_to_string(pieces[1].as_slice()) {
        Some(v) => v,
        None => {
            return Err(BetError::LoginFailed);
        },
    };
    let password = match bytes_to_string(pieces[2].as_slice()) {
        Some(v) => v,
        None => {
            return Err(BetError::LoginFailed);
        },
    };
    let user_id = match bytes_to_string(pieces[3].as_slice()) {
        Some(v) => v,
        None => {
            return Err(BetError::LoginFailed);
        },
    };
    let session = match bytes_to_string(pieces[4].as_slice()) {
        Some(v) => v,
        None => {
            return Err(BetError::LoginFailed);
        },
    };
    Ok(LoginSession { btc_address, password, user_id, session })
}

impl BetSiteResult {
    /// The canonical form of this record: the neighbouring commitment
    /// digests and the previous roll's client seed are carried over, the
    /// next-roll nonce is kept when it fits in 32 bits and is otherwise
    /// 0, the symbol is the site's coin, and fields the site does not
    /// report stay 0.
    pub fn to_bet_result(&self) -> (b: BetResult)
        ensures
            b.hash_previous_roll@ == self.server_seed_hash_previous_roll@,
            b.hash_next_roll@ == self.server_seed_hash_next_roll@,
            b.client_seed@ == self.client_seed_previous_roll@,
            b.nonce == if self.nonce_next_roll <= u32::MAX {
                self.nonce_next_roll
            } else {
                0
            },
            b.symbol@ == "BTC"@,
            b.result == self.result,
            b.is_high == (self.rolled_number > MIDPOINT && self.result),
            b.number == self.rolled_number,
            b.threshold == 0,
            b.chance == 0,
            b.payout == 0,
            b.bet_amount == 0,
            b.win_amount == if self.amount_won <= i64::MAX {
                self.amount_won as i64
            } else {
                i64::MAX
            },
    {
        let nonce: u32 = if self.nonce_next_roll <= 0xFFFFFFFF {
            self.nonce_next_roll as u32
        } else {
            0
        };
        let win_amount: i64 = if self.amount_won <= 0x7FFFFFFFFFFFFFFF {
            self.amount_won as i64
        } else {
            i64::MAX
        };
        BetResult {
            hash_previous_roll: self.server_seed_hash_previous_roll.clone(),
            hash_next_roll: self.server_seed_hash_next_roll.clone(),
            client_seed: self.client_seed_previous_roll.clone(),
            nonce,
            symbol: btc_symbol(),
            result: self.result,
            is_high: self.rolled_number > MIDPOINT && self.result,
            number: self.rolled_number,
            threshold: 0,
            chance: 0,
            payout: 0,
            bet_amount: 0,
            win_amount,
        }
    }
}

/// The coin this site settles in.
fn btc_symbol() -> (r: String)
    ensures
        r@ == "BTC"@,
{
    "BTC".to_owned()
}

/// The chance this site implies from a prediction: 55% scaled down by the
/// prediction's distance from the midpoint, clamped to the site's band.
pub open spec fn fb_chance(prediction: u32) -> u32
    recommends
        prediction < 10000,
{
    let d = if prediction >= MIDPOINT {
        prediction - MIDPOINT
    } else {
        MIDPOINT - prediction
    };
    let raw = 5500 * (MIDPOINT - d) / MIDPOINT as int;
    if raw < FB_MIN_CHANCE_BP as int {
        FB_MIN_CHANCE_BP
    } else if raw > FB_MAX_CHANCE_BP as int {
        FB_MAX_CHANCE_BP
    } else {
        raw as u32
    }
}

/// The multiplier this site implies from a chance, clamped to its band.
pub open spec fn fb_multiplier(chance: u32) -> u64
    recommends
        chance >= 1,
{
    let raw = 1000000int / chance as int;
    if raw < FB_MIN_MULT_CENTI as int {
        FB_MIN_MULT_CENTI
    } else if raw > FB_MAX_MULT_CENTI as int {
        FB_MAX_MULT_CENTI
    } else {
        raw as u64
    }
}

/// Computes the site's chance for a prediction.
pub fn compute_fb_chance(prediction: u32) -> (r: u32)
    requires
        prediction < 10000,
    ensures
        r == fb_chance(prediction),
        FB_MIN_CHANCE_BP <= r <= FB_MAX_CHANCE_BP,
{
    let d: u32 = if prediction >= MIDPOINT {
        prediction - MIDPOINT
    } else {
        MIDPOINT - prediction
    };
    proof {
        assert(5500 * ((MIDPOINT - d) as int) <= 27500000) by (nonlinear_arith)
            requires
                d <= MIDPOINT,
                MIDPOINT == 5000,
        ;
        assert(5500 * ((MIDPOINT - d) as int) >= 0) by (nonlinear_arith)
            requires
                d <= MIDPOINT,
        ;
    }
    let raw: u32 = (5500u64 * ((MIDPOINT - d) as u64) / (MIDPOINT as u64)) as u32;
    if raw < FB_MIN_CHANCE_BP {
        FB_MIN_CHANCE_BP
    } else if raw > FB_MAX_CHANCE_BP {
        FB_MAX_CHANCE_BP
    } else {
        raw
    }
}

/// Computes the site's multiplier for a chance.
pub fn compute_fb_multiplier(chance: u32) -> (r: u64)
    requires
        chance >= 1,
    ensures
        r == fb_multiplier(chance),
{
    let raw: u64 = 1000000 / (chance as u64);
    if raw < FB_MIN_MULT_CENTI {
        FB_MIN_MULT_CENTI
    } else if raw > FB_MAX_MULT_CENTI {
        FB_MAX_MULT_CENTI
    } else {
        raw
    }
}

/// One freebitco.in session: sizing state, cumulative metrics, the
/// rolling history, and the switches for simulated betting and for
/// trusting the site's balance.
pub struct FreeBitcoIn<S: Strategy> {
    pub rolls: u64,
    pub client_seed: String,
    pub current_bet: u64,
    pub multiplier: u64,
    pub user_stats: UserStats,
    pub profit: i64,
    pub prediction: u32,
    pub strategy: S,
    pub history: HistoryWindow,
    pub use_site_balance: bool,
    pub use_fake_betting: bool,
    pub wins: u64,
    pub loses: u64,
}

impl<S: Strategy> FreeBitcoIn<S> {
    /// The adapter's rolling history stays inside its capacity.
    pub open spec fn wf(&self) -> bool {
        self.history.wf()
    }

    /// A fresh session over the given strategy: the default client seed,
    /// a bankroll of the site's default statistics, and a neutral sizing
    /// of 2 atomic units at 2x.
    pub fn new(strategy: S, history_size: usize, use_site_balance: bool, use_fake_betting: bool) -> (r:
        Self)
        requires
            history_size >= 1,
        ensures
            r.wf(),
            r.rolls == 0,
            r.current_bet == 2,
            r.multiplier == 200,
            r.user_stats.balance == 400,
            r.profit == 0,
            r.history@ =~= Seq::<BetResult>::empty(),
            r.history.spec_capacity() == history_size,
            r.strategy == strategy,
            r.use_site_balance == use_site_balance,
            r.use_fake_betting == use_fake_betting,
    {
        FreeBitcoIn {
            rolls: 0,
            client_seed: crate::sites::crypto_games::default_client_seed(),
            current_bet: 2,
            multiplier: 200,
            user_stats: UserStats::default(),
            profit: 0,
            prediction: 0,
            strategy,
            history: HistoryWindow::new(history_size),
            use_site_balance: use_site_balance,
            use_fake_betting: use_fake_betting,
            wins: 0,
            loses: 0,
        }
    }

    /// Records the balance the site reported at login, on the session
    /// and, when the session trusts the site's balance, on the strategy.
    pub fn apply_login_balance(&mut self, balance: u64)
        ensures
            final(self).user_stats.balance == balance,
            old(self).use_site_balance ==> final(self).strategy.balance() == balance,
            !old(self).use_site_balance ==> final(self).strategy == old(self).strategy,
            final(self).history == old(self).history,
            final(self).wf() == old(self).wf(),
    {
        self.user_stats.balance = balance;
        if self.use_site_balance {
            self.strategy.set_balance(balance);
        }
    }

    /// Sizes the next bet: the strategy's clamped stake, the chance the
    /// site implies from the prediction with its multiplier, and
    /// conservative defaults while the window is still warming up.
    pub fn prepare_bet(&mut self, prediction: u32, confidence: u32) -> (req: BetDecision)
        requires
            old(self).wf(),
            prediction < 10000,
            confidence <= 100,
            old(self).rolls < u64::MAX,
        ensures
            final(self).wf(),
            final(self).rolls == old(self).rolls + 1,
            final(self).history == old(self).history,
            final(self).strategy == old(self).strategy,
            final(self).user_stats == old(self).user_stats,
            final(self).profit == old(self).profit,
            req.is_high == (prediction > MIDPOINT),
            req.chance == fb_chance(prediction),
            req.stake == final(self).current_bet,
            req.multiplier == final(self).multiplier,
            old(self).history@.len() < old(self).history.spec_capacity() ==> {
                &&& final(self).current_bet == 1
                &&& final(self).multiplier == 200
            },
            old(self).history@.len() >= old(self).history.spec_capacity() ==> {
                &&& final(self).current_bet == clamped_stake(
                    old(self).strategy.raw_stake(),
                    old(self).strategy.min_bet(),
                    old(self).strategy.balance(),
                )
                &&& final(self).multiplier == fb_multiplier(fb_chance(prediction))
            },
    {
        self.rolls = self.rolls + 1;
        let decision = self.strategy.get_next_bet(prediction, confidence);
        self.current_bet = decision.stake;

        let chance = compute_fb_chance(prediction);
        self.multiplier = compute_fb_multiplier(chance);

        if self.history.len() < self.history.capacity() {
            self.current_bet = 1;
            self.multiplier = 200;
        }

        BetDecision {
            stake: self.current_bet,
            multiplier: self.multiplier,
            chance,
            is_high: decision.is_high,
        }
    }

    /// Appends a settled bet to the rolling history, evicting the oldest
    /// entry when full. A stake above the session's balance is the
    /// fatal-but-graceful condition: the bet is still recorded and
    /// `InsufficientBalance` is returned so the loop can halt instead of
    /// crashing.
    pub fn record_result(&mut self, b: &BetResult) -> (r: Result<(), BetError>)
        requires
            old(self).wf(),
        ensures
            final(self).wf(),
            final(self).history@ == pushed(
                old(self).history@,
                *b,
                old(self).history.spec_capacity(),
            ),
            final(self).strategy == old(self).strategy,
            r is Ok <==> old(self).current_bet <= old(self).user_stats.balance,
            r matches Err(e) ==> e is InsufficientBalance,
    {
        self.history.push(b.clone());
        if self.current_bet > self.user_stats.balance {
            return Err(BetError::InsufficientBalance);
        }
        Ok(())
    }

    /// Books a won bet: session balance and profit grow by the won
    /// amount, and the strategy hears of the win.
    pub fn on_win(&mut self, bet_result: &BetResult)
        ensures
            (final(self).user_stats == UserStats {
                balance: balance_shifted(
                    old(self).user_stats.balance,
                    bet_result.win_amount as int,
                ),
                ..old(self).user_stats
            }),
            final(self).profit == profit_shifted(old(self).profit, bet_result.win_amount as int),
            final(self).strategy.balance() == balance_shifted(
                old(self).strategy.balance(),
                bet_result.win_amount as int,
            ),
            final(self).strategy.profit() == profit_shifted(
                old(self).strategy.profit(),
                bet_result.win_amount as int,
            ),
            final(self).strategy.min_bet() == old(self).strategy.min_bet(),
            final(self).history == old(self).history,
            final(self).rolls == old(self).rolls,
            final(self).current_bet == old(self).current_bet,
            final(self).multiplier == old(self).multiplier,
            final(self).client_seed == old(self).client_seed,
            final(self).prediction == old(self).prediction,
            final(self).wins == old(self).wins,
            final(self).loses == old(self).loses,
            final(self).use_site_balance == old(self).use_site_balance,
            final(self).use_fake_betting == old(self).use_fake_betting,
    {
        self.user_stats.balance = crate::strategies::shift_balance(
            self.user_stats.balance,
            bet_result.win_amount,
        );
        self.profit = crate::strategies::shift_profit(self.profit, bet_result.win_amount);
        self.strategy.on_win(bet_result);
    }

    /// Books a lost bet: session balance and profit shrink by the
    /// reported amount — this site reports the lost stake as a positive
    /// amount — and the strategy hears of the loss.
    pub fn on_lose(&mut self, bet_result: &BetResult)
        ensures
            (final(self).user_stats == UserStats {
                balance: balance_shifted(
                    old(self).user_stats.balance,
                    -(bet_result.win_amount as int),
                ),
                ..old(self).user_stats
            }),
            final(self).profit == profit_shifted(
                old(self).profit,
                -(bet_result.win_amount as int),
            ),
            final(self).strategy.balance() == balance_shifted(
                old(self).strategy.balance(),
                -(bet_result.win_amount as int),
            ),
            final(self).strategy.profit() == profit_shifted(
                old(self).strategy.profit(),
                -(bet_result.win_amount as int),
            ),
            final(self).strategy.min_bet() == old(self).strategy.min_bet(),
            final(self).history == old(self).history,
            final(self).rolls == old(self).rolls,
            final(self).current_bet == old(self).current_bet,
            final(self).multiplier == old(self).multiplier,
            final(self).client_seed == old(self).client_seed,
            final(self).prediction == old(self).prediction,
            final(self).wins == old(self).wins,
            final(self).loses == old(self).loses,
            final(self).use_site_balance == old(self).use_site_balance,
            final(self).use_fake_betting == old(self).use_fake_betting,
    {
        self.user_stats.balance = crate::strategies::shift_balance_minus(
            self.user_stats.balance,
            bet_result.win_amount,
        );
        self.profit = crate::strategies::shift_profit_minus(self.profit, bet_result.win_amount);
        self.strategy.on_lose(bet_result);
    }

    /// A copy of the rolling history, oldest entry first.
    pub fn get_history(&self) -> (r: Vec<BetResult>)
        ensures
            r@ == self.history@,
    {
        self.history.to_vec()
    }

    pub fn get_rolls(&self) -> (r: u64)
        ensures
            r == self.rolls,
    {
        self.rolls
    }

    pub fn get_current_bet(&self) -> (r: u64)
        ensures
            r == self.current_bet,
    {
        self.current_bet
    }

    pub fn get_current_multiplier(&self) -> (r: u64)
        ensures
            r == self.multiplier,
    {
        self.multiplier
    }

    pub fn get_history_size(&self) -> (r: usize)
        ensures
            r == self.history.spec_capacity(),
    {
        self.history.capacity()
    }

    pub fn get_profit(&self) -> (r: i64)
        ensures
            r == self.profit,
    {
        self.profit
    }

    pub fn get_balance(&self) -> (r: u64)
        ensures
            r == self.user_stats.balance,
    {
        self.user_stats.balance
    }
}

} // verus!
