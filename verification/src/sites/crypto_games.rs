//! The crypto.games adapter: currencies with their minimum bets, the
//! site's wire records, and one bet lifecycle over plain values.
//!
//! The site speaks JSON over an API key embedded in the URL path; both
//! live outside the library. Everything that decides — sizing, clamping,
//! normalisation, history and bankroll bookkeeping — is here and verified.

use vstd::prelude::*;

use crate::history::{pushed, HistoryWindow};
use crate::sites::{
    clamp64, clamp_u64, max64, max_u64, negate_sat, neg_sat, BetError, BetResult,
};
use crate::strategies::{
    balance_shifted, chance_from_confidence, clamped_stake, multiplier_from_chance,
    profit_shifted, Strategy, MIDPOINT,
};

verus! {

/// Lowest allowed payout multiplier on this site, in hundredths (1.02x).
pub const CG_MIN_MULT_CENTI: u64 = 102;

/// Highest allowed payout multiplier on this site, in hundredths (99.00x
/// of one hundred, i.e. 9900x).
pub const CG_MAX_MULT_CENTI: u64 = 990000;

/// The multiplier used while the history window is still warming up.
pub const NEUTRAL_MULT_CENTI: u64 = 200;

/// The currencies the site offers.
#[derive(Clone, Copy, Debug, PartialEq, Eq, Structural)]
pub enum Currency {
    BTC,
    ETH,
    USDT,
    SOL,
    XRP,
    BNB,
    USDC,
    DOGE,
    SHIB,
    LTC,
    BCH,
    PEPE,
    ETC,
    POL,
    GAS,
    PLAY,
}

impl Currency {
    /// The site's minimum bet for this currency, in atomic units of 1e-8.
    pub open spec fn spec_min_bet(&self) -> u64 {
        match self {
            Currency::BTC => 2,
            Currency::ETH => 60,
            Currency::USDT => 200000,
            Currency::XRP => 400000,
            Currency::BNB => 400,
            Currency::SOL => 2000,
            Currency::USDC => 200000,
            Currency::DOGE => 4000000,
            Currency::SHIB => 20000000000,
            Currency::LTC => 2000,
            Currency::BCH => 400,
            Currency::PEPE => 60000000000,
            Currency::ETC => 6000,
            Currency::POL => 1000000,
            Currency::GAS => 40000,
            Currency::PLAY => 2000000000,
        }
    }

    /// Returns the minimum bet for this currency, in atomic units.
    pub fn get_min_bet(&self) -> (r: u64)
        ensures
            r == self.spec_min_bet(),
    {
        match self {
            Currency::BTC => 2,
            Currency::ETH => 60,
            Currency::USDT => 200000,
            Currency::XRP => 400000,
            Currency::BNB => 400,
            Currency::SOL => 2000,
            Currency::USDC => 200000,
            Currency::DOGE => 4000000,
            Currency::SHIB => 20000000000,
            Currency::LTC => 2000,
            Currency::BCH => 400,
            Currency::PEPE => 60000000000,
            Currency::ETC => 6000,
            Currency::POL => 1000000,
            Currency::GAS => 40000,
            Currency::PLAY => 2000000000,
        }
    }

    /// Whether `s` is this currency's ticker symbol.
    pub open spec fn spec_symbol(&self, s: Seq<char>) -> bool {
        match self {
            Currency::BTC => s == "BTC"@,
            Currency::ETH => s == "ETH"@,
            Currency::USDT => s == "USDT"@,
            Currency::SOL => s == "SOL"@,
            Currency::XRP => s == "XRP"@,
            Currency::BNB => s == "BNB"@,
            Currency::USDC => s == "USDC"@,
            Currency::DOGE => s == "DOGE"@,
            Currency::SHIB => s == "SHIB"@,
            Currency::LTC => s == "LTC"@,
            Currency::BCH => s == "BCH"@,
            Currency::PEPE => s == "PEPE"@,
            Currency::ETC => s == "ETC"@,
            Currency::POL => s == "POL"@,
            Currency::GAS => s == "GAS"@,
            Currency::PLAY => s == "PLAY"@,
        }
    }

    /// The currency's ticker symbol.
    pub fn symbol(&self) -> (r: &'static str)
        ensures
            self.spec_symbol(r@),
    {
        match self {
            Currency::BTC => "BTC",
            Currency::ETH => "ETH",
            Currency::USDT => "USDT",
            Currency::SOL => "SOL",
            Currency::XRP => "XRP",
            Currency::BNB => "BNB",
            Currency::USDC => "USDC",
            Currency::DOGE => "DOGE",
            Currency::SHIB => "SHIB",
            Currency::LTC => "LTC",
            Currency::BCH => "BCH",
            Currency::PEPE => "PEPE",
            Currency::ETC => "ETC",
            Currency::POL => "POL",
            Currency::GAS => "GAS",
            Currency::PLAY => "PLAY",
        }
    }
}

/// One coin's listing: amounts in atomic units, payout bounds and edge in
/// hundredths.
#[derive(Debug)]
pub struct Coin {
    pub coin: String,
    pub min_bet: u64,
    pub max_win: u64,
    pub min_payout: u64,
    pub max_payout: u64,
    pub edge: u64,
}

/// One bet placement request: bet in atomic units, payout multiplier in
/// hundredths.
#[derive(Debug)]
pub struct Bet {
    pub bet: u64,
    pub payout: u64,
    pub under_over: bool,
    pub client_seed: String,
}

/// One settled bet as the site reports it: the roll scaled into
/// `[0, 10000)`, profit signed in atomic units, payout in hundredths.
#[derive(Debug)]
pub struct BetSiteResult {
    pub bet_id: u64,
    pub roll: u32,
    pub target: String,
    pub profit: i64,
    pub payout: u64,
    pub server_seed: String,
    pub next_server_seed_hash: String,
    pub balance: u64,
}

impl Clone for BetSiteResult {
    /// A clone carries exactly the fields of the original.
    fn clone(&self) -> (r: Self)
        ensures
            r == *self,
    {
        BetSiteResult {
            bet_id: self.bet_id,
            roll: self.roll,
            target: self.target.clone(),
            profit: self.profit,
            payout: self.payout,
            server_seed: self.server_seed.clone(),
            next_server_seed_hash: self.next_server_seed_hash.clone(),
            balance: self.balance,
        }
    }
}

/// The user's balance on the site, in atomic units.
#[derive(Clone, Copy, Debug)]
pub struct UserStats {
    pub balance: u64,
}

impl Default for UserStats {
    /// A fresh account view starts with no balance.
    fn default() -> (r: Self)
        ensures
            r.balance == 0,
    {
        UserStats { balance: 0 }
    }
}

/// One authenticated crypto.games session: sizing state, cumulative
/// metrics, and the rolling history of settled bets.
pub struct CryptoGames<S: Strategy> {
    pub rolls: u64,
    pub client_seed: String,
    pub current_bet: u64,
    pub multiplier: u64,
    pub user_stats: UserStats,
    pub profit: i64,
    pub prediction: u32,
    pub strategy: S,
    pub history: HistoryWindow,
    pub currency: Currency,
}

impl<S: Strategy> CryptoGames<S> {
    /// The adapter's rolling history stays inside its capacity.
    pub open spec fn wf(&self) -> bool {
        self.history.wf()
    }

    /// A fresh session over the given strategy and currency, with the
    /// given history capacity; sizing starts at the currency minimum and
    /// a neutral multiplier.
    pub fn new(strategy: S, currency: Currency, history_size: usize) -> (r: Self)
        requires
            history_size >= 1,
        ensures
            r.wf(),
            r.rolls == 0,
            r.current_bet == currency.spec_min_bet(),
            r.multiplier == NEUTRAL_MULT_CENTI,
            r.user_stats.balance == 0,
            r.profit == 0,
            r.history@ =~= Seq::<BetResult>::empty(),
            r.history.spec_capacity() == history_size,
            r.strategy == strategy,
            r.currency == currency,
    {
        let current_bet = currency.get_min_bet();
        CryptoGames {
            rolls: 0,
            client_seed: default_client_seed(),
            current_bet,
            multiplier: NEUTRAL_MULT_CENTI,
            user_stats: UserStats { balance: 0 },
            profit: 0,
            prediction: 0,
            strategy,
            history: HistoryWindow::new(history_size),
            currency,
        }
    }

    /// Records the balance the site reported at login, on the session and
    /// on the strategy.
    pub fn apply_login_balance(&mut self, balance: u64)
        ensures
            final(self).user_stats.balance == balance,
            final(self).strategy.balance() == balance,
            final(self).strategy.min_bet() == old(self).strategy.min_bet(),
            final(self).strategy.raw_stake() == old(self).strategy.raw_stake(),
            final(self).history == old(self).history,
            final(self).current_bet == old(self).current_bet,
            final(self).wf() == old(self).wf(),
    {
        self.user_stats.balance = balance;
        self.strategy.set_balance(balance);
    }

    /// Sizes the next bet: the strategy's clamped stake and implied
    /// multiplier, overridden by conservative defaults while the window is
    /// still warming up, then clamped to the site's legal bounds with the
    /// stake held at or above the currency minimum.
    pub fn prepare_bet(&mut self, prediction: u32, confidence: u32) -> (req: Bet)
        requires
            old(self).wf(),
            prediction < 10000,
            confidence <= 100,
            old(self).rolls < u64::MAX,
        ensures
            final(self).wf(),
            final(self).rolls == old(self).rolls + 1,
            final(self).history == old(self).history,
            final(self).strategy == old(self).strategy,
            final(self).user_stats == old(self).user_stats,
            final(self).profit == old(self).profit,
            final(self).currency == old(self).currency,
            req.under_over == (prediction > MIDPOINT),
            req.client_seed@ == old(self).client_seed@,
            req.bet == final(self).current_bet,
            req.payout == final(self).multiplier,
            old(self).history@.len() < old(self).history.spec_capacity() ==> {
                &&& final(self).current_bet == old(self).currency.spec_min_bet()
                &&& final(self).multiplier == NEUTRAL_MULT_CENTI
            },
            old(self).history@.len() >= old(self).history.spec_capacity() ==> {
                &&& final(self).current_bet == max_u64(
                    clamped_stake(
                        old(self).strategy.raw_stake(),
                        old(self).strategy.min_bet(),
                        old(self).strategy.balance(),
                    ),
                    old(self).currency.spec_min_bet(),
                )
                &&& final(self).multiplier == clamp_u64(
                    multiplier_from_chance(chance_from_confidence(confidence)),
                    CG_MIN_MULT_CENTI,
                    CG_MAX_MULT_CENTI,
                )
            },
    {
        self.rolls = self.rolls + 1;
        let decision = self.strategy.get_next_bet(prediction, confidence);
        self.current_bet = decision.stake;
        self.multiplier = decision.multiplier;

        if self.history.len() < self.history.capacity() {
            self.current_bet = self.currency.get_min_bet();
            self.multiplier = NEUTRAL_MULT_CENTI;
        }

        self.multiplier = clamp64(self.multiplier, CG_MIN_MULT_CENTI, CG_MAX_MULT_CENTI);
        self.current_bet = max64(self.current_bet, self.currency.get_min_bet());

        Bet {
            bet: self.current_bet,
            payout: self.multiplier,
            under_over: decision.is_high,
            client_seed: self.client_seed.clone(),
        }
    }

    /// Normalises one site response into the canonical record: the
    /// revealed previous server seed and the next commitment hash are
    /// carried over, the outcome is a win exactly when the profit is
    /// positive, and high means a roll above the midpoint on a win.
    pub fn adapt_response(&self, res: &BetSiteResult) -> (b: BetResult)
        requires
            res.roll < 10000,
        ensures
            b.hash_previous_roll@ == res.server_seed@,
            self.currency.spec_symbol(b.symbol@),
            b.number < 10000,
            b.hash_next_roll@ == res.next_server_seed_hash@,
            b.client_seed@ == self.client_seed@,
            b.nonce == 0,
            b.result == (res.profit > 0),
            b.is_high == (res.roll > MIDPOINT && res.profit > 0),
            b.number == res.roll,
            b.threshold == 0,
            b.chance == 0,
            b.payout == res.payout,
            b.bet_amount == 0,
            b.win_amount == res.profit,
    {
        BetResult {
            hash_previous_roll: res.server_seed.clone(),
            hash_next_roll: res.next_server_seed_hash.clone(),
            client_seed: self.client_seed.clone(),
            nonce: 0,
            symbol: self.currency.symbol().to_owned(),
            result: res.profit > 0,
            is_high: res.roll > MIDPOINT && res.profit > 0,
            number: res.roll,
            threshold: 0,
            chance: 0,
            payout: res.payout,
            bet_amount: 0,
            win_amount: res.profit,
        }
    }

    /// Appends a settled bet to the rolling history, evicting the oldest
    /// entry when full. A stake above the strategy's bankroll is the
    /// fatal-but-graceful condition: the bet is still recorded and
    /// `InsufficientBalance` is returned so the loop can halt instead of
    /// crashing.
    pub fn record_result(&mut self, b: &BetResult) -> (r: Result<(), BetError>)
        requires
            old(self).wf(),
        ensures
            final(self).wf(),
            final(self).history@ == pushed(
                old(self).history@,
                *b,
                old(self).history.spec_capacity(),
            ),
            final(self).strategy == old(self).strategy,
            r is Ok <==> old(self).current_bet <= old(self).strategy.balance(),
            r matches Err(e) ==> e is InsufficientBalance,
    {
        self.history.push(b.clone());
        if self.current_bet > self.strategy.get_balance() {
            return Err(BetError::InsufficientBalance);
        }
        Ok(())
    }

    /// Books a won bet: session balance and profit grow by the won
    /// amount, and the strategy is told once the window is warm.
    pub fn on_win(&mut self, bet_result: &BetResult)
        ensures
            final(self).user_stats.balance == balance_shifted(
                old(self).user_stats.balance,
                bet_result.win_amount as int,
            ),
            final(self).profit == profit_shifted(old(self).profit, bet_result.win_amount as int),
            final(self).history == old(self).history,
            final(self).rolls == old(self).rolls,
            final(self).current_bet == old(self).current_bet,
            final(self).multiplier == old(self).multiplier,
            final(self).client_seed == old(self).client_seed,
            final(self).prediction == old(self).prediction,
            final(self).currency == old(self).currency,
            old(self).history@.len() >= old(self).history.spec_capacity() ==> {
                &&& final(self).strategy.balance() == balance_shifted(
                    old(self).strategy.balance(),
                    bet_result.win_amount as int,
                )
                &&& final(self).strategy.profit() == profit_shifted(
                    old(self).strategy.profit(),
                    bet_result.win_amount as int,
                )
                &&& final(self).strategy.min_bet() == old(self).strategy.min_bet()
            },
            old(self).history@.len() < old(self).history.spec_capacity() ==> final(self).strategy
                == old(self).strategy,
    {
        self.user_stats.balance = crate::strategies::shift_balance(
            self.user_stats.balance,
            bet_result.win_amount,
        );
        self.profit = crate::strategies::shift_profit(self.profit, bet_result.win_amount);
        if self.history.len() >= self.history.capacity() {
            self.strategy.on_win(bet_result);
        }
    }

    /// Books a lost bet: the reported amount is negated first, as the
    /// site reports a loss as negative profit, so balance and profit
    /// shrink by its magnitude; the strategy is told once the window is
    /// warm.
    pub fn on_lose(&mut self, bet_result: &BetResult)
        ensures
            final(self).user_stats.balance == balance_shifted(
                old(self).user_stats.balance,
                -(neg_sat(bet_result.win_amount) as int),
            ),
            final(self).profit == profit_shifted(
                old(self).profit,
                -(neg_sat(bet_result.win_amount) as int),
            ),
            final(self).history == old(self).history,
            final(self).rolls == old(self).rolls,
            final(self).current_bet == old(self).current_bet,
            final(self).multiplier == old(self).multiplier,
            final(self).client_seed == old(self).client_seed,
            final(self).prediction == old(self).prediction,
            final(self).currency == old(self).currency,
            old(self).history@.len() >= old(self).history.spec_capacity() ==> {
                &&& final(self).strategy.balance() == balance_shifted(
                    old(self).strategy.balance(),
                    -(neg_sat(bet_result.win_amount) as int),
                )
                &&& final(self).strategy.profit() == profit_shifted(
                    old(self).strategy.profit(),
                    -(neg_sat(bet_result.win_amount) as int),
                )
                &&& final(self).strategy.min_bet() == old(self).strategy.min_bet()
            },
            old(self).history@.len() < old(self).history.spec_capacity() ==> final(self).strategy
                == old(self).strategy,
    {
        let mut negated = bet_result.clone();
        negated.win_amount = negate_sat(bet_result.win_amount);
        self.user_stats.balance = crate::strategies::shift_balance_minus(
            self.user_stats.balance,
            negated.win_amount,
        );
        self.profit = crate::strategies::shift_profit_minus(self.profit, negated.win_amount);
        if self.history.len() >= self.history.capacity() {
            self.strategy.on_lose(&negated);
        }
    }

    /// A copy of the rolling history, oldest entry first.
    pub fn get_history(&self) -> (r: Vec<BetResult>)
        ensures
            r@ == self.history@,
    {
        self.history.to_vec()
    }

    pub fn get_rolls(&self) -> (r: u64)
        ensures
            r == self.rolls,
    {
        self.rolls
    }

    pub fn get_current_bet(&self) -> (r: u64)
        ensures
            r == self.current_bet,
    {
        self.current_bet
    }

    pub fn get_current_multiplier(&self) -> (r: u64)
        ensures
            r == self.multiplier,
    {
        self.multiplier
    }

    pub fn get_history_size(&self) -> (r: usize)
        ensures
            r == self.history.spec_capacity(),
    {
        self.history.capacity()
    }

    pub fn get_profit(&self) -> (r: i64)
        ensures
            r == self.profit,
    {
        self.profit
    }

    pub fn get_balance(&self) -> (r: u64)
        ensures
            r == self.user_stats.balance,
    {
        self.user_stats.balance
    }
}

/// The client seed the sessions start with.
pub fn default_client_seed() -> (r: String)
    ensures
        r@ == "BeO2jZRd4nidPz4U40e2G7hT22s9GA"@,
{
    "BeO2jZRd4nidPz4U40e2G7hT22s9GA".to_owned()
}

} // verus!
