//! Betting strategies for managing risk and bet sizing.
//!
//! A strategy maps a `(prediction, confidence)` pair and win/loss feedback
//! to a sizing decision. Every policy must size bets inside the bankroll:
//! the stake handed out is clamped to
//! `max(min_bet, min(stake, bankroll))`, so whenever the bankroll covers
//! the minimum bet the stake never exceeds the bankroll and never falls
//! below the configured minimum.

use vstd::prelude::*;

use crate::sites::BetResult;

verus! {

/// Lowest allowed chance, in hundredths of a percent (0.01%).
pub const MIN_CHANCE_BP: u32 = 1;

/// Highest allowed chance, in hundredths of a percent (50%).
pub const MAX_CHANCE_BP: u32 = 5000;

/// Lowest allowed payout multiplier, in hundredths (1.01x).
pub const MIN_MULT_CENTI: u64 = 101;

/// Highest allowed payout multiplier, in hundredths (10000x).
pub const MAX_MULT_CENTI: u64 = 1000000;

/// Midpoint of the roll range: the high/low split.
pub const MIDPOINT: u32 = 5000;

/// One sizing decision: stake in atomic units, payout multiplier in
/// hundredths, chance in hundredths of a percent, and the bet direction.
#[derive(Clone, Copy, Debug, PartialEq, Eq, Structural)]
pub struct BetDecision {
    pub stake: u64,
    pub multiplier: u64,
    pub chance: u32,
    pub is_high: bool,
}

/// The chance for a confidence in `[0, 100]`: a monotonic map onto
/// `[MIN_CHANCE_BP, MAX_CHANCE_BP]`, higher confidence giving a higher
/// (more favorable) chance.
pub open spec fn chance_from_confidence(confidence: u32) -> u32 {
    (MIN_CHANCE_BP + ((MAX_CHANCE_BP - MIN_CHANCE_BP) * confidence) / 100) as u32
}

/// The chance mapping is monotonic and lands inside its bounds.
pub proof fn lemma_chance_monotonic(c1: u32, c2: u32)
    requires
        c1 <= c2 <= 100,
    ensures
        chance_from_confidence(c1) <= chance_from_confidence(c2),
        MIN_CHANCE_BP <= chance_from_confidence(c1),
        chance_from_confidence(c2) <= MAX_CHANCE_BP,
{
    assert((4999 * c1) / 100 <= (4999 * c2) / 100) by (nonlinear_arith)
        requires c1 <= c2,
    ;
    assert((4999 * c2) / 100 <= 4999) by (nonlinear_arith)
        requires c2 <= 100,
    ;
}

/// The site-legal multiplier for a chance: `1 / (chance / 100)`, carried
/// in hundredths and clamped to the legal band.
pub open spec fn multiplier_from_chance(chance: u32) -> u64
    recommends
        chance >= 1,
{
    let raw = 1000000 as int / chance as int;
    if raw < MIN_MULT_CENTI as int {
        MIN_MULT_CENTI
    } else if raw > MAX_MULT_CENTI as int {
        MAX_MULT_CENTI
    } else {
        raw as u64
    }
}

/// A stake clamped into the bankroll: `max(min_bet, min(stake, balance))`.
pub open spec fn clamped_stake(stake: u64, min_bet: u64, balance: u64) -> u64 {
    if stake > balance {
        if balance > min_bet {
            balance
        } else {
            min_bet
        }
    } else {
        if stake > min_bet {
            stake
        } else {
            min_bet
        }
    }
}

/// Bankroll safety law: whenever the bankroll covers the configured
/// minimum bet, a clamped stake never exceeds the bankroll and never
/// falls below that minimum.
pub proof fn lemma_bankroll_safety(stake: u64, min_bet: u64, balance: u64)
    requires
        balance >= min_bet,
    ensures
        clamped_stake(stake, min_bet, balance) <= balance,
        clamped_stake(stake, min_bet, balance) >= min_bet,
{
}

/// The bankroll after adding a signed amount, clamped to the type's range.
pub open spec fn balance_shifted(balance: u64, delta: int) -> u64 {
    let v = balance + delta;
    if v < 0 {
        0u64
    } else if v > u64::MAX {
        u64::MAX
    } else {
        v as u64
    }
}

/// A signed total after adding a signed amount, clamped to the type's
/// range.
pub open spec fn profit_shifted(profit: i64, delta: int) -> i64 {
    let v = profit + delta;
    if v < i64::MIN {
        i64::MIN
    } else if v > i64::MAX {
        i64::MAX
    } else {
        v as i64
    }
}

/// Adds a signed amount to a bankroll, clamping at the type's range.
pub fn shift_balance(balance: u64, delta: i64) -> (r: u64)
    ensures
        r == balance_shifted(balance, delta as int),
{
    if delta >= 0 {
        let d = delta as u64;
        if balance > u64::MAX - d {
            u64::MAX
        } else {
            balance + d
        }
    } else {
        let mag: u64 = if delta == i64::MIN {
            9223372036854775808u64
        } else {
            (-delta) as u64
        };
        if balance < mag {
            0
        } else {
            balance - mag
        }
    }
}

/// Adds a signed amount to a signed total, clamping at the type's range.
pub fn shift_profit(profit: i64, delta: i64) -> (r: i64)
    ensures
        r == profit_shifted(profit, delta as int),
{
    if delta >= 0 {
        if profit > 0 && delta > i64::MAX - profit {
            i64::MAX
        } else {
            profit + delta
        }
    } else {
        if profit < 0 && delta < i64::MIN - profit {
            i64::MIN
        } else {
            profit + delta
        }
    }
}

/// Subtracts a signed amount from a bankroll, clamping at the type's
/// range.
pub fn shift_balance_minus(balance: u64, delta: i64) -> (r: u64)
    ensures
        r == balance_shifted(balance, -(delta as int)),
{
    if delta == i64::MIN {
        let c: u64 = 9223372036854775808u64;
        if balance > u64::MAX - c {
            u64::MAX
        } else {
            balance + c
        }
    } else {
        shift_balance(balance, -delta)
    }
}

/// Subtracts a signed amount from a signed total, clamping at the type's
/// range.
pub fn shift_profit_minus(profit: i64, delta: i64) -> (r: i64)
    ensures
        r == profit_shifted(profit, -(delta as int)),
{
    if delta == i64::MIN {
        if profit >= 0 {
            i64::MAX
        } else {
            (profit + i64::MAX) + 1
        }
    } else {
        shift_profit(profit, -delta)
    }
}

/// A site-agnostic risk policy: sizing from prediction and confidence,
/// bookkeeping from win/loss feedback. The contracts here bind every
/// implementation: the direction follows the midpoint split, chance and
/// multiplier stay inside their bands, and the stake is clamped into the
/// bankroll.
pub trait Strategy: Sized {
    /// The bankroll the policy sizes against, in atomic units.
    spec fn balance(&self) -> u64;

    /// The running profit in atomic units.
    spec fn profit(&self) -> i64;

    /// The configured currency minimum bet.
    spec fn min_bet(&self) -> u64;

    /// The stake the policy would request next, before clamping.
    spec fn raw_stake(&self) -> u64;

    fn set_balance(&mut self, balance: u64)
        ensures
            final(self).balance() == balance,
            final(self).min_bet() == old(self).min_bet(),
            final(self).profit() == old(self).profit(),
            final(self).raw_stake() == old(self).raw_stake(),
    ;

    /// Returns the sizing decision for this iteration: direction from the
    /// midpoint split, chance from the confidence map, the multiplier
    /// implied by that chance, and the policy's stake clamped into the
    /// bankroll.
    fn get_next_bet(&mut self, prediction: u32, confidence: u32) -> (r: BetDecision)
        requires
            prediction < 10000,
            confidence <= 100,
        ensures
            *final(self) == *old(self),
            r.is_high == (prediction > MIDPOINT),
            r.chance == chance_from_confidence(confidence),
            r.multiplier == multiplier_from_chance(r.chance),
            r.stake == clamped_stake(old(self).raw_stake(), old(self).min_bet(), old(self).balance()),
    ;

    /// Settles a won bet: the bankroll grows by the won amount and the
    /// policy may reset its progression.
    fn on_win(&mut self, bet_result: &BetResult)
        ensures
            final(self).balance() == balance_shifted(
                old(self).balance(),
                bet_result.win_amount as int,
            ),
            final(self).profit() == profit_shifted(old(self).profit(), bet_result.win_amount as int),
            final(self).min_bet() == old(self).min_bet(),
    ;

    /// Settles a lost bet: the bankroll shrinks by the reported amount and
    /// the policy may advance its progression.
    fn on_lose(&mut self, bet_result: &BetResult)
        ensures
            final(self).balance() == balance_shifted(
                old(self).balance(),
                -(bet_result.win_amount as int),
            ),
            final(self).profit() == profit_shifted(
                old(self).profit(),
                -(bet_result.win_amount as int),
            ),
            final(self).min_bet() == old(self).min_bet(),
    ;

    fn get_balance(&self) -> (r: u64)
        ensures
            r == self.balance(),
    ;

    fn get_profit(&self) -> (r: i64)
        ensures
            r == self.profit(),
    ;

    /// Returns the policy's progression to its base state; bankroll and
    /// bookkeeping are kept.
    fn reset(&mut self)
        ensures
            final(self).balance() == old(self).balance(),
            final(self).profit() == old(self).profit(),
            final(self).min_bet() == old(self).min_bet(),
    ;
}

/// The martingale policy: the stake doubles after every loss and returns
/// to the base stake after a win.
pub struct Martingale {
    pub balance: u64,
    pub min_bet: u64,
    pub base_bet: u64,
    pub current_bet: u64,
    pub streak: i64,
    pub profit: i64,
}

impl Martingale {
    /// A martingale sized from a starting bankroll, minimum bet and base
    /// stake.
    pub fn new(balance: u64, min_bet: u64, base_bet: u64) -> (r: Self)
        ensures
            r.balance() == balance,
            r.min_bet() == min_bet,
            r.raw_stake() == base_bet,
            r.profit() == 0,
            r.base_bet == base_bet,
    {
        Martingale { balance, min_bet, base_bet, current_bet: base_bet, streak: 0, profit: 0 }
    }
}

impl Strategy for Martingale {
    open spec fn balance(&self) -> u64 {
        self.balance
    }

    open spec fn profit(&self) -> i64 {
        self.profit
    }

    open spec fn min_bet(&self) -> u64 {
        self.min_bet
    }

    open spec fn raw_stake(&self) -> u64 {
        self.current_bet
    }

    fn set_balance(&mut self, balance: u64) {
        self.balance = balance;
    }

    fn get_next_bet(&mut self, prediction: u32, confidence: u32) -> (r: BetDecision) {
        let chance: u32 = chance_for(confidence);
        let multiplier = multiplier_for(chance);
        let stake = clamp_stake(self.current_bet, self.min_bet, self.balance);
        BetDecision { stake, multiplier, chance, is_high: prediction > MIDPOINT }
    }

    /// A win also returns the progression to the base stake at once and
    /// extends (or restarts) the winning streak.
    fn on_win(&mut self, bet_result: &BetResult)
        ensures
            final(self).current_bet == old(self).base_bet,
            final(self).base_bet == old(self).base_bet,
            final(self).streak == (if old(self).streak < 0 {
                1i64
            } else if old(self).streak == i64::MAX {
                i64::MAX
            } else {
                (old(self).streak + 1) as i64
            }),
    {
        self.balance = shift_balance(self.balance, bet_result.win_amount);
        self.profit = shift_profit(self.profit, bet_result.win_amount);
        self.streak = if self.streak < 0 {
            1
        } else if self.streak == i64::MAX {
            i64::MAX
        } else {
            self.streak + 1
        };
        self.current_bet = self.base_bet;
    }

    /// A loss also doubles the stake for the next bet, saturating at the
    /// type's range, and extends (or restarts) the losing streak.
    fn on_lose(&mut self, bet_result: &BetResult)
        ensures
            final(self).current_bet == (if old(self).current_bet > u64::MAX / 2 {
                u64::MAX
            } else {
                (old(self).current_bet * 2) as u64
            }),
            final(self).base_bet == old(self).base_bet,
            final(self).streak == (if old(self).streak > 0 {
                -1i64
            } else if old(self).streak == i64::MIN {
                i64::MIN
            } else {
                (old(self).streak - 1) as i64
            }),
    {
        self.balance = shift_balance_minus(self.balance, bet_result.win_amount);
        self.profit = shift_profit_minus(self.profit, bet_result.win_amount);
        self.streak = if self.streak > 0 {
            -1
        } else if self.streak == i64::MIN {
            i64::MIN
        } else {
            self.streak - 1
        };
        self.current_bet = if self.current_bet > u64::MAX / 2 {
            u64::MAX
        } else {
            self.current_bet * 2
        };
    }

    fn get_balance(&self) -> u64 {
        self.balance
    }

    fn get_profit(&self) -> i64 {
        self.profit
    }

    /// Returning to base state means the base stake and a clean streak.
    fn reset(&mut self)
        ensures
            final(self).current_bet == old(self).base_bet,
            final(self).base_bet == old(self).base_bet,
            final(self).streak == 0,
    {
        self.current_bet = self.base_bet;
        self.streak = 0;
    }
}

/// The passive policy: the stake is always the base stake, clamped into
/// the bankroll like every other policy.
pub struct NoStrat {
    pub balance: u64,
    pub min_bet: u64,
    pub base_bet: u64,
    pub profit: i64,
}

impl NoStrat {
    pub fn new(balance: u64, min_bet: u64, base_bet: u64) -> (r: Self)
        ensures
            r.balance() == balance,
            r.min_bet() == min_bet,
            r.raw_stake() == base_bet,
            r.profit() == 0,
    {
        NoStrat { balance, min_bet, base_bet, profit: 0 }
    }
}

impl Strategy for NoStrat {
    open spec fn balance(&self) -> u64 {
        self.balance
    }

    open spec fn profit(&self) -> i64 {
        self.profit
    }

    open spec fn min_bet(&self) -> u64 {
        self.min_bet
    }

    open spec fn raw_stake(&self) -> u64 {
        self.base_bet
    }

    fn set_balance(&mut self, balance: u64) {
        self.balance = balance;
    }

    fn get_next_bet(&mut self, prediction: u32, confidence: u32) -> (r: BetDecision) {
        let chance: u32 = chance_for(confidence);
        let multiplier = multiplier_for(chance);
        let stake = clamp_stake(self.base_bet, self.min_bet, self.balance);
        BetDecision { stake, multiplier, chance, is_high: prediction > MIDPOINT }
    }

    fn on_win(&mut self, bet_result: &BetResult)
        ensures
            final(self).raw_stake() == old(self).raw_stake(),
    {
        self.balance = shift_balance(self.balance, bet_result.win_amount);
        self.profit = shift_profit(self.profit, bet_result.win_amount);
    }

    fn on_lose(&mut self, bet_result: &BetResult)
        ensures
            final(self).raw_stake() == old(self).raw_stake(),
    {
        self.balance = shift_balance_minus(self.balance, bet_result.win_amount);
        self.profit = shift_profit_minus(self.profit, bet_result.win_amount);
    }

    fn get_balance(&self) -> u64 {
        self.balance
    }

    fn get_profit(&self) -> i64 {
        self.profit
    }

    fn reset(&mut self)
        ensures
            final(self).raw_stake() == old(self).raw_stake(),
    {
    }
}

/// Computes the chance for a confidence in `[0, 100]`.
pub fn chance_for(confidence: u32) -> (r: u32)
    requires
        confidence <= 100,
    ensures
        r == chance_from_confidence(confidence),
{
    let span: u32 = MAX_CHANCE_BP - MIN_CHANCE_BP;
    proof {
        assert(span * confidence <= 499900) by (nonlinear_arith)
            requires
                span == 4999,
                confidence <= 100,
        ;
    }
    MIN_CHANCE_BP + (span * confidence) / 100
}

/// Computes the clamped multiplier for a chance of at least 0.01%.
pub fn multiplier_for(chance: u32) -> (r: u64)
    requires
        chance >= 1,
    ensures
        r == multiplier_from_chance(chance),
{
    let raw: u64 = 1000000 / (chance as u64);
    if raw < MIN_MULT_CENTI {
        MIN_MULT_CENTI
    } else if raw > MAX_MULT_CENTI {
        MAX_MULT_CENTI
    } else {
        raw
    }
}

/// Clamps a stake to `max(min_bet, min(stake, balance))`.
pub fn clamp_stake(stake: u64, min_bet: u64, balance: u64) -> (r: u64)
    ensures
        r == clamped_stake(stake, min_bet, balance),
{
    let bounded = if stake > balance {
        balance
    } else {
        stake
    };
    if bounded > min_bet {
        bounded
    } else {
        min_bet
    }
}

} // verus!
