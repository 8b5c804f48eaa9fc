//! Site-independent types shared by every adapter.
//!
//! Amounts of currency are carried as integers in atomic units of 1e-8 of
//! the site's coin, chances in hundredths of a percent, and payout
//! multipliers in hundredths, so that bankroll arithmetic is exact.

pub mod crypto_games;
pub mod duck_dice;
pub mod fake_test;
pub mod free_bitco_in;

use vstd::prelude::*;
use vstd::string::StringSliceAdditionalSpecFns;

verus! {

/// Everything that can go wrong while betting. Recoverable and fatal kinds
/// are told apart by the orchestrator, not here.
#[derive(Debug)]
pub enum BetError {
    /// The server answered with an empty reply; the iteration is skipped.
    EmptyReply,
    /// An operation failed without a more precise cause.
    Failed,
    /// The login handshake was rejected; fatal.
    LoginFailed,
    /// The configuration is unusable.
    ConfigError(String),
    /// The prediction source is unusable.
    ModelError(String),
    /// A transport failure or timeout; recoverable.
    NetworkError,
    /// The site rejected the request: HTTP status and response body.
    ApiError(u16, String),
    /// The site asked for a cooldown of this many seconds.
    RateLimited(u64),
    /// The requested stake exceeds the current balance; the loop halts
    /// gracefully instead of crashing.
    InsufficientBalance,
    /// A commit-reveal check failed or its input was malformed.
    VerificationError,
    /// A response body could not be parsed.
    ParseError,
}

/// One settled bet in canonical, site-independent form.
///
/// `number` is the rolled number in `[0, 10000)`; `chance` is in hundredths
/// of a percent; `payout` is the multiplier in hundredths; `bet_amount` is
/// in atomic units; `win_amount` is the signed profit (or the amount the
/// site reported won) in atomic units.
#[derive(Debug)]
pub struct BetResult {
    pub hash_previous_roll: String,
    pub hash_next_roll: String,
    pub client_seed: String,
    pub nonce: u32,
    pub symbol: String,
    pub result: bool,
    pub is_high: bool,
    pub number: u32,
    pub threshold: u32,
    pub chance: u32,
    pub payout: u64,
    pub bet_amount: u64,
    pub win_amount: i64,
}

impl Clone for BetResult {
    /// A clone carries exactly the fields of the original.
    fn clone(&self) -> (r: Self)
        ensures
            r == *self,
    {
        let r = BetResult {
            hash_previous_roll: self.hash_previous_roll.clone(),
            hash_next_roll: self.hash_next_roll.clone(),
            client_seed: self.client_seed.clone(),
            nonce: self.nonce,
            symbol: self.symbol.clone(),
            result: self.result,
            is_high: self.is_high,
            number: self.number,
            threshold: self.threshold,
            chance: self.chance,
            payout: self.payout,
            bet_amount: self.bet_amount,
            win_amount: self.win_amount,
        };
        r
    }
}

/// `v` clamped into `[lo, hi]`.
pub open spec fn clamp_u64(v: u64, lo: u64, hi: u64) -> u64
    recommends
        lo <= hi,
{
    if v < lo {
        lo
    } else if v > hi {
        hi
    } else {
        v
    }
}

/// Clamps `v` into `[lo, hi]`.
pub fn clamp64(v: u64, lo: u64, hi: u64) -> (r: u64)
    requires
        lo <= hi,
    ensures
        r == clamp_u64(v, lo, hi),
{
    if v < lo {
        lo
    } else if v > hi {
        hi
    } else {
        v
    }
}

/// The larger of two amounts.
pub open spec fn max_u64(a: u64, b: u64) -> u64 {
    if a > b {
        a
    } else {
        b
    }
}

/// Returns the larger of two amounts.
pub fn max64(a: u64, b: u64) -> (r: u64)
    ensures
        r == max_u64(a, b),
{
    if a > b {
        a
    } else {
        b
    }
}

/// `-x`, saturated at `i64::MAX` for `i64::MIN`.
pub open spec fn neg_sat(x: i64) -> i64 {
    if x == i64::MIN {
        i64::MAX
    } else {
        (-x) as i64
    }
}

/// Negates a signed amount, saturating at the type's range.
pub fn negate_sat(x: i64) -> (r: i64)
    ensures
        r == neg_sat(x),
{
    if x == i64::MIN {
        i64::MAX
    } else {
        -x
    }
}

/// Sorts an HTTP status into the bet lifecycle's outcomes: a 429 is a
/// rate limit carrying the advertised or default cooldown, any other
/// non-success status is an `ApiError` carrying status and body, and a
/// success status passes.
pub fn classify_status(status: u16, retry_after: Option<&str>, body: &str) -> (r: Result<
    (),
    BetError,
>)
    ensures
        200 <= status < 300 ==> r is Ok,
        status == 429 ==> r == Result::<(), BetError>::Err(
            BetError::RateLimited(
                crate::sites::duck_dice::retry_after_seconds(
                    match retry_after {
                        Some(s) => Some(s.spec_bytes()),
                        None => None,
                    },
                ),
            ),
        ),
        !(200 <= status < 300) && status != 429 ==> (r matches Err(e) && e matches
            BetError::ApiError(st, b) && st == status && b@ == body@),
{
    if status >= 200 && status < 300 {
        return Ok(());
    }
    if status == 429 {
        let secs: u64 = match retry_after {
            Some(h) => {
                match crate::parse::parse_u64(h.as_bytes()) {
                    Some(v) => v,
                    None => 60,
                }
            },
            None => 60,
        };
        return Err(BetError::RateLimited(secs));
    }
    Err(BetError::ApiError(status, body.to_owned()))
}

/// The supported gambling platforms.
pub enum Sites {
    DuckDiceIo,
    CryptoGames,
    FreeBitcoIn,
}

} // verus!
