//! The validated configuration handed to the core at start-up.
//!
//! Reading the file and decoding it happen outside the library; the rules
//! — exactly one site enabled, credentials present for the enabled site —
//! are decided here.

use vstd::prelude::*;

use crate::sites::crypto_games::Currency;

verus! {

/// The configurable bet-sizing policies.
#[derive(Debug)]
pub enum TomlStrategies {
    AiFight,
    BlaksRunner,
    MyStrategy,
    NoStrategy,
}

impl Default for TomlStrategies {
    /// Without a choice, no progression policy is used.
    fn default() -> (r: Self)
        ensures
            r is NoStrategy,
    {
        TomlStrategies::NoStrategy
    }
}

/// The crypto.games section.
#[derive(Debug)]
pub struct CryptoGamesConfig {
    pub enabled: bool,
    pub api_key: String,
    pub currency: Currency,
    pub strategy: TomlStrategies,
}

/// The freebitco.in section.
#[derive(Debug)]
pub struct FreeBitcoInConfig {
    pub enabled: bool,
    pub btc_address: String,
    pub password: String,
    pub strategy: TomlStrategies,
}

/// The DuckDice section.
#[derive(Debug)]
pub struct DuckDiceConfig {
    pub enabled: bool,
    pub api_key: String,
    pub currency: Currency,
    pub strategy: TomlStrategies,
}

/// The whole configuration file.
#[derive(Debug)]
pub struct TomlConfig {
    pub crypto_games: CryptoGamesConfig,
    pub freebitcoin: FreeBitcoInConfig,
    pub duck_dice: DuckDiceConfig,
}

impl TomlConfig {
    /// How many sites are enabled.
    pub open spec fn enabled_count(&self) -> int {
        (if self.duck_dice.enabled {
            1int
        } else {
            0int
        }) + (if self.crypto_games.enabled {
            1int
        } else {
            0int
        }) + (if self.freebitcoin.enabled {
            1int
        } else {
            0int
        })
    }

    /// A usable configuration: exactly one site enabled, and the enabled
    /// site's credentials present.
    pub open spec fn spec_valid(&self) -> bool {
        &&& self.enabled_count() == 1
        &&& self.duck_dice.enabled ==> self.duck_dice.api_key@.len() > 0
        &&& self.crypto_games.enabled ==> self.crypto_games.api_key@.len() > 0
        &&& self.freebitcoin.enabled ==> self.freebitcoin.btc_address@.len() > 0
            && self.freebitcoin.password@.len() > 0
    }

    /// Validates the configuration: passes exactly the usable
    /// configurations, and names the first broken rule — missing
    /// credentials site by site, then no site enabled, then more than
    /// one.
    pub fn validate(&self) -> (r: Result<(), String>)
        ensures
            r is Ok <==> self.spec_valid(),
            self.duck_dice.enabled && self.duck_dice.api_key@.len() == 0 ==> (r matches Err(m)
                && m@ == "DuckDice API key cannot be empty"@),
            self.crypto_games.enabled && !(self.duck_dice.enabled
                && self.duck_dice.api_key@.len() == 0) && self.crypto_games.api_key@.len() == 0
                ==> (r matches Err(m) && m@ == "CryptoGames API key cannot be empty"@),
            self.enabled_count() == 0 ==> (r matches Err(m) && m@
                == "At least one site must be enabled"@),
            self.spec_valid() == false && self.enabled_count() > 1 && !self.has_credential_fault()
                ==> (r matches Err(m) && m@ == "Only one site can be enabled at a time"@),
    {
        let mut enabled_count: u32 = 0;

        if self.duck_dice.enabled {
            enabled_count = enabled_count + 1;
            if self.duck_dice.api_key.as_str().is_empty() {
                return Err("DuckDice API key cannot be empty".to_owned());
            }
        }

        if self.crypto_games.enabled {
            enabled_count = enabled_count + 1;
            if self.crypto_games.api_key.as_str().is_empty() {
                return Err("CryptoGames API key cannot be empty".to_owned());
            }
        }

        if self.freebitcoin.enabled {
            enabled_count = enabled_count + 1;
            if self.freebitcoin.btc_address.as_str().is_empty() {
                return Err("FreeBitco.in BTC address cannot be empty".to_owned());
            }
            if self.freebitcoin.password.as_str().is_empty() {
                return Err("FreeBitco.in password cannot be empty".to_owned());
            }
        }

        if enabled_count == 0 {
            return Err("At least one site must be enabled".to_owned());
        }

        if enabled_count > 1 {
            return Err("Only one site can be enabled at a time".to_owned());
        }

        Ok(())
    }

    /// Whether an enabled site is missing a credential.
    pub open spec fn has_credential_fault(&self) -> bool {
        ||| self.duck_dice.enabled && self.duck_dice.api_key@.len() == 0
        ||| self.crypto_games.enabled && self.crypto_games.api_key@.len() == 0
        ||| self.freebitcoin.enabled && (self.freebitcoin.btc_address@.len() == 0
            || self.freebitcoin.password@.len() == 0)
    }
}

} // verus!
