use predictive_rolls::config::{
    CryptoGamesConfig, DuckDiceConfig, FreeBitcoInConfig, TomlConfig, TomlStrategies,
};
use predictive_rolls::sites::crypto_games::Currency;

#[test]
fn test_config_validation_no_site_enabled() {
    let config = TomlConfig {
        duck_dice: DuckDiceConfig {
            enabled: false,
            api_key: "test".to_string(),
            currency: Currency::BTC,
            strategy: TomlStrategies::NoStrategy,
        },
        crypto_games: CryptoGamesConfig {
            enabled: false,
            api_key: "test".to_string(),
            currency: Currency::BTC,
            strategy: TomlStrategies::NoStrategy,
        },
        freebitcoin: FreeBitcoInConfig {
            enabled: false,
            btc_address: "test".to_string(),
            password: "test".to_string(),
            strategy: TomlStrategies::NoStrategy,
        },
    };

    assert!(config.validate().is_err());
}

#[test]
fn test_config_validation_empty_api_key() {
    let config = TomlConfig {
        duck_dice: DuckDiceConfig {
            enabled: true,
            api_key: "".to_string(),
            currency: Currency::BTC,
            strategy: TomlStrategies::NoStrategy,
        },
        crypto_games: CryptoGamesConfig {
            enabled: false,
            api_key: "test".to_string(),
            currency: Currency::BTC,
            strategy: TomlStrategies::NoStrategy,
        },
        freebitcoin: FreeBitcoInConfig {
            enabled: false,
            btc_address: "test".to_string(),
            password: "test".to_string(),
            strategy: TomlStrategies::NoStrategy,
        },
    };

    assert!(config.validate().is_err());
}

#[test]
fn test_config_validation_valid() {
    let config = TomlConfig {
        duck_dice: DuckDiceConfig {
            enabled: true,
            api_key: "valid_key".to_string(),
            currency: Currency::BTC,
            strategy: TomlStrategies::NoStrategy,
        },
        crypto_games: CryptoGamesConfig {
            enabled: false,
            api_key: "test".to_string(),
            currency: Currency::BTC,
            strategy: TomlStrategies::NoStrategy,
        },
        freebitcoin: FreeBitcoInConfig {
            enabled: false,
            btc_address: "test".to_string(),
            password: "test".to_string(),
            strategy: TomlStrategies::NoStrategy,
        },
    };

    assert!(config.validate().is_ok());
}

#[test]
fn test_config_validation_two_sites_enabled() {
    let config = TomlConfig {
        duck_dice: DuckDiceConfig {
            enabled: true,
            api_key: "k1".to_string(),
            currency: Currency::BTC,
            strategy: TomlStrategies::NoStrategy,
        },
        crypto_games: CryptoGamesConfig {
            enabled: true,
            api_key: "k2".to_string(),
            currency: Currency::BTC,
            strategy: TomlStrategies::NoStrategy,
        },
        freebitcoin: FreeBitcoInConfig {
            enabled: false,
            btc_address: "test".to_string(),
            password: "test".to_string(),
            strategy: TomlStrategies::NoStrategy,
        },
    };

    let res = config.validate();
    assert_eq!(res, Err("Only one site can be enabled at a time".to_string()));
}

#[test]
fn test_config_validation_error_messages() {
    let config = TomlConfig {
        duck_dice: DuckDiceConfig {
            enabled: true,
            api_key: "".to_string(),
            currency: Currency::BTC,
            strategy: TomlStrategies::NoStrategy,
        },
        crypto_games: CryptoGamesConfig {
            enabled: false,
            api_key: "test".to_string(),
            currency: Currency::BTC,
            strategy: TomlStrategies::NoStrategy,
        },
        freebitcoin: FreeBitcoInConfig {
            enabled: false,
            btc_address: "test".to_string(),
            password: "test".to_string(),
            strategy: TomlStrategies::NoStrategy,
        },
    };
    assert_eq!(
        config.validate(),
        Err("DuckDice API key cannot be empty".to_string())
    );
}
