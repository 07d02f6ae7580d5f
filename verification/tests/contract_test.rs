use athena_vault::error::VaultError;
use athena_vault::manage::{get_available, get_total_balance, instantiate, update_config};
use athena_vault::state::{Config, State};

const PCT95: u128 = 950_000_000_000_000_000;

fn base_config() -> Config {
    instantiate(
        "cosmos2contract".to_string(),
        "controller".to_string(),
        "uusd".to_string(),
        PCT95,
        100,
    )
    .unwrap()
    .0
}

fn config_with_strategy() -> Config {
    update_config(
        &base_config(),
        true,
        None,
        Some("strategy".to_string()),
        None,
        None,
        None,
    )
    .unwrap()
}

#[test]
fn instantiate_sets_the_correct_state() {
    let (config, state) = instantiate(
        "cosmos2contract".to_string(),
        "controller".to_string(),
        "uusd".to_string(),
        PCT95,
        100,
    )
    .unwrap();

    assert_eq!(config.contract_addr, "cosmos2contract");
    assert_eq!(config.controller, "controller");
    assert_eq!(config.strategy, None);
    assert_eq!(config.stable_denom, "uusd");
    assert_eq!(config.invest_percentage, PCT95);
    assert_eq!(config.lock_period, 100);
    assert!(!config.force_withdraw);
    assert_eq!(state, State { total_share: 0, total_subsidized: 0 });
}

#[test]
fn instantiate_fails_if_investment_percentage_is_greater_than_100() {
    let res = instantiate(
        "cosmos2contract".to_string(),
        "controller".to_string(),
        "uusd".to_string(),
        1_010_000_000_000_000_000,
        100,
    )
    .unwrap_err();

    assert_eq!(res, VaultError::InvalidPercentage);
    assert_eq!(res.message(), "Invest percentage must be less than 100%");
}

#[test]
fn vault_balance() {
    let config = base_config();

    assert_eq!(get_total_balance(&config, 0, 0), 0);
    assert_eq!(get_total_balance(&config, 200, 0), 200);
}

#[test]
fn underlying_balance_takes_the_invested_balance_into_account() {
    let config = config_with_strategy();

    assert_eq!(get_total_balance(&config, 200, 100), 300);
}

#[test]
fn available_balance_is_0_when_no_strategy_is_set() {
    let config = base_config();

    assert_eq!(get_available(&config, 200, 0).unwrap(), 0);
}

#[test]
fn available_balance_takes_the_invest_percentage_into_account() {
    let config = config_with_strategy();

    let vault_balance: u128 = 200;
    let invested_balance: u128 = 100;

    // (200 + 100) * 95% = 285, topped up from the 100 already invested.
    assert_eq!(
        get_available(&config, vault_balance, invested_balance).unwrap(),
        185
    );
}

#[test]
fn available_balance_is_0_when_the_invest_percentage_is_exceeded() {
    let config = config_with_strategy();

    assert_eq!(get_available(&config, 5, 100).unwrap(), 0);
}

#[test]
fn available_balance_overflows_loudly() {
    let config = config_with_strategy();

    let res = get_available(&config, u128::MAX, 1).unwrap_err();

    assert_eq!(res, VaultError::Overflow);
}
