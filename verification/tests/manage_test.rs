use athena_vault::access_control::assert_governance_privilege;
use athena_vault::error::VaultError;
use athena_vault::manage::{instantiate, update_config};
use athena_vault::state::Config;

const PCT90: u128 = 900_000_000_000_000_000;
const PCT95: u128 = 950_000_000_000_000_000;
const PCT101: u128 = 1_010_000_000_000_000_000;

fn base_config() -> Config {
    instantiate(
        "cosmos2contract".to_string(),
        "controller".to_string(),
        "uusd".to_string(),
        PCT95,
        600,
    )
    .unwrap()
    .0
}

fn config_with_strategy() -> Config {
    update_config(
        &base_config(),
        true,
        None,
        Some("strategy".to_string()),
        None,
        None,
        None,
    )
    .unwrap()
}

fn is_governance(sender: &str) -> bool {
    assert_governance_privilege(&"governance".to_string(), &sender.to_string()).is_ok()
}

#[test]
fn update_config_fails_if_sender_is_unauthorized() {
    let config = base_config();

    let res = update_config(
        &config,
        is_governance("addr"),
        Some("controller2".to_string()),
        Some("strategy".to_string()),
        Some(PCT90),
        Some(600),
        Some(true),
    )
    .unwrap_err();

    assert_eq!(res, VaultError::Unauthorized);
    assert_eq!(res.message(), "unauthorized");
}

#[test]
fn update_config_fails_if_invest_percentage_is_greather_than_100() {
    let config = base_config();

    let res = update_config(
        &config,
        is_governance("governance"),
        Some("controller2".to_string()),
        Some("strategy".to_string()),
        Some(PCT101),
        Some(600),
        Some(true),
    )
    .unwrap_err();

    assert_eq!(res, VaultError::InvalidPercentage);
    assert_eq!(res.message(), "Invest percentage must be less than 100%");
}

#[test]
fn manage_test_update_config() {
    let config = base_config();

    let out = update_config(
        &config,
        is_governance("governance"),
        Some("controller2".to_string()),
        Some("strategy".to_string()),
        Some(PCT90),
        Some(600),
        Some(true),
    )
    .unwrap();

    assert_eq!(out.contract_addr, "cosmos2contract");
    assert_eq!(out.controller, "controller2");
    assert_eq!(out.strategy, Some("strategy".to_string()));
    assert_eq!(out.stable_denom, "uusd");
    assert_eq!(out.invest_percentage, PCT90);
    assert_eq!(out.lock_period, 600);
    assert!(out.force_withdraw);
}

#[test]
fn invest_fails_if_sender_is_not_worker() {
    let config = base_config();

    let res = athena_vault::manage::invest(&config, false, 0, 0).unwrap_err();
    assert_eq!(res, VaultError::Unauthorized);

    let claimer_only_is_not_worker = false;
    let res = athena_vault::manage::invest(&config, claimer_only_is_not_worker, 0, 0).unwrap_err();
    assert_eq!(res, VaultError::Unauthorized);
}

#[test]
fn invest_fails_if_strategy_is_not_defined() {
    let config = base_config();

    let res = athena_vault::manage::invest(&config, true, 0, 0).unwrap_err();

    assert_eq!(res, VaultError::StrategyNotDefined);
    assert_eq!(res.message(), "Strategy is not defined");
}

#[test]
fn invest_fails_if_nothing_to_invest() {
    let config = config_with_strategy();

    let res = athena_vault::manage::invest(&config, true, 0, 3_800_000_000).unwrap_err();

    assert_eq!(res, VaultError::NothingToInvest);
    assert_eq!(res.message(), "Nothing to invest");
}

#[test]
fn invest() {
    let config = config_with_strategy();
    let vault_balance: u128 = 200_000_000;

    let amount = athena_vault::manage::invest(&config, true, vault_balance, 0).unwrap();

    assert_eq!(amount, 190_000_000);
    assert_eq!(
        athena_vault::manage::get_total_balance(&config, vault_balance, 0),
        vault_balance
    );
}
