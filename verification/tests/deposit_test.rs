use athena_vault::asset::deduct_tax;
use athena_vault::deposit::{deposit_native, withdraw};
use athena_vault::error::VaultError;
use athena_vault::manage::{instantiate, update_config};
use athena_vault::state::{Coin, Config, DepositInfo, State};

const PCT95: u128 = 950_000_000_000_000_000;
const TAX_RATE: u128 = 10_000_000_000_000_000;
const TAX_CAP: u128 = 1_000_000;
const T0: u64 = 1_000_000;

fn base_config() -> Config {
    instantiate(
        "cosmos2contract".to_string(),
        "controller".to_string(),
        "uusd".to_string(),
        PCT95,
        200,
    )
    .unwrap()
    .0
}

fn uusd(amount: u128) -> Vec<Coin> {
    vec![Coin { denom: "uusd".to_string(), amount }]
}

fn zero_state() -> State {
    State { total_share: 0, total_subsidized: 0 }
}

fn net_of_tax(amount: u128) -> u128 {
    deduct_tax(amount, TAX_RATE, TAX_CAP)
}

#[test]
fn withdraw_to_user() {
    let config = base_config();
    let balance: u128 = 100_000_000;

    let out = deposit_native(
        &config,
        &zero_state(),
        &DepositInfo::absent(),
        T0,
        &uusd(balance),
        150_000_000,
    )
    .unwrap();

    let res = withdraw(
        &config,
        &out.state,
        &out.deposit_info,
        T0 + 620,
        balance,
        false,
        150_000_000,
        150_000_000,
    )
    .unwrap();

    assert_eq!(res.payout, Some(balance));
    assert_eq!(net_of_tax(balance), 99_009_900);
}

#[test]
fn withdraw_with_yield_over_claim() {
    let config = base_config();
    let vault_balance: u128 = 100_000_000;
    let vault_max_balance: u128 = 190_000_000;
    let vault_min_balance: u128 = 90_000_000;

    let config = update_config(
        &config,
        true,
        None,
        Some("strategy".to_string()),
        None,
        Some(200),
        Some(true),
    )
    .unwrap();

    let out = deposit_native(
        &config,
        &zero_state(),
        &DepositInfo::absent(),
        T0,
        &uusd(vault_balance),
        150_000_000,
    )
    .unwrap();

    let claimed = athena_vault::claim::claim_yield(
        &out.state,
        &out.deposit_info,
        T0 + 620,
        vault_max_balance,
        vault_max_balance,
    )
    .unwrap();

    let res = withdraw(
        &config,
        &claimed.state,
        &claimed.deposit_info,
        T0 + 620,
        vault_balance,
        true,
        vault_min_balance,
        vault_min_balance,
    )
    .unwrap();

    assert_eq!(res.payout, Some(vault_min_balance));
    assert_eq!(net_of_tax(vault_min_balance), 89_108_910);
}

#[test]
fn force_withdraw_with_insufficient_funds() {
    let config = base_config();
    let config = update_config(
        &config,
        true,
        None,
        Some("strategy".to_string()),
        None,
        None,
        Some(true),
    )
    .unwrap();

    let out = deposit_native(
        &config,
        &zero_state(),
        &DepositInfo::absent(),
        T0,
        &uusd(100_000_000),
        150_000_000,
    )
    .unwrap();

    let res = withdraw(
        &config,
        &out.state,
        &out.deposit_info,
        T0 + 620,
        100_000_000,
        true,
        150_000_000,
        70_000_000,
    )
    .unwrap();

    assert_eq!(res.payout, Some(70_000_000));
    assert_eq!(net_of_tax(70_000_000), 69_306_930);
}

#[test]
fn withdraw_fails_if_already_withdrawn() {
    let config = base_config();

    let out = deposit_native(
        &config,
        &zero_state(),
        &DepositInfo::absent(),
        T0,
        &uusd(100_000_000),
        150_000_000,
    )
    .unwrap();

    let first = withdraw(
        &config,
        &out.state,
        &out.deposit_info,
        T0 + 620,
        100_000_000,
        false,
        150_000_000,
        150_000_000,
    )
    .unwrap();

    let res = withdraw(
        &config,
        &first.state,
        &first.deposit_info,
        T0 + 620,
        100_000_000,
        false,
        150_000_000,
        150_000_000,
    )
    .unwrap_err();

    assert_eq!(res, VaultError::AlreadyWithdrawn);
    assert_eq!(res.message(), "Already withdrawn");
}

#[test]
fn withdraw_fails_if_loss() {
    let config = base_config();

    let out = deposit_native(
        &config,
        &zero_state(),
        &DepositInfo::absent(),
        T0,
        &uusd(100_000_000),
        150_000_000,
    )
    .unwrap();

    let res = withdraw(
        &config,
        &out.state,
        &out.deposit_info,
        T0 + 620,
        100_000_000,
        false,
        70_000_000,
        70_000_000,
    )
    .unwrap_err();

    assert_eq!(res, VaultError::Loss);
    assert_eq!(res.message(), "Loss");
}

#[test]
fn withdraw_fails_when_insufficient_funds() {
    let config = base_config();
    let config = update_config(
        &config,
        true,
        None,
        Some("strategy".to_string()),
        None,
        None,
        None,
    )
    .unwrap();

    let out = deposit_native(
        &config,
        &zero_state(),
        &DepositInfo::absent(),
        T0,
        &uusd(100_000_000),
        150_000_000,
    )
    .unwrap();

    let res = withdraw(
        &config,
        &out.state,
        &out.deposit_info,
        T0 + 620,
        100_000_000,
        false,
        150_000_000,
        70_000_000,
    )
    .unwrap_err();

    assert_eq!(res, VaultError::Insufficient);
    assert_eq!(res.message(), "Insufficient");
}

#[test]
fn withdraw_fails_if_the_deposit_is_locked() {
    let config = base_config();

    let out = deposit_native(
        &config,
        &zero_state(),
        &DepositInfo::absent(),
        T0,
        &uusd(100_000_000),
        150_000_000,
    )
    .unwrap();

    let res = withdraw(
        &config,
        &out.state,
        &out.deposit_info,
        T0,
        100_000_000,
        false,
        150_000_000,
        150_000_000,
    )
    .unwrap_err();

    assert_eq!(res, VaultError::StillLocked);
    assert_eq!(res.message(), "Still locked");
}

#[test]
fn withdraw_succeeds_exactly_at_maturity() {
    let config = base_config();

    let out = deposit_native(
        &config,
        &zero_state(),
        &DepositInfo::absent(),
        T0,
        &uusd(100_000_000),
        150_000_000,
    )
    .unwrap();

    assert_eq!(out.deposit_info.maturity, T0 + 200);

    let res = withdraw(
        &config,
        &out.state,
        &out.deposit_info,
        T0 + 200,
        100_000_000,
        false,
        150_000_000,
        150_000_000,
    )
    .unwrap();

    assert_eq!(res.payout, Some(100_000_000));
}

#[test]
fn deposit_updates_the_state_for_the_first_deposit() {
    let config = base_config();

    let out = deposit_native(
        &config,
        &zero_state(),
        &DepositInfo::absent(),
        T0,
        &uusd(100_000_000),
        150_000_000,
    )
    .unwrap();

    assert_eq!(out.amount, 100_000_000);
    assert_eq!(
        out.state,
        State { total_share: 100_000_000, total_subsidized: 0 }
    );
    assert_eq!(
        out.deposit_info,
        DepositInfo {
            share: 100_000_000,
            maturity: T0 + 200,
            current_amount: 100_000_000,
            principal: 100_000_000,
            principal_claimed: 0,
            yield_amount: 0,
            yield_claimed: 0,
        }
    );
}

#[test]
fn deposit_updates_the_state_for_a_second_deposit() {
    let config = base_config();

    let first = deposit_native(
        &config,
        &zero_state(),
        &DepositInfo::absent(),
        T0,
        &uusd(100_000_000),
        150_000_000,
    )
    .unwrap();

    let second = deposit_native(
        &config,
        &first.state,
        &first.deposit_info,
        T0,
        &uusd(50_000_000),
        200_000_000,
    )
    .unwrap();

    assert_eq!(second.amount, 50_000_000);
    assert_eq!(second.deposit_info.share, 33_333_333);
    assert_eq!(second.deposit_info.maturity, T0 + 200);
    assert_eq!(
        second.state,
        State { total_share: 133_333_333, total_subsidized: 0 }
    );
    assert_eq!(
        second.deposit_info,
        DepositInfo {
            principal: 150_000_000,
            current_amount: 150_000_000,
            share: 33_333_333,
            maturity: T0 + 200,
            yield_amount: 0,
            yield_claimed: 0,
            principal_claimed: 0,
        }
    );
}

#[test]
fn deposit_check_deposit_amount() {
    let config = base_config();

    let res = deposit_native(
        &config,
        &zero_state(),
        &DepositInfo::absent(),
        T0,
        &uusd(0),
        150_000_000,
    )
    .unwrap_err();

    assert_eq!(res, VaultError::ZeroDeposit);
    assert_eq!(res.message(), "Deposit amount must be greater than 0");
}

#[test]
fn deposit_check_several_denoms() {
    let config = base_config();

    let funds = vec![
        Coin { denom: "uusd".to_string(), amount: 10_000_000 },
        Coin { denom: "uaud".to_string(), amount: 10_000_000 },
    ];

    let res = deposit_native(
        &config,
        &zero_state(),
        &DepositInfo::absent(),
        T0,
        &funds,
        150_000_000,
    )
    .unwrap_err();

    assert_eq!(res, VaultError::SeveralDenoms);
    assert_eq!(res.message(), "Cannot deposit several denoms");
}

#[test]
fn withdraw_pays_over_claim_back_from_yield_then_principal() {
    let config = base_config();

    // Solo depositor over a vault that already held 100,000,000.
    let out = deposit_native(
        &config,
        &zero_state(),
        &DepositInfo::absent(),
        T0,
        &uusd(100_000_000),
        200_000_000,
    )
    .unwrap();

    // The whole 100,000,000 yield is claimed, halving the share.
    let claimed = athena_vault::claim::claim_yield(
        &out.state,
        &out.deposit_info,
        T0 + 620,
        200_000_000,
        200_000_000,
    )
    .unwrap();
    assert_eq!(claimed.payout, 100_000_000);
    assert_eq!(claimed.deposit_info.share, 50_000_000);

    // The balance falls to 110,000,000: the refreshed yield is only
    // 10,000,000, so 90,000,000 was over-claimed.  The yield bucket
    // pays 10,000,000 of it back and the principal bucket the other
    // 80,000,000, leaving 20,000,000 withdrawable.
    let res = withdraw(
        &config,
        &claimed.state,
        &claimed.deposit_info,
        T0 + 620,
        20_000_000,
        false,
        110_000_000,
        110_000_000,
    )
    .unwrap();

    assert_eq!(res.payout, Some(20_000_000));
    assert_eq!(res.deposit_info.principal_claimed, 20_000_000);
    assert_eq!(res.deposit_info.yield_claimed, 100_000_000);
    assert_eq!(
        res.state,
        State { total_share: 0, total_subsidized: 90_000_000 }
    );
}

#[test]
fn deposit_fails_when_balance_misses_the_deposit() {
    let config = base_config();

    let res = deposit_native(
        &config,
        &zero_state(),
        &DepositInfo::absent(),
        T0,
        &uusd(100_000_000),
        50_000_000,
    )
    .unwrap_err();

    assert_eq!(res, VaultError::Underflow);
}
