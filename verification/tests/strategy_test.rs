use athena_vault::asset::deduct_tax;
use athena_vault::strategy::{close_short_plan, compound_performance_fee, deposit_anchor,
    get_anchor_balance, get_anchor_balance_without_fee, get_lp_value_parts, get_mirror_balance,
    open_short_state, redeem_from_anchor, swap_half, validate_performance_fee,
    withdraw_to_vault_amount, MirrorPoolSnapshot, State, StrategyError};

const PCT5: u128 = 50_000_000_000_000_000;
const PCT101: u128 = 1_010_000_000_000_000_000;
const PCT150: u128 = 1_500_000_000_000_000_000;
const TAX_RATE: u128 = 10_000_000_000_000_000;
const TAX_CAP: u128 = 1_000_000;

fn zero_state() -> State {
    State { anchor_deposited: 0, aterra_collateral: 0 }
}

#[test]
fn instantiate_strategy_fails_if_performace_fee_is_greater_than_100() {
    let res = validate_performance_fee(PCT101).unwrap_err();

    assert_eq!(res, StrategyError::FeeTooHigh);
    assert_eq!(
        res.message(),
        "Performance fee percentage must be less than 100%"
    );
}

#[test]
fn update_config_fails_if_performance_fee_is_greater_than_100() {
    let res = validate_performance_fee(PCT101).unwrap_err();

    assert_eq!(res, StrategyError::FeeTooHigh);
}

#[test]
fn deposit_anchor_fails_if_unauthorized() {
    let res = deposit_anchor(&zero_state(), false, 100_000_000).unwrap_err();

    assert_eq!(res, StrategyError::Unauthorized);
    assert_eq!(res.message(), "unauthorized");
}

#[test]
fn deposit_anchor_fails_if_amount_is_zero() {
    let res = deposit_anchor(&zero_state(), true, 0).unwrap_err();

    assert_eq!(res, StrategyError::ZeroAmount);
    assert_eq!(res.message(), "Amount must be greater than zero");
}

#[test]
fn deposit_anchor_several_times() {
    let amount1: u128 = 100_000_000;
    let amount2: u128 = 50_000_000;

    let state = deposit_anchor(&zero_state(), true, amount1).unwrap();
    let state = deposit_anchor(&state, true, amount2).unwrap();

    assert_eq!(deduct_tax(amount2, TAX_RATE, TAX_CAP), 49_504_950);
    assert_eq!(
        state,
        State { anchor_deposited: amount1 + amount2, aterra_collateral: 0 }
    );
}

#[test]
fn withdraw_anchor_fails_if_withdraw_amount_is_greater_than_balance() {
    let state = deposit_anchor(&zero_state(), true, 100_000_000).unwrap();

    let res = redeem_from_anchor(&state, Some(150_000_000), 80_000_000, PCT150, PCT5)
        .unwrap_err();

    assert_eq!(res, StrategyError::ExceedsDeposit);
    assert_eq!(res.message(), "cannot withdraw more than deposit");
}

#[test]
fn withdraw_anchor_by_worker() {
    let state = deposit_anchor(&zero_state(), true, 100_000_000).unwrap();

    let plan = redeem_from_anchor(&state, Some(50_000_000), 80_000_000, PCT150, PCT5).unwrap();

    // 50,000,000 receipt tokens at 1.5 are worth 75,000,000; the
    // proportional part of the original deposit is 62,500,000, so the
    // fee is 5% of the 12,500,000 gain.
    assert_eq!(plan.aterra_to_redeem, 50_000_000);
    assert_eq!(plan.redeem_value, 75_000_000);
    assert_eq!(plan.performance_fee, 625_000);
    assert_eq!(
        plan.state,
        State { anchor_deposited: 37_500_000, aterra_collateral: 0 }
    );
}

#[test]
fn withdraw_anchor_when_no_profit() {
    let state = deposit_anchor(&zero_state(), true, 100_000_000).unwrap();

    // At an exchange rate of 1.2, redeeming half the holding realizes
    // 48,000,000 against an attributed deposit of 50,000,000: no gain,
    // no fee.
    let plan = redeem_from_anchor(
        &state,
        Some(40_000_000),
        80_000_000,
        1_200_000_000_000_000_000,
        PCT5,
    )
    .unwrap();

    assert_eq!(plan.redeem_value, 48_000_000);
    assert_eq!(plan.performance_fee, 0);
    assert_eq!(plan.state.anchor_deposited, 50_000_000);
}

#[test]
fn withdraw_anchor_all_if_amount_is_none() {
    let state = deposit_anchor(&zero_state(), true, 100_000_000).unwrap();

    let plan = redeem_from_anchor(&state, None, 80_000_000, PCT150, PCT5).unwrap();

    assert_eq!(plan.aterra_to_redeem, 80_000_000);
    assert_eq!(plan.redeem_value, 120_000_000);
    // the whole deposit is attributed, so the gain is 20,000,000
    assert_eq!(plan.performance_fee, 1_000_000);
    assert_eq!(plan.state.anchor_deposited, 0);
}

#[test]
fn anchor_balance_values_receipt_tokens() {
    assert_eq!(get_anchor_balance(80_000_000, PCT150), 120_000_000);
    assert_eq!(get_anchor_balance(0, PCT150), 0);
}

#[test]
fn anchor_balance_without_fee_discounts_the_gain() {
    let state = State { anchor_deposited: 100_000_000, aterra_collateral: 0 };

    // 80,000,000 at 1.5 is 120,000,000; 5% of the 20,000,000 gain stays.
    assert_eq!(
        get_anchor_balance_without_fee(&state, 80_000_000, PCT150, PCT5),
        119_000_000
    );
    assert_eq!(
        get_anchor_balance_without_fee(&state, 0, PCT150, PCT5),
        0
    );
}

#[test]
fn compound_fee_takes_the_configured_cut() {
    assert_eq!(compound_performance_fee(12_500_000, PCT5), 625_000);
    assert_eq!(compound_performance_fee(0, PCT5), 0);
}

#[test]
fn swap_half_splits_an_amount() {
    assert_eq!(swap_half(100_000_000), 50_000_000);
    assert_eq!(swap_half(3), 1);
}

#[test]
fn open_short_books_the_collateral() {
    let state = open_short_state(&zero_state(), 40_000_000);

    assert_eq!(
        state,
        State { anchor_deposited: 0, aterra_collateral: 40_000_000 }
    );
}

#[test]
fn close_short_requires_a_short_position() {
    let state = State { anchor_deposited: 0, aterra_collateral: 40_000_000 };

    let res = close_short_plan(&state, false, 40_000_000).unwrap_err();
    assert_eq!(res, StrategyError::NotShortPosition);
    assert_eq!(res.message(), "Not short position");

    let res = close_short_plan(&state, true, 0).unwrap_err();
    assert_eq!(res, StrategyError::AlreadyClosed);
    assert_eq!(res.message(), "Already closed");

    let res = close_short_plan(&state, true, 50_000_000).unwrap_err();
    assert_eq!(res, StrategyError::Underflow);

    let out = close_short_plan(&state, true, 15_000_000).unwrap();
    assert_eq!(
        out,
        State { anchor_deposited: 0, aterra_collateral: 25_000_000 }
    );
}

#[test]
fn withdraw_to_vault_fails_if_amount_is_zero() {
    let res = withdraw_to_vault_amount(Some(0), 150_000_000).unwrap_err();

    assert_eq!(res, StrategyError::ZeroWithdraw);
    assert_eq!(res.message(), "cannot withdraw zero");
}

#[test]
fn withdraw_to_vault_fails_if_no_balance() {
    let res = withdraw_to_vault_amount(None, 0).unwrap_err();

    assert_eq!(res, StrategyError::ZeroWithdraw);
}

#[test]
fn withdraw_all_to_vault_if_amount_is_none() {
    assert_eq!(withdraw_to_vault_amount(None, 150_000_000).unwrap(), 150_000_000);
}

#[test]
fn lp_value_parts_are_proportional() {
    // A tenth of the liquidity supply carries a tenth of each side.
    let (stable, mirror) = get_lp_value_parts(300_000_000, 40_000_000, 100_000, 10_000);

    assert_eq!(stable, 30_000_000);
    assert_eq!(mirror, 4_000_000);
}

#[test]
fn lp_stake_matches_the_pool_ratio() {
    // pairing 2,000,000 tokens against a pool holding 7.5 stable per token
    assert_eq!(
        athena_vault::strategy::lp_stake_stable_amount(2_000_000, 300_000_000, 40_000_000),
        15_000_000
    );
}

#[test]
fn mirror_balance_counts_only_long_bonded_pools() {
    let long_pool = MirrorPoolSnapshot {
        bond_amount: 10_000,
        is_short: false,
        denom_balance: 300_000_000,
        m_asset_balance: 40_000_000,
        price: 7_500_000_000_000_000_000,  // 7.5 stable per mirror token
        lp_total_supply: 100_000,
    };
    let short_pool = MirrorPoolSnapshot { is_short: true, ..long_pool };
    let empty_pool = MirrorPoolSnapshot { bond_amount: 0, ..long_pool };

    // the pool is worth 40,000,000 * 7.5 + 300,000,000 = 600,000,000,
    // and a tenth of its liquidity is bonded
    let items = vec![long_pool, short_pool, empty_pool];
    assert_eq!(get_mirror_balance(&items), 60_000_000);

    let nothing: Vec<MirrorPoolSnapshot> = vec![];
    assert_eq!(get_mirror_balance(&nothing), 0);
}
