//! The yield strategy's accounting: what it has deposited into the
//! money market, what it holds as short collateral, and the arithmetic
//! of valuing and unwinding those positions.
//!
//! The strategy's protocol traffic (swaps, staking, redeeming) is the
//! host's business; the decisions and the exact amounts are computed
//! here from the balances, rates and prices the host reports.
use vstd::prelude::*;

use crate::math::{dec_ratio, lemma_dec_ratio_le_one, lemma_mul_dec_le, lemma_mul_dec_ratio_le,
    mul_dec, mul_dec_ratio, mul_decimal_from_ratio, DECIMAL_FRACTIONAL};

verus! {

/// Half, as a raw fixed-point decimal.
pub const HALF: u128 = 500_000_000_000_000_000;

/// Strategy bookkeeping, touched by deposits into and redemptions from
/// the money market and by short positions.
#[derive(Clone, Copy, Debug, PartialEq, Eq, Structural)]
pub struct State {
    /// Stable value deposited into the money market and not yet
    /// redeemed.
    pub anchor_deposited: u128,
    /// Money-market receipt tokens locked as short collateral.
    pub aterra_collateral: u128,
}

/// Queries the strategy answers.
#[derive(Clone, Debug)]
pub enum QueryMsg {
    /// The current configuration.
    Config {},
    /// The current strategy state.
    State {},
    /// The total stable value the strategy holds.
    TotalBalance {},
}

/// Migrations carry no payload.
#[derive(Clone, Debug)]
pub struct MigrateMsg {}

/// Reason a strategy operation was refused.
#[derive(Clone, Copy, Debug, PartialEq, Eq, Structural)]
pub enum StrategyError {
    /// The sender lacks the required privilege.
    Unauthorized,
    /// A zero amount cannot be deposited.
    ZeroAmount,
    /// A zero amount cannot be withdrawn.
    ZeroWithdraw,
    /// More receipt tokens than held cannot be redeemed.
    ExceedsDeposit,
    /// A performance fee above one was supplied.
    FeeTooHigh,
    /// The position is not a short position.
    NotShortPosition,
    /// The position's collateral is already gone.
    AlreadyClosed,
    /// A checked subtraction underflowed.
    Underflow,
}

impl StrategyError {
    /// The human-readable reason string reported to the caller.
    pub fn message(&self) -> (r: &'static str)
        ensures
            r@ == self.spec_message(),
    {
        match self {
            StrategyError::Unauthorized => "unauthorized",
            StrategyError::ZeroAmount => "Amount must be greater than zero",
            StrategyError::ZeroWithdraw => "cannot withdraw zero",
            StrategyError::ExceedsDeposit => "cannot withdraw more than deposit",
            StrategyError::FeeTooHigh => "Performance fee percentage must be less than 100%",
            StrategyError::NotShortPosition => "Not short position",
            StrategyError::AlreadyClosed => "Already closed",
            StrategyError::Underflow => "Underflow",
        }
    }

    /// The reason string, as a sequence of characters.
    pub open spec fn spec_message(&self) -> Seq<char> {
        match self {
            StrategyError::Unauthorized => "unauthorized"@,
            StrategyError::ZeroAmount => "Amount must be greater than zero"@,
            StrategyError::ZeroWithdraw => "cannot withdraw zero"@,
            StrategyError::ExceedsDeposit => "cannot withdraw more than deposit"@,
            StrategyError::FeeTooHigh => "Performance fee percentage must be less than 100%"@,
            StrategyError::NotShortPosition => "Not short position"@,
            StrategyError::AlreadyClosed => "Already closed"@,
            StrategyError::Underflow => "Underflow"@,
        }
    }
}

/// A performance fee is valid only up to 100%.
pub fn validate_performance_fee(performance_fee: u128) -> (r: Result<(), StrategyError>)
    ensures
        r is Ok <==> performance_fee <= DECIMAL_FRACTIONAL,
        r is Err ==> r == Err::<(), StrategyError>(StrategyError::FeeTooHigh),
{
    if performance_fee > DECIMAL_FRACTIONAL {
        Err(StrategyError::FeeTooHigh)
    } else {
        Ok(())
    }
}

/// Books a worker's deposit of stable value into the money market.
pub fn deposit_anchor(state: &State, is_worker: bool, amount: u128) -> (r: Result<
    State,
    StrategyError,
>)
    requires
        state.anchor_deposited + amount <= u128::MAX,
    ensures
        !is_worker ==> r == Err::<State, StrategyError>(StrategyError::Unauthorized),
        is_worker && amount == 0 ==> r == Err::<State, StrategyError>(StrategyError::ZeroAmount),
        is_worker && amount > 0 ==> r == Ok::<State, StrategyError>(
            State {
                anchor_deposited: (state.anchor_deposited + amount) as u128,
                aterra_collateral: state.aterra_collateral,
            },
        ),
{
    if !is_worker {
        return Err(StrategyError::Unauthorized);
    }
    if amount == 0 {
        return Err(StrategyError::ZeroAmount);
    }
    Ok(
        State {
            anchor_deposited: state.anchor_deposited + amount,
            aterra_collateral: state.aterra_collateral,
        },
    )
}

/// Stable value of a receipt-token balance at the money market's
/// exchange rate (a raw fixed-point decimal).
pub fn get_anchor_balance(aterra_balance: u128, exchange_rate: u128) -> (r: u128)
    requires
        mul_dec(aterra_balance as int, exchange_rate as int) <= u128::MAX,
    ensures
        r == mul_dec(aterra_balance as int, exchange_rate as int),
{
    if aterra_balance == 0 {
        proof {
            vstd::arithmetic::mul::lemma_mul_basics(exchange_rate as int);
        }
        0
    } else {
        proof {
            lemma_ratio_of_raw(exchange_rate as int);
        }
        mul_decimal_from_ratio(aterra_balance, exchange_rate, DECIMAL_FRACTIONAL)
    }
}

/// A raw decimal put over the full fractional denominator keeps its raw
/// value.
proof fn lemma_ratio_of_raw(raw: int)
    requires
        0 <= raw,
    ensures
        dec_ratio(raw, DECIMAL_FRACTIONAL as int) == raw,
{
    vstd::arithmetic::div_mod::lemma_div_multiples_vanish(raw, DECIMAL_FRACTIONAL as int);
    vstd::arithmetic::mul::lemma_mul_is_commutative(raw, DECIMAL_FRACTIONAL as int);
}

/// The fee owed on redeemed money-market value: the configured fraction
/// of the gain over what was originally deposited, and nothing on a
/// gain that is not there.
pub open spec fn spec_performance_fee(balance: int, deposited: int, performance_fee: int) -> int {
    if deposited < balance {
        mul_dec(balance - deposited, performance_fee)
    } else {
        0
    }
}

/// Stable value the strategy would realize from its whole receipt-token
/// holding after the performance fee.
pub fn get_anchor_balance_without_fee(
    state: &State,
    aterra_amount: u128,
    exchange_rate: u128,
    performance_fee: u128,
) -> (r: u128)
    requires
        performance_fee <= DECIMAL_FRACTIONAL,
        mul_dec(aterra_amount as int, exchange_rate as int) <= u128::MAX,
    ensures
        aterra_amount == 0 ==> r == 0,
        aterra_amount > 0 ==> {
            let balance = mul_dec(aterra_amount as int, exchange_rate as int);
            r == balance - spec_performance_fee(
                balance,
                state.anchor_deposited as int,
                performance_fee as int,
            )
        },
{
    if aterra_amount == 0 {
        return 0;
    }
    let anchor_balance = get_anchor_balance(aterra_amount, exchange_rate);
    let fee = if state.anchor_deposited < anchor_balance {
        proof {
            lemma_mul_dec_le(
                anchor_balance - state.anchor_deposited,
                performance_fee as int,
            );
        }
        let gain = anchor_balance - state.anchor_deposited;
        proof {
            lemma_ratio_of_raw(performance_fee as int);
        }
        mul_decimal_from_ratio(gain, performance_fee, DECIMAL_FRACTIONAL)
    } else {
        0
    };
    anchor_balance - fee
}

/// What a redemption from the money market works out to.
#[derive(Clone, Copy, Debug)]
pub struct RedeemPlan {
    /// Receipt tokens to redeem; zero means nothing is to be done.
    pub aterra_to_redeem: u128,
    /// Stable value those tokens are worth.
    pub redeem_value: u128,
    /// Fee owed to the treasury out of the realized gain.
    pub performance_fee: u128,
    /// The strategy state to persist.
    pub state: State,
}

/// Plans a redemption of `aterra_amount` receipt tokens (the whole
/// holding when `None`): values them at the exchange rate, attributes a
/// proportional part of the original deposit to them, takes the
/// performance fee on the gain over that part, and books the part off
/// the deposited total.
pub fn redeem_from_anchor(
    state: &State,
    aterra_amount: Option<u128>,
    aterra_balance: u128,
    exchange_rate: u128,
    performance_fee: u128,
) -> (r: Result<RedeemPlan, StrategyError>)
    requires
        performance_fee <= DECIMAL_FRACTIONAL,
        mul_dec(aterra_balance as int, exchange_rate as int) <= u128::MAX,
    ensures
        match r {
            Err(e) => {
                &&& e == StrategyError::ExceedsDeposit
                &&& aterra_amount matches Some(a) && a > aterra_balance
            },
            Ok(plan) => {
                let to_redeem: int = match aterra_amount {
                    Some(a) => a as int,
                    None => aterra_balance as int,
                };
                &&& to_redeem <= aterra_balance
                &&& plan.aterra_to_redeem == to_redeem
                &&& (to_redeem == 0 ==> plan.redeem_value == 0 && plan.performance_fee == 0
                    && plan.state == *state)
                &&& (to_redeem > 0 ==> {
                    let value = mul_dec(to_redeem, exchange_rate as int);
                    let original = mul_dec_ratio(
                        state.anchor_deposited as int,
                        to_redeem,
                        aterra_balance as int,
                    );
                    &&& plan.redeem_value == value
                    &&& plan.performance_fee == spec_performance_fee(
                        value,
                        original,
                        performance_fee as int,
                    )
                    &&& plan.state == (State {
                        anchor_deposited: (state.anchor_deposited - original) as u128,
                        aterra_collateral: state.aterra_collateral,
                    })
                })
            },
        },
{
    let to_redeem = match aterra_amount {
        Some(a) => a,
        None => aterra_balance,
    };
    if to_redeem > aterra_balance {
        return Err(StrategyError::ExceedsDeposit);
    }
    if to_redeem == 0 {
        return Ok(
            RedeemPlan { aterra_to_redeem: 0, redeem_value: 0, performance_fee: 0, state: *state },
        );
    }
    proof {
        vstd::arithmetic::mul::lemma_mul_inequality(
            to_redeem as int,
            aterra_balance as int,
            exchange_rate as int,
        );
        vstd::arithmetic::mul::lemma_mul_is_commutative(to_redeem as int, exchange_rate as int);
        vstd::arithmetic::mul::lemma_mul_is_commutative(aterra_balance as int, exchange_rate as int);
        vstd::arithmetic::div_mod::lemma_div_is_ordered(
            to_redeem * exchange_rate,
            aterra_balance * exchange_rate,
            DECIMAL_FRACTIONAL as int,
        );
        vstd::arithmetic::mul::lemma_mul_nonnegative(to_redeem as int, exchange_rate as int);
        vstd::arithmetic::div_mod::lemma_div_pos_is_pos(
            to_redeem * exchange_rate,
            DECIMAL_FRACTIONAL as int,
        );
        lemma_ratio_of_raw(exchange_rate as int);
        lemma_dec_ratio_le_one(to_redeem as int, aterra_balance as int);
        lemma_mul_dec_ratio_le(state.anchor_deposited as int, to_redeem as int, aterra_balance as int);
    }
    let value = mul_decimal_from_ratio(to_redeem, exchange_rate, DECIMAL_FRACTIONAL);
    let original = mul_decimal_from_ratio(state.anchor_deposited, to_redeem, aterra_balance);
    let fee = if original < value {
        proof {
            lemma_mul_dec_le(value - original, performance_fee as int);
            lemma_ratio_of_raw(performance_fee as int);
        }
        mul_decimal_from_ratio(value - original, performance_fee, DECIMAL_FRACTIONAL)
    } else {
        0
    };
    Ok(
        RedeemPlan {
            aterra_to_redeem: to_redeem,
            redeem_value: value,
            performance_fee: fee,
            state: State {
                anchor_deposited: state.anchor_deposited - original,
                aterra_collateral: state.aterra_collateral,
            },
        },
    )
}

/// Fee owed to the treasury when compounding a swap profit.
pub fn compound_performance_fee(profit: u128, performance_fee: u128) -> (r: u128)
    requires
        performance_fee <= DECIMAL_FRACTIONAL,
    ensures
        r == mul_dec(profit as int, performance_fee as int),
{
    proof {
        lemma_mul_dec_le(profit as int, performance_fee as int);
        lemma_ratio_of_raw(performance_fee as int);
    }
    mul_decimal_from_ratio(profit, performance_fee, DECIMAL_FRACTIONAL)
}

/// Half of an amount, as the ledger computes it: the amount times the
/// fixed-point decimal one half.
pub fn swap_half(amount: u128) -> (r: u128)
    ensures
        r == mul_dec(amount as int, HALF as int),
{
    proof {
        lemma_mul_dec_le(amount as int, HALF as int);
        lemma_ratio_of_raw(HALF as int);
    }
    mul_decimal_from_ratio(amount, HALF, DECIMAL_FRACTIONAL)
}

/// Books receipt tokens moved into short collateral.
pub fn open_short_state(state: &State, aterra_amount: u128) -> (r: State)
    requires
        state.aterra_collateral + aterra_amount <= u128::MAX,
    ensures
        r == (State {
            anchor_deposited: state.anchor_deposited,
            aterra_collateral: (state.aterra_collateral + aterra_amount) as u128,
        }),
{
    State {
        anchor_deposited: state.anchor_deposited,
        aterra_collateral: state.aterra_collateral + aterra_amount,
    }
}

/// Decides whether a position can be closed and books its collateral
/// out of the strategy state.
pub fn close_short_plan(state: &State, is_short: bool, collateral_amount: u128) -> (r: Result<
    State,
    StrategyError,
>)
    ensures
        !is_short ==> r == Err::<State, StrategyError>(StrategyError::NotShortPosition),
        is_short && collateral_amount == 0 ==> r == Err::<State, StrategyError>(
            StrategyError::AlreadyClosed,
        ),
        is_short && collateral_amount > 0 && collateral_amount > state.aterra_collateral ==> r
            == Err::<State, StrategyError>(StrategyError::Underflow),
        is_short && 0 < collateral_amount <= state.aterra_collateral ==> r == Ok::<
            State,
            StrategyError,
        >(
            State {
                anchor_deposited: state.anchor_deposited,
                aterra_collateral: (state.aterra_collateral - collateral_amount) as u128,
            },
        ),
{
    if !is_short {
        return Err(StrategyError::NotShortPosition);
    }
    if collateral_amount == 0 {
        return Err(StrategyError::AlreadyClosed);
    }
    match state.aterra_collateral.checked_sub(collateral_amount) {
        Some(rest) => Ok(
            State { anchor_deposited: state.anchor_deposited, aterra_collateral: rest },
        ),
        None => Err(StrategyError::Underflow),
    }
}

/// Amount a withdrawal to the vault pays out: the requested amount, or
/// the whole idle balance when none was requested; zero is refused.
pub fn withdraw_to_vault_amount(amount: Option<u128>, idle_balance: u128) -> (r: Result<
    u128,
    StrategyError,
>)
    ensures
        match r {
            Err(e) => {
                &&& e == StrategyError::ZeroWithdraw
                &&& (match amount {
                    Some(a) => a == 0,
                    None => idle_balance == 0,
                })
            },
            Ok(v) => v > 0 && v as int == (match amount {
                Some(a) => a as int,
                None => idle_balance as int,
            }),
        },
{
    let withdraw_amount = match amount {
        Some(a) => a,
        None => idle_balance,
    };
    if withdraw_amount == 0 {
        return Err(StrategyError::ZeroWithdraw);
    }
    Ok(withdraw_amount)
}

/// Stable amount to pair with `mirror_token_amount` when providing
/// liquidity: the tokens are valued at the pool's current ratio of
/// stable to paired-token balances.
pub fn lp_stake_stable_amount(
    mirror_token_amount: u128,
    pool_stable_balance: u128,
    pool_mirror_balance: u128,
) -> (r: u128)
    requires
        pool_mirror_balance != 0,
        dec_ratio(pool_stable_balance as int, pool_mirror_balance as int) <= u128::MAX,
        mul_dec_ratio(
            mirror_token_amount as int,
            pool_stable_balance as int,
            pool_mirror_balance as int,
        ) <= u128::MAX,
    ensures
        r == mul_dec_ratio(
            mirror_token_amount as int,
            pool_stable_balance as int,
            pool_mirror_balance as int,
        ),
{
    mul_decimal_from_ratio(mirror_token_amount, pool_stable_balance, pool_mirror_balance)
}

/// Everything needed to value one staked liquidity position: the
/// position itself and a snapshot of its pool.
#[derive(Clone, Copy, Debug)]
pub struct MirrorPoolSnapshot {
    /// Liquidity tokens the strategy has bonded in this pool.
    pub bond_amount: u128,
    /// Whether the position is a short position (not counted).
    pub is_short: bool,
    /// Stable balance held by the pool's pair contract.
    pub denom_balance: u128,
    /// Paired-token balance held by the pool's pair contract.
    pub m_asset_balance: u128,
    /// Oracle price of the paired token, as a raw fixed-point decimal.
    pub price: u128,
    /// Total supply of the pool's liquidity token.
    pub lp_total_supply: u128,
}

/// Stable value of one staked position: the pool's whole value in the
/// stable asset, cut down to the bonded fraction of the liquidity
/// supply.  Short or empty positions count nothing.
pub open spec fn spec_mirror_item(it: MirrorPoolSnapshot) -> int {
    if it.bond_amount == 0 || it.is_short {
        0
    } else {
        let pool_value = mul_dec(it.m_asset_balance as int, it.price as int) + it.denom_balance;
        mul_dec_ratio(pool_value, it.bond_amount as int, it.lp_total_supply as int)
    }
}

/// Stable value of all staked positions together.
pub open spec fn spec_mirror_balance(items: Seq<MirrorPoolSnapshot>) -> int
    decreases items.len(),
{
    if items.len() == 0 {
        0
    } else {
        spec_mirror_item(items[0]) + spec_mirror_balance(items.skip(1))
    }
}

/// The products of valuing one position stay within the ledger's range.
pub open spec fn mirror_item_fits(it: MirrorPoolSnapshot) -> bool {
    !(it.bond_amount == 0 || it.is_short) ==> {
        let pool_value = mul_dec(it.m_asset_balance as int, it.price as int) + it.denom_balance;
        &&& mul_dec(it.m_asset_balance as int, it.price as int) <= u128::MAX
        &&& pool_value <= u128::MAX
        &&& it.lp_total_supply != 0
        &&& dec_ratio(it.bond_amount as int, it.lp_total_supply as int) <= u128::MAX
        &&& mul_dec_ratio(pool_value, it.bond_amount as int, it.lp_total_supply as int)
            <= u128::MAX
    }
}

/// Every position's products, and the running total, stay within the
/// ledger's range.
pub open spec fn mirror_balance_fits(items: Seq<MirrorPoolSnapshot>) -> bool
    decreases items.len(),
{
    items.len() == 0 || {
        &&& mirror_item_fits(items[0])
        &&& mirror_balance_fits(items.skip(1))
        &&& spec_mirror_balance(items) <= u128::MAX
    }
}

proof fn lemma_mirror_item_nonneg(it: MirrorPoolSnapshot)
    requires
        mirror_item_fits(it),
    ensures
        0 <= spec_mirror_item(it),
{
    if !(it.bond_amount == 0 || it.is_short) {
        let e = DECIMAL_FRACTIONAL as int;
        vstd::arithmetic::mul::lemma_mul_nonnegative(it.m_asset_balance as int, it.price as int);
        vstd::arithmetic::div_mod::lemma_div_pos_is_pos(
            (it.m_asset_balance as int) * (it.price as int),
            e,
        );
        let pool_value = mul_dec(it.m_asset_balance as int, it.price as int) + it.denom_balance;
        let ratio = dec_ratio(it.bond_amount as int, it.lp_total_supply as int);
        vstd::arithmetic::mul::lemma_mul_nonnegative(it.bond_amount as int, e);
        vstd::arithmetic::div_mod::lemma_div_pos_is_pos(
            (it.bond_amount as int) * e,
            it.lp_total_supply as int,
        );
        vstd::arithmetic::mul::lemma_mul_nonnegative(pool_value, ratio);
        vstd::arithmetic::div_mod::lemma_div_pos_is_pos(pool_value * ratio, e);
    }
}

proof fn lemma_mirror_balance_nonneg(items: Seq<MirrorPoolSnapshot>)
    requires
        mirror_balance_fits(items),
    ensures
        0 <= spec_mirror_balance(items),
    decreases items.len(),
{
    if items.len() > 0 {
        lemma_mirror_item_nonneg(items[0]);
        lemma_mirror_balance_nonneg(items.skip(1));
    }
}

/// Sums the stable value of the staked positions, as
/// `spec_mirror_balance` says.
pub fn get_mirror_balance(items: &Vec<MirrorPoolSnapshot>) -> (r: u128)
    requires
        mirror_balance_fits(items@),
    ensures
        r == spec_mirror_balance(items@),
{
    proof {
        lemma_mirror_balance_nonneg(items@);
        assert(items@.skip(0) =~= items@);
    }
    let mut total: u128 = 0;
    let mut i: usize = 0;
    while i < items.len()
        invariant
            0 <= i <= items@.len(),
            mirror_balance_fits(items@.skip(i as int)),
            total + spec_mirror_balance(items@.skip(i as int)) == spec_mirror_balance(items@),
            spec_mirror_balance(items@) <= u128::MAX,
        decreases items@.len() - i,
    {
        proof {
            assert(items@.skip(i as int)[0] == items@[i as int]);
            assert(items@.skip(i as int).skip(1) =~= items@.skip(i as int + 1));
            lemma_mirror_balance_nonneg(items@.skip(i as int + 1));
            lemma_mirror_item_nonneg(items@[i as int]);
        }
        let it = &items[i];
        if it.bond_amount != 0 && !it.is_short {
            proof {
                lemma_ratio_of_raw(it.price as int);
            }
            let mirror_value = mul_decimal_from_ratio(it.m_asset_balance, it.price,
                DECIMAL_FRACTIONAL);
            let pool_value = mirror_value + it.denom_balance;
            let staked = mul_decimal_from_ratio(pool_value, it.bond_amount, it.lp_total_supply);
            total = total + staked;
        }
        i += 1;
    }
    total
}

/// Proportional stable value and paired-token amount carried by
/// `amount` of a liquidity pool's `lp_supply` tokens.
pub fn get_lp_value_parts(
    pool_stable: u128,
    pool_mirror: u128,
    lp_supply: u128,
    amount: u128,
) -> (r: (u128, u128))
    requires
        lp_supply != 0,
        dec_ratio(amount as int, lp_supply as int) <= u128::MAX,
        mul_dec_ratio(pool_stable as int, amount as int, lp_supply as int) <= u128::MAX,
        mul_dec_ratio(pool_mirror as int, amount as int, lp_supply as int) <= u128::MAX,
    ensures
        r.0 == mul_dec_ratio(pool_stable as int, amount as int, lp_supply as int),
        r.1 == mul_dec_ratio(pool_mirror as int, amount as int, lp_supply as int),
{
    let stable_value = mul_decimal_from_ratio(pool_stable, amount, lp_supply);
    let mirror_amount = mul_decimal_from_ratio(pool_mirror, amount, lp_supply);
    (stable_value, mirror_amount)
}

} // verus!
