//! Fixed-point arithmetic of the underlying ledger.
//!
//! Amounts are unsigned 128-bit integers; ratios are fixed-point decimals
//! with eighteen fractional digits, held as their raw numerator over
//! `DECIMAL_FRACTIONAL`.  Every product and every ratio truncates toward
//! zero, so value never rounds toward the party being paid.
use vstd::prelude::*;

verus! {

/// Denominator of the ledger's fixed-point decimals: `10^18` stands for 1.0.
pub const DECIMAL_FRACTIONAL: u128 = 1_000_000_000_000_000_000;

/// Raw fixed-point value of `numerator / denominator`, truncated.
pub open spec fn dec_ratio(numerator: int, denominator: int) -> int {
    (numerator * (DECIMAL_FRACTIONAL as int)) / denominator
}

/// Truncated product of an amount with a raw fixed-point decimal.
pub open spec fn mul_dec(amount: int, decimal: int) -> int {
    (amount * decimal) / (DECIMAL_FRACTIONAL as int)
}

/// `amount * (numerator / denominator)` with both truncations the ledger
/// performs: first the ratio is truncated to eighteen digits, then the
/// product is truncated to an integer amount.
pub open spec fn mul_dec_ratio(amount: int, numerator: int, denominator: int) -> int {
    mul_dec(amount, dec_ratio(numerator, denominator))
}

/// `amount * numerator / denominator` truncated once, at full width.
pub open spec fn mul_div(amount: int, numerator: int, denominator: int) -> int {
    (amount * numerator) / denominator
}

/// A ratio of at most one has a raw value of at most `DECIMAL_FRACTIONAL`,
/// and strictly below it when the ratio is strictly below one.
pub proof fn lemma_dec_ratio_le_one(numerator: int, denominator: int)
    requires
        0 <= numerator,
        0 < denominator,
    ensures
        numerator <= denominator ==> dec_ratio(numerator, denominator) <= DECIMAL_FRACTIONAL as int,
        numerator < denominator ==> dec_ratio(numerator, denominator) < DECIMAL_FRACTIONAL as int,
        0 <= dec_ratio(numerator, denominator),
{
    let e = DECIMAL_FRACTIONAL as int;
    if numerator <= denominator {
        vstd::arithmetic::mul::lemma_mul_inequality(numerator, denominator, e);
        vstd::arithmetic::div_mod::lemma_multiply_divide_le(numerator * e, denominator, e);
    }
    if numerator < denominator {
        vstd::arithmetic::mul::lemma_mul_strict_inequality(numerator, denominator, e);
        vstd::arithmetic::div_mod::lemma_multiply_divide_lt(numerator * e, denominator, e);
    }
    vstd::arithmetic::mul::lemma_mul_nonnegative(numerator, e);
    vstd::arithmetic::div_mod::lemma_div_pos_is_pos(numerator * e, denominator);
}

/// Multiplying by a decimal of at most one never increases an amount.
pub proof fn lemma_mul_dec_le(amount: int, decimal: int)
    requires
        0 <= amount,
        0 <= decimal <= DECIMAL_FRACTIONAL as int,
    ensures
        0 <= mul_dec(amount, decimal) <= amount,
{
    let e = DECIMAL_FRACTIONAL as int;
    vstd::arithmetic::mul::lemma_mul_inequality(decimal, e, amount);
    vstd::arithmetic::mul::lemma_mul_is_commutative(amount, decimal);
    vstd::arithmetic::mul::lemma_mul_is_commutative(amount, e);
    vstd::arithmetic::div_mod::lemma_multiply_divide_le(amount * decimal, e, amount);
    vstd::arithmetic::mul::lemma_mul_nonnegative(amount, decimal);
    vstd::arithmetic::div_mod::lemma_div_pos_is_pos(amount * decimal, e);
}

/// A proportional cut of a pool never exceeds the pool: taking
/// `share / total_share` of `pool` with `share <= total_share` stays
/// within `pool`.
pub proof fn lemma_mul_dec_ratio_le(pool: int, share: int, total_share: int)
    requires
        0 <= pool,
        0 <= share <= total_share,
        0 < total_share,
    ensures
        0 <= mul_dec_ratio(pool, share, total_share) <= pool,
{
    lemma_dec_ratio_le_one(share, total_share);
    lemma_mul_dec_le(pool, dec_ratio(share, total_share));
}

/// Shrinking a ratio below one by the same amount on both sides never
/// raises its raw value: `(s - c) / (t - c) <= s / t` for `c <= s < t`.
pub proof fn lemma_dec_ratio_shrink(s: int, t: int, c: int)
    requires
        0 <= c <= s < t,
    ensures
        dec_ratio(s - c, t - c) <= dec_ratio(s, t),
{
    let e = DECIMAL_FRACTIONAL as int;
    let q = dec_ratio(s, t);
    vstd::arithmetic::div_mod::lemma_fundamental_div_mod(s * e, t);
    vstd::arithmetic::div_mod::lemma_mod_division_less_than_divisor(s * e, t);
    assert(s * e < t * (q + 1)) by {
        vstd::arithmetic::mul::lemma_mul_is_distributive_add(t, q, 1);
        vstd::arithmetic::mul::lemma_mul_basics(t);
    }
    lemma_dec_ratio_le_one(s, t);
    assert(c * (q + 1) <= c * e) by {
        vstd::arithmetic::mul::lemma_mul_inequality(q + 1, e, c);
        vstd::arithmetic::mul::lemma_mul_is_commutative(c, q + 1);
        vstd::arithmetic::mul::lemma_mul_is_commutative(c, e);
    }
    assert((s - c) * e == s * e - c * e) by {
        vstd::arithmetic::mul::lemma_mul_is_distributive_sub_other_way(e, s, c);
    }
    assert((t - c) * (q + 1) == t * (q + 1) - c * (q + 1)) by {
        vstd::arithmetic::mul::lemma_mul_is_distributive_sub_other_way(q + 1, t, c);
    }
    assert((s - c) * e < (t - c) * (q + 1));
    vstd::arithmetic::mul::lemma_mul_is_commutative(t - c, q + 1);
    vstd::arithmetic::div_mod::lemma_multiply_divide_lt((s - c) * e, t - c, q + 1);
}

/// A larger decimal never yields a smaller truncated product.
pub proof fn lemma_mul_dec_monotone(amount: int, small: int, large: int)
    requires
        0 <= amount,
        small <= large,
    ensures
        mul_dec(amount, small) <= mul_dec(amount, large),
{
    vstd::arithmetic::mul::lemma_mul_inequality(small, large, amount);
    vstd::arithmetic::mul::lemma_mul_is_commutative(amount, small);
    vstd::arithmetic::mul::lemma_mul_is_commutative(amount, large);
    vstd::arithmetic::div_mod::lemma_div_is_ordered(
        amount * small,
        amount * large,
        DECIMAL_FRACTIONAL as int,
    );
}

/// A product of nonnegative amounts with a nonnegative ratio is
/// nonnegative.
pub proof fn lemma_mul_dec_ratio_nonneg(amount: int, numerator: int, denominator: int)
    requires
        0 <= amount,
        0 <= numerator,
        0 < denominator,
    ensures
        0 <= mul_dec_ratio(amount, numerator, denominator),
{
    let e = DECIMAL_FRACTIONAL as int;
    vstd::arithmetic::mul::lemma_mul_nonnegative(numerator, e);
    vstd::arithmetic::div_mod::lemma_div_pos_is_pos(numerator * e, denominator);
    vstd::arithmetic::mul::lemma_mul_nonnegative(amount, dec_ratio(numerator, denominator));
    vstd::arithmetic::div_mod::lemma_div_pos_is_pos(amount * dec_ratio(numerator, denominator), e);
}

/// Relies on `cosmwasm_std::Decimal::from_ratio` and the
/// `Uint128 * Decimal` multiplication: `from_ratio` computes
/// `numerator * 10^18 / denominator` truncated (panicking on a zero
/// denominator or on a result beyond `u128`), and the product divides by
/// `10^18`, truncated again (panicking beyond `u128`).
#[verifier::external_body]
pub(crate) fn mul_decimal_from_ratio(amount: u128, numerator: u128, denominator: u128) -> (r: u128)
    requires
        denominator != 0,
        dec_ratio(numerator as int, denominator as int) <= u128::MAX,
        mul_dec_ratio(amount as int, numerator as int, denominator as int) <= u128::MAX,
    ensures
        r == mul_dec_ratio(amount as int, numerator as int, denominator as int),
{
    (cosmwasm_std::Uint128::new(amount)
        * cosmwasm_std::Decimal::from_ratio(numerator, denominator)).u128()
}

/// Relies on `cosmwasm_std::Uint128::multiply_ratio`: computes
/// `amount * numerator / denominator` over a 256-bit intermediate,
/// truncated, panicking on a zero denominator or on a result beyond
/// `u128`.
#[verifier::external_body]
pub(crate) fn multiply_ratio(amount: u128, numerator: u128, denominator: u128) -> (r: u128)
    requires
        denominator != 0,
        mul_div(amount as int, numerator as int, denominator as int) <= u128::MAX,
    ensures
        r == mul_div(amount as int, numerator as int, denominator as int),
{
    cosmwasm_std::Uint128::new(amount).multiply_ratio(numerator, denominator).u128()
}

} // verus!
