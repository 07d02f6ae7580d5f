//! The ledger's transfer tax.
//!
//! Outbound transfers of the stable asset are taxed by the chain: the
//! tax is the part of the sent amount that exceeds its value discounted
//! by the tax rate, capped at a fixed amount per transfer.  Payout tests
//! assert figures net of this tax, so the rule is part of the library.
use vstd::prelude::*;

use crate::math::{mul_div, multiply_ratio, DECIMAL_FRACTIONAL};

verus! {

/// Tax charged on a transfer of `amount`, with `tax_rate` as a raw
/// fixed-point decimal and `tax_cap` an absolute bound:
/// `min(amount - amount / (1 + tax_rate), tax_cap)`, where the division
/// truncates.
pub open spec fn spec_compute_tax(amount: int, tax_rate: int, tax_cap: int) -> int {
    let kept = mul_div(amount, DECIMAL_FRACTIONAL as int, (DECIMAL_FRACTIONAL + tax_rate) as int);
    let tax = amount - kept;
    if tax < tax_cap {
        tax
    } else {
        tax_cap
    }
}

/// Computes the transfer tax, as `spec_compute_tax` says.
pub fn compute_tax(amount: u128, tax_rate: u128, tax_cap: u128) -> (r: u128)
    requires
        DECIMAL_FRACTIONAL + tax_rate <= u128::MAX,
    ensures
        r == spec_compute_tax(amount as int, tax_rate as int, tax_cap as int),
        r <= amount,
{
    let denominator = DECIMAL_FRACTIONAL + tax_rate;
    proof {
        vstd::arithmetic::mul::lemma_mul_inequality(
            DECIMAL_FRACTIONAL as int,
            denominator as int,
            amount as int,
        );
        vstd::arithmetic::mul::lemma_mul_is_commutative(amount as int, denominator as int);
        vstd::arithmetic::mul::lemma_mul_is_commutative(amount as int, DECIMAL_FRACTIONAL as int);
        vstd::arithmetic::div_mod::lemma_multiply_divide_le(
            amount * DECIMAL_FRACTIONAL,
            denominator as int,
            amount as int,
        );
        vstd::arithmetic::mul::lemma_mul_nonnegative(amount as int, DECIMAL_FRACTIONAL as int);
        vstd::arithmetic::div_mod::lemma_div_pos_is_pos(
            amount * DECIMAL_FRACTIONAL,
            denominator as int,
        );
    }
    let kept = multiply_ratio(amount, DECIMAL_FRACTIONAL, denominator);
    let tax = amount - kept;
    if tax < tax_cap {
        tax
    } else {
        tax_cap
    }
}

/// What actually arrives from a transfer of `amount`: the amount less
/// its tax.
pub fn deduct_tax(amount: u128, tax_rate: u128, tax_cap: u128) -> (r: u128)
    requires
        DECIMAL_FRACTIONAL + tax_rate <= u128::MAX,
    ensures
        r == amount - spec_compute_tax(amount as int, tax_rate as int, tax_cap as int),
{
    let tax = compute_tax(amount, tax_rate, tax_cap);
    amount - tax
}

} // verus!
