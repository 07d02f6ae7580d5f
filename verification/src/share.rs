//! Share valuation: how much of the pooled balance a given share is
//! worth, and how that value splits into principal and yield.
use vstd::prelude::*;

use crate::math::{
    lemma_dec_ratio_le_one, lemma_mul_dec_ratio_le, mul_dec_ratio, mul_decimal_from_ratio,
};
use crate::state::{DepositInfo, State};

verus! {

/// Value of `share` against a pool of `total_share` shares backed by
/// `total_balance` net of `total_subsidized`.  A degenerate pool (no
/// shares, or a balance below the subsidized amount) is worth nothing;
/// a share covering the whole pool takes the entire net balance, so the
/// last claimant loses no dust; otherwise the share takes its truncated
/// proportion of the net balance.
pub open spec fn spec_balance_by_share(
    total_share: int,
    total_subsidized: int,
    total_balance: int,
    share: int,
) -> int {
    if total_share == 0 || total_balance < total_subsidized {
        0
    } else if share >= total_share {
        total_balance - total_subsidized
    } else {
        mul_dec_ratio(total_balance - total_subsidized, share, total_share)
    }
}

/// A share is never worth more than the net pool backing it.
pub proof fn lemma_balance_by_share_le_net(
    total_share: int,
    total_subsidized: int,
    total_balance: int,
    share: int,
)
    requires
        0 <= total_share,
        0 <= total_subsidized,
        0 <= total_balance,
        0 <= share,
    ensures
        0 <= spec_balance_by_share(total_share, total_subsidized, total_balance, share),
        total_balance >= total_subsidized ==> spec_balance_by_share(
            total_share,
            total_subsidized,
            total_balance,
            share,
        ) <= total_balance - total_subsidized,
{
    if total_share != 0 && total_balance >= total_subsidized && share < total_share {
        lemma_mul_dec_ratio_le(total_balance - total_subsidized, share, total_share);
    }
}

/// Worth of `share` against the current pool, by the rule of
/// `spec_balance_by_share`.
pub fn get_balance_by_share(state: &State, total_balance: u128, share: u128) -> (r: u128)
    ensures
        r == spec_balance_by_share(
            state.total_share as int,
            state.total_subsidized as int,
            total_balance as int,
            share as int,
        ),
        r <= total_balance,
{
    if state.total_share == 0 || total_balance < state.total_subsidized {
        0
    } else if share >= state.total_share {
        total_balance - state.total_subsidized
    } else {
        let net = total_balance - state.total_subsidized;
        proof {
            lemma_dec_ratio_le_one(share as int, state.total_share as int);
            lemma_mul_dec_ratio_le(net as int, share as int, state.total_share as int);
        }
        mul_decimal_from_ratio(net, share, state.total_share)
    }
}

/// Current value of the position held by `deposit_info`, together with
/// the absolute difference to its principal.  The last component tells
/// whether that difference is a loss (value below principal) rather than
/// a yield.
pub fn get_updated_yield(state: &State, deposit_info: &DepositInfo, total_balance: u128) -> (r: (
    u128,
    u128,
    bool,
))
    ensures
        r.0 == spec_balance_by_share(
            state.total_share as int,
            state.total_subsidized as int,
            total_balance as int,
            deposit_info.share as int,
        ),
        r.2 == (r.0 < deposit_info.principal),
        r.1 == if r.2 {
            deposit_info.principal - r.0
        } else {
            r.0 - deposit_info.principal
        },
{
    let amount = get_balance_by_share(state, total_balance, deposit_info.share);
    if amount >= deposit_info.principal {
        (amount, amount - deposit_info.principal, false)
    } else {
        (amount, deposit_info.principal - amount, true)
    }
}

} // verus!
