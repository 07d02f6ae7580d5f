//! Separate claiming of yield and principal, without fully exiting a
//! position.
//!
//! While principal is still unclaimed, a claim draws on the position's
//! share: the paid amount is detached from the share pool by cutting the
//! depositor's share (and the total) by the fraction of the net pool it
//! represents.  Once principal has been fully claimed the position holds
//! no share, and yield is instead drawn from the subsidized pool.
use vstd::prelude::*;

use crate::error::VaultError;
use crate::math::{lemma_dec_ratio_le_one, lemma_mul_dec_ratio_le, mul_dec_ratio,
    mul_decimal_from_ratio};
use crate::share::{get_updated_yield, lemma_balance_by_share_le_net, spec_balance_by_share};
use crate::state::{DepositInfo, State};

verus! {

/// What a successful claim persists and pays out.
#[derive(Clone, Copy, Debug)]
pub struct ClaimOutcome {
    /// The vault state to persist.
    pub state: State,
    /// The depositor's record to persist.
    pub deposit_info: DepositInfo,
    /// The amount to transfer to the depositor.
    pub payout: u128,
}

/// The whole claim-yield rule.  A still-share-backed position must show
/// a fresh yield strictly beyond what was already claimed (a loss, or
/// nothing new, is refused as a loss); a share-less position pays out of
/// the subsidized pool instead.  The payout is the entire refreshed
/// yield, booked cumulatively into `yield_claimed`.
pub open spec fn spec_claim_yield(
    state: State,
    info: DepositInfo,
    now: int,
    total_balance: int,
    vault_balance: int,
) -> Result<ClaimOutcome, VaultError> {
    if info.maturity > now {
        Err(VaultError::StillLocked)
    } else {
        let is_principal_unclaimed = info.principal_claimed < info.principal;
        let amount = spec_balance_by_share(
            state.total_share as int,
            state.total_subsidized as int,
            total_balance,
            info.share as int,
        );
        let loss = amount < info.principal;
        let refreshed_yield = amount - info.principal;
        if is_principal_unclaimed && (loss || refreshed_yield <= info.yield_claimed) {
            Err(VaultError::Loss)
        } else {
            let claimable: int = if is_principal_unclaimed {
                refreshed_yield
            } else {
                info.yield_amount as int
            };
            if claimable <= info.yield_claimed {
                Err(VaultError::NothingToClaim)
            } else if claimable > vault_balance {
                Err(VaultError::Insufficient)
            } else {
                let new_yield_claimed = info.yield_claimed + claimable;
                if is_principal_unclaimed {
                    let net = total_balance - state.total_subsidized;
                    let claimable_share = mul_dec_ratio(
                        state.total_share as int,
                        claimable,
                        net,
                    );
                    if claimable_share > info.share {
                        Err(VaultError::Underflow)
                    } else {
                        Ok(
                            ClaimOutcome {
                                state: State {
                                    total_share: (state.total_share - claimable_share) as u128,
                                    total_subsidized: state.total_subsidized,
                                },
                                deposit_info: DepositInfo {
                                    principal: info.principal,
                                    current_amount: (amount - claimable) as u128,
                                    share: (info.share - claimable_share) as u128,
                                    maturity: info.maturity,
                                    yield_amount: refreshed_yield as u128,
                                    yield_claimed: new_yield_claimed as u128,
                                    principal_claimed: info.principal_claimed,
                                },
                                payout: claimable as u128,
                            },
                        )
                    }
                } else {
                    if claimable > state.total_subsidized {
                        Err(VaultError::Underflow)
                    } else {
                        Ok(
                            ClaimOutcome {
                                state: State {
                                    total_share: state.total_share,
                                    total_subsidized: (state.total_subsidized
                                        - claimable) as u128,
                                },
                                deposit_info: DepositInfo {
                                    principal: info.principal,
                                    current_amount: info.current_amount,
                                    share: info.share,
                                    maturity: info.maturity,
                                    yield_amount: info.yield_amount,
                                    yield_claimed: new_yield_claimed as u128,
                                    principal_claimed: info.principal_claimed,
                                },
                                payout: claimable as u128,
                            },
                        )
                    }
                }
            }
        }
    }
}

/// The cumulative yield counter stays within the ledger's range.
pub open spec fn claim_yield_fits(
    state: State,
    info: DepositInfo,
    now: int,
    total_balance: int,
    vault_balance: int,
) -> bool {
    let is_principal_unclaimed = info.principal_claimed < info.principal;
    let amount = spec_balance_by_share(
        state.total_share as int,
        state.total_subsidized as int,
        total_balance,
        info.share as int,
    );
    let loss = amount < info.principal;
    let refreshed_yield = amount - info.principal;
    let claimable: int = if is_principal_unclaimed {
        refreshed_yield
    } else {
        info.yield_amount as int
    };
    let reach = {
        &&& info.maturity <= now
        &&& (is_principal_unclaimed ==> !loss && refreshed_yield > info.yield_claimed)
        &&& claimable > info.yield_claimed
        &&& claimable <= vault_balance
    };
    reach ==> info.yield_claimed + claimable <= u128::MAX
}

/// Pays out the position's yield, as `spec_claim_yield` says.
pub fn claim_yield(
    state: &State,
    deposit_info: &DepositInfo,
    now: u64,
    total_balance: u128,
    vault_balance: u128,
) -> (r: Result<ClaimOutcome, VaultError>)
    requires
        deposit_info.principal_claimed <= deposit_info.principal,
        claim_yield_fits(
            *state,
            *deposit_info,
            now as int,
            total_balance as int,
            vault_balance as int,
        ),
    ensures
        r == spec_claim_yield(
            *state,
            *deposit_info,
            now as int,
            total_balance as int,
            vault_balance as int,
        ),
        now < deposit_info.maturity <==> r == Err::<ClaimOutcome, VaultError>(
            VaultError::StillLocked,
        ),
{
    if deposit_info.maturity > now {
        return Err(VaultError::StillLocked);
    }
    let is_principal_unclaimed = deposit_info.principal - deposit_info.principal_claimed > 0;
    let mut current_amount = deposit_info.current_amount;
    let mut yield_amount = deposit_info.yield_amount;
    if is_principal_unclaimed {
        let (amount, fresh_yield, loss) = get_updated_yield(state, deposit_info, total_balance);
        if loss || fresh_yield <= deposit_info.yield_claimed {
            return Err(VaultError::Loss);
        }
        current_amount = amount;
        yield_amount = fresh_yield;
    }
    let claimable = yield_amount;
    if claimable <= deposit_info.yield_claimed {
        return Err(VaultError::NothingToClaim);
    }
    if claimable > vault_balance {
        return Err(VaultError::Insufficient);
    }
    let new_yield_claimed = deposit_info.yield_claimed + claimable;
    if is_principal_unclaimed {
        proof {
            lemma_balance_by_share_le_net(
                state.total_share as int,
                state.total_subsidized as int,
                total_balance as int,
                deposit_info.share as int,
            );
            lemma_dec_ratio_le_one(claimable as int, total_balance - state.total_subsidized);
            lemma_mul_dec_ratio_le(
                state.total_share as int,
                claimable as int,
                total_balance - state.total_subsidized,
            );
        }
        let new_current = current_amount - claimable;
        let net = total_balance - state.total_subsidized;
        let claimable_share = mul_decimal_from_ratio(state.total_share, claimable, net);
        let new_share = match deposit_info.share.checked_sub(claimable_share) {
            Some(v) => v,
            None => {
                return Err(VaultError::Underflow);
            },
        };
        Ok(
            ClaimOutcome {
                state: State {
                    total_share: state.total_share - claimable_share,
                    total_subsidized: state.total_subsidized,
                },
                deposit_info: DepositInfo {
                    principal: deposit_info.principal,
                    current_amount: new_current,
                    share: new_share,
                    maturity: deposit_info.maturity,
                    yield_amount,
                    yield_claimed: new_yield_claimed,
                    principal_claimed: deposit_info.principal_claimed,
                },
                payout: claimable,
            },
        )
    } else {
        let new_total_subsidized = match state.total_subsidized.checked_sub(claimable) {
            Some(v) => v,
            None => {
                return Err(VaultError::Underflow);
            },
        };
        Ok(
            ClaimOutcome {
                state: State {
                    total_share: state.total_share,
                    total_subsidized: new_total_subsidized,
                },
                deposit_info: DepositInfo {
                    principal: deposit_info.principal,
                    current_amount: deposit_info.current_amount,
                    share: deposit_info.share,
                    maturity: deposit_info.maturity,
                    yield_amount: deposit_info.yield_amount,
                    yield_claimed: new_yield_claimed,
                    principal_claimed: deposit_info.principal_claimed,
                },
                payout: claimable,
            },
        )
    }
}

/// The whole claim-principal rule: a matured, still-unclaimed position
/// whose refreshed value shows a strictly new yield pays out its entire
/// principal, cutting its share by the fraction of the net pool the
/// principal represents.
pub open spec fn spec_claim_principal(
    state: State,
    info: DepositInfo,
    now: int,
    total_balance: int,
    vault_balance: int,
) -> Result<ClaimOutcome, VaultError> {
    if info.maturity > now {
        Err(VaultError::StillLocked)
    } else if info.principal_claimed == info.principal {
        Err(VaultError::PrincipalAlreadyClaimed)
    } else {
        let amount = spec_balance_by_share(
            state.total_share as int,
            state.total_subsidized as int,
            total_balance,
            info.share as int,
        );
        let loss = amount < info.principal;
        let refreshed_yield = amount - info.principal;
        if loss || refreshed_yield <= info.yield_claimed {
            Err(VaultError::Loss)
        } else {
            let claimable = info.principal as int;
            if claimable > vault_balance {
                Err(VaultError::Insufficient)
            } else {
                let net = total_balance - state.total_subsidized;
                let claimable_share = mul_dec_ratio(state.total_share as int, claimable, net);
                if claimable_share > info.share {
                    Err(VaultError::Underflow)
                } else {
                    Ok(
                        ClaimOutcome {
                            state: State {
                                total_share: (state.total_share - claimable_share) as u128,
                                total_subsidized: state.total_subsidized,
                            },
                            deposit_info: DepositInfo {
                                principal: info.principal,
                                current_amount: (amount - claimable) as u128,
                                share: (info.share - claimable_share) as u128,
                                maturity: info.maturity,
                                yield_amount: refreshed_yield as u128,
                                yield_claimed: info.yield_claimed,
                                principal_claimed: (info.principal_claimed + claimable) as u128,
                            },
                            payout: claimable as u128,
                        },
                    )
                }
            }
        }
    }
}

/// The cumulative principal counter stays within the ledger's range.
pub open spec fn claim_principal_fits(
    state: State,
    info: DepositInfo,
    now: int,
    total_balance: int,
    vault_balance: int,
) -> bool {
    let amount = spec_balance_by_share(
        state.total_share as int,
        state.total_subsidized as int,
        total_balance,
        info.share as int,
    );
    let loss = amount < info.principal;
    let refreshed_yield = amount - info.principal;
    let reach = {
        &&& info.maturity <= now
        &&& info.principal_claimed < info.principal
        &&& !(loss || refreshed_yield <= info.yield_claimed)
        &&& info.principal <= vault_balance
    };
    reach ==> info.principal_claimed + info.principal <= u128::MAX
}

/// Pays out the position's principal, as `spec_claim_principal` says.
pub fn claim_principal(
    state: &State,
    deposit_info: &DepositInfo,
    now: u64,
    total_balance: u128,
    vault_balance: u128,
) -> (r: Result<ClaimOutcome, VaultError>)
    requires
        deposit_info.principal_claimed <= deposit_info.principal,
        claim_principal_fits(
            *state,
            *deposit_info,
            now as int,
            total_balance as int,
            vault_balance as int,
        ),
    ensures
        r == spec_claim_principal(
            *state,
            *deposit_info,
            now as int,
            total_balance as int,
            vault_balance as int,
        ),
        now < deposit_info.maturity <==> r == Err::<ClaimOutcome, VaultError>(
            VaultError::StillLocked,
        ),
{
    if deposit_info.maturity > now {
        return Err(VaultError::StillLocked);
    }
    if deposit_info.principal - deposit_info.principal_claimed == 0 {
        return Err(VaultError::PrincipalAlreadyClaimed);
    }
    let (amount, fresh_yield, loss) = get_updated_yield(state, deposit_info, total_balance);
    if loss || fresh_yield <= deposit_info.yield_claimed {
        return Err(VaultError::Loss);
    }
    let claimable = deposit_info.principal;
    if claimable > vault_balance {
        return Err(VaultError::Insufficient);
    }
    proof {
        lemma_balance_by_share_le_net(
            state.total_share as int,
            state.total_subsidized as int,
            total_balance as int,
            deposit_info.share as int,
        );
        lemma_dec_ratio_le_one(claimable as int, total_balance - state.total_subsidized);
        lemma_mul_dec_ratio_le(
            state.total_share as int,
            claimable as int,
            total_balance - state.total_subsidized,
        );
    }
    let new_principal_claimed = deposit_info.principal_claimed + claimable;
    let new_current = amount - claimable;
    let net = total_balance - state.total_subsidized;
    let claimable_share = mul_decimal_from_ratio(state.total_share, claimable, net);
    let new_share = match deposit_info.share.checked_sub(claimable_share) {
        Some(v) => v,
        None => {
            return Err(VaultError::Underflow);
        },
    };
    Ok(
        ClaimOutcome {
            state: State {
                total_share: state.total_share - claimable_share,
                total_subsidized: state.total_subsidized,
            },
            deposit_info: DepositInfo {
                principal: deposit_info.principal,
                current_amount: new_current,
                share: new_share,
                maturity: deposit_info.maturity,
                yield_amount: fresh_yield,
                yield_claimed: deposit_info.yield_claimed,
                principal_claimed: new_principal_claimed,
            },
            payout: claimable,
        },
    )
}

} // verus!
