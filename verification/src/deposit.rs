//! Deposits and withdrawals.
//!
//! A deposit mints shares at the pool's current price and renews the
//! position's lock.  A withdrawal redeems a matured position, splitting
//! the payout between principal and yield, correcting for yield that was
//! over-claimed earlier, and detaching the unpaid remainder of the
//! position's value into the subsidized pool.
use vstd::prelude::*;

use crate::error::VaultError;
use crate::math::{dec_ratio, mul_dec_ratio, mul_decimal_from_ratio};
use crate::share::{get_updated_yield, spec_balance_by_share};
use crate::state::{Coin, Config, DepositInfo, State};

verus! {

/// What a successful deposit persists and reports.
#[derive(Clone, Copy, Debug)]
pub struct DepositOutcome {
    /// The vault state to persist.
    pub state: State,
    /// The depositor's record to persist.
    pub deposit_info: DepositInfo,
    /// The amount that was accepted.
    pub amount: u128,
}

/// What a successful withdrawal persists and reports.
#[derive(Clone, Copy, Debug)]
pub struct WithdrawOutcome {
    /// The vault state to persist.
    pub state: State,
    /// The depositor's record to persist.
    pub deposit_info: DepositInfo,
    /// The transfer to emit; `None` when nothing was withdrawable, in
    /// which case nothing is persisted either.
    pub payout: Option<u128>,
}

/// Amount of the first attached coin of the accepted denomination, or
/// zero when none matches.
pub open spec fn spec_deposit_amount(funds: Seq<Coin>, denom: Seq<char>) -> int
    decreases funds.len(),
{
    if funds.len() == 0 {
        0
    } else if funds[0].denom@ == denom {
        funds[0].amount as int
    } else {
        spec_deposit_amount(funds.skip(1), denom)
    }
}

/// The attached amount is never negative.
pub proof fn lemma_deposit_amount_nonneg(funds: Seq<Coin>, denom: Seq<char>)
    ensures
        0 <= spec_deposit_amount(funds, denom),
    decreases funds.len(),
{
    if funds.len() > 0 && funds[0].denom@ != denom {
        lemma_deposit_amount_nonneg(funds.skip(1), denom);
    }
}

proof fn lemma_deposit_amount_skip(funds: Seq<Coin>, denom: Seq<char>, i: int)
    requires
        0 <= i <= funds.len(),
        forall|j: int| 0 <= j < i ==> funds[j].denom@ != denom,
    ensures
        spec_deposit_amount(funds, denom) == spec_deposit_amount(funds.skip(i), denom),
    decreases i,
{
    if i > 0 {
        lemma_deposit_amount_skip(funds.skip(1), denom, i - 1);
        assert(funds.skip(1).skip(i - 1) =~= funds.skip(i));
    } else {
        assert(funds.skip(0) =~= funds);
    }
}

/// Finds the attached amount of the accepted denomination.
fn deposit_amount_of(funds: &Vec<Coin>, denom: &String) -> (r: u128)
    ensures
        r == spec_deposit_amount(funds@, denom@),
{
    let mut i: usize = 0;
    while i < funds.len()
        invariant
            0 <= i <= funds@.len(),
            forall|j: int| 0 <= j < i ==> funds@[j].denom@ != denom@,
        decreases funds@.len() - i,
    {
        if funds[i].denom == *denom {
            proof {
                lemma_deposit_amount_skip(funds@, denom@, i as int);
            }
            return funds[i].amount;
        }
        i += 1;
    }
    proof {
        lemma_deposit_amount_skip(funds@, denom@, funds@.len() as int);
    }
    0
}

/// Shares minted for a deposit of `amount` against a pool that held
/// `balance_before` (the reported balance with the deposit itself
/// excluded).  The very first deposit, or one against a pool entirely
/// owed as subsidy, bootstraps one share per unit; any other deposit
/// buys in at the pool's share price net of the subsidized value.
pub open spec fn spec_minted_share(state: State, amount: int, balance_before: int) -> int {
    if state.total_share == 0 || balance_before <= state.total_subsidized {
        amount
    } else {
        mul_dec_ratio(state.total_share as int, amount, balance_before - state.total_subsidized)
    }
}

/// Why a deposit is refused, if it is.  The reported balance must cover
/// the deposit that is already part of it; a shortfall is an accounting
/// `Underflow`.
pub open spec fn spec_deposit_error(
    config: Config,
    state: State,
    now: int,
    funds: Seq<Coin>,
    total_balance: int,
) -> Option<VaultError> {
    let amount = spec_deposit_amount(funds, config.stable_denom@);
    if funds.len() != 1 {
        Some(VaultError::SeveralDenoms)
    } else if amount == 0 {
        Some(VaultError::ZeroDeposit)
    } else if total_balance < amount {
        Some(VaultError::Underflow)
    } else {
        None
    }
}

/// The records a successful deposit persists: the lock is renewed to
/// `now + lock_period`, principal and current value grow by the amount,
/// the depositor's share is set to the freshly minted share, and the
/// total share grows by it.
pub open spec fn spec_deposit_outcome(
    config: Config,
    state: State,
    info: DepositInfo,
    now: int,
    funds: Seq<Coin>,
    total_balance: int,
) -> DepositOutcome {
    let amount = spec_deposit_amount(funds, config.stable_denom@);
    let before = total_balance - amount;
    let minted = spec_minted_share(state, amount, before);
    DepositOutcome {
        state: State {
            total_share: (state.total_share + minted) as u128,
            total_subsidized: state.total_subsidized,
        },
        deposit_info: DepositInfo {
            principal: (info.principal + amount) as u128,
            current_amount: (info.current_amount + amount) as u128,
            share: minted as u128,
            maturity: (config.lock_period + now) as u64,
            yield_amount: info.yield_amount,
            yield_claimed: info.yield_claimed,
            principal_claimed: info.principal_claimed,
        },
        amount: amount as u128,
    }
}

/// The sums and products of a deposit stay within the ledger's range.
/// These bounds mirror the machine limits of the underlying arithmetic;
/// beyond them the ledger itself could not represent the result.
pub open spec fn deposit_fits(
    config: Config,
    state: State,
    info: DepositInfo,
    now: int,
    funds: Seq<Coin>,
    total_balance: int,
) -> bool {
    let amount = spec_deposit_amount(funds, config.stable_denom@);
    funds.len() == 1 && amount > 0 ==> {
        &&& config.lock_period + now <= u64::MAX
        &&& (total_balance >= amount ==> {
            let before = total_balance - amount;
            let minted = spec_minted_share(state, amount, before);
            &&& info.current_amount + amount <= u128::MAX
            &&& info.principal + amount <= u128::MAX
            &&& (state.total_share != 0 && before > state.total_subsidized ==> {
                &&& dec_ratio(amount, before - state.total_subsidized) <= u128::MAX
                &&& mul_dec_ratio(
                    state.total_share as int,
                    amount,
                    before - state.total_subsidized,
                ) <= u128::MAX
            })
            &&& state.total_share + minted <= u128::MAX
        })
    }
}

/// Accepts a single-coin payment of the accepted denomination, mints
/// shares for it and renews the position's lock.  `total_balance` is the
/// managed balance as reported after the payment has already landed.
pub fn deposit_native(
    config: &Config,
    state: &State,
    deposit_info: &DepositInfo,
    now: u64,
    funds: &Vec<Coin>,
    total_balance: u128,
) -> (r: Result<DepositOutcome, VaultError>)
    requires
        deposit_fits(*config, *state, *deposit_info, now as int, funds@, total_balance as int),
    ensures
        match r {
            Err(e) => Some(e) == spec_deposit_error(
                *config,
                *state,
                now as int,
                funds@,
                total_balance as int,
            ),
            Ok(out) => spec_deposit_error(
                *config,
                *state,
                now as int,
                funds@,
                total_balance as int,
            ) is None && out == spec_deposit_outcome(
                *config,
                *state,
                *deposit_info,
                now as int,
                funds@,
                total_balance as int,
            ),
        },
{
    if funds.len() != 1 {
        return Err(VaultError::SeveralDenoms);
    }
    let amount = deposit_amount_of(funds, &config.stable_denom);
    if amount == 0 {
        return Err(VaultError::ZeroDeposit);
    }
    let maturity = config.lock_period + now;
    let before = match total_balance.checked_sub(amount) {
        Some(b) => b,
        None => {
            return Err(VaultError::Underflow);
        },
    };
    let share = if state.total_share == 0 || before <= state.total_subsidized {
        amount
    } else {
        mul_decimal_from_ratio(state.total_share, amount, before - state.total_subsidized)
    };
    Ok(
        DepositOutcome {
            state: State {
                total_share: state.total_share + share,
                total_subsidized: state.total_subsidized,
            },
            deposit_info: DepositInfo {
                principal: deposit_info.principal + amount,
                current_amount: deposit_info.current_amount + amount,
                share,
                maturity,
                yield_amount: deposit_info.yield_amount,
                yield_claimed: deposit_info.yield_claimed,
                principal_claimed: deposit_info.principal_claimed,
            },
            amount,
        },
    )
}

/// The whole withdrawal rule.  After the lock and the already-withdrawn
/// checks, the position's value is refreshed; a loss is only accepted
/// when both the caller and the configuration opt into forced
/// withdrawals.  Yield claimed beyond the refreshed yield (an
/// over-claim) is paid back first out of the yield bucket, then out of
/// the principal bucket; if both are exhausted the withdrawable amount
/// collapses to zero, which is reported as a success without a transfer.
/// The request is then clamped to the vault's idle balance (only for an
/// idle vault, or under both force flags; otherwise it is refused), the
/// paid amount is booked against principal first, the share total is cut
/// back, and the unpaid remainder of the position's value moves into the
/// subsidized pool.
pub open spec fn spec_withdraw(
    config: Config,
    state: State,
    info: DepositInfo,
    now: int,
    withdraw_amount: int,
    force_withdraw: bool,
    total_balance: int,
    vault_balance: int,
) -> Result<WithdrawOutcome, VaultError> {
    if info.maturity > now {
        Err(VaultError::StillLocked)
    } else if info.principal == info.principal_claimed {
        Err(VaultError::AlreadyWithdrawn)
    } else {
        let amount = spec_balance_by_share(
            state.total_share as int,
            state.total_subsidized as int,
            total_balance,
            info.share as int,
        );
        let loss = amount < info.principal;
        let stored_yield: int = if loss {
            0
        } else {
            amount - info.principal
        };
        if loss && !(force_withdraw && config.force_withdraw) {
            Err(VaultError::Loss)
        } else {
            let oc: int = if info.yield_claimed > stored_yield {
                info.yield_claimed - stored_yield
            } else {
                0
            };
            {
                let pw: int = if oc == 0 || stored_yield >= oc {
                    info.principal as int
                } else if info.principal + stored_yield >= oc {
                    info.principal + stored_yield - oc
                } else {
                    0
                };
                let yw: int = if oc == 0 {
                    stored_yield
                } else if stored_yield >= oc {
                    stored_yield - oc
                } else {
                    0
                };
                let tw = pw + yw;
                if tw == 0 {
                    Ok(WithdrawOutcome { state, deposit_info: info, payout: None })
                } else if vault_balance < withdraw_amount && !(config.strategy is None || (
                force_withdraw && config.force_withdraw)) {
                    Err(VaultError::Insufficient)
                } else {
                    let avail: int = if vault_balance < withdraw_amount {
                        vault_balance
                    } else {
                        withdraw_amount
                    };
                    if avail > pw && avail <= tw && info.share > state.total_share {
                        Err(VaultError::Underflow)
                    } else if avail > amount {
                        Err(VaultError::Underflow)
                    } else {
                        let new_total_share: int = if avail <= pw {
                            mul_dec_ratio(state.total_share as int, pw - avail, vault_balance)
                        } else if avail <= tw {
                            state.total_share - info.share
                        } else {
                            state.total_share as int
                        };
                        let new_pc: int = if avail <= pw {
                            info.principal_claimed + avail
                        } else if avail <= tw {
                            info.principal_claimed + pw
                        } else {
                            info.principal_claimed as int
                        };
                        let new_yc: int = if avail > pw && avail <= tw {
                            info.yield_claimed + (tw - avail)
                        } else {
                            info.yield_claimed as int
                        };
                        Ok(
                            WithdrawOutcome {
                                state: State {
                                    total_share: new_total_share as u128,
                                    total_subsidized: (state.total_subsidized + (amount
                                        - avail)) as u128,
                                },
                                deposit_info: DepositInfo {
                                    principal: info.principal,
                                    current_amount: amount as u128,
                                    share: info.share,
                                    maturity: info.maturity,
                                    yield_amount: stored_yield as u128,
                                    yield_claimed: new_yc as u128,
                                    principal_claimed: new_pc as u128,
                                },
                                payout: Some(avail as u128),
                            },
                        )
                    }
                }
            }
        }
    }
}

/// The sums and products of a withdrawal stay within the ledger's
/// range, and the share rescale of a partial principal withdrawal never
/// divides by an empty vault.  These bounds mirror the machine limits of
/// the underlying arithmetic.
pub open spec fn withdraw_fits(
    config: Config,
    state: State,
    info: DepositInfo,
    now: int,
    withdraw_amount: int,
    force_withdraw: bool,
    total_balance: int,
    vault_balance: int,
) -> bool {
    let amount = spec_balance_by_share(
        state.total_share as int,
        state.total_subsidized as int,
        total_balance,
        info.share as int,
    );
    let loss = amount < info.principal;
    let stored_yield: int = if loss {
        0
    } else {
        amount - info.principal
    };
    let oc: int = if info.yield_claimed > stored_yield {
        info.yield_claimed - stored_yield
    } else {
        0
    };
    let pw: int = if oc == 0 || stored_yield >= oc {
        info.principal as int
    } else if info.principal + stored_yield >= oc {
        info.principal + stored_yield - oc
    } else {
        0
    };
    let yw: int = if oc == 0 {
        stored_yield
    } else if stored_yield >= oc {
        stored_yield - oc
    } else {
        0
    };
    let tw = pw + yw;
    let reach = {
        &&& info.maturity <= now
        &&& info.principal_claimed < info.principal
        &&& !(loss && !(force_withdraw && config.force_withdraw))
        &&& tw != 0
        &&& (vault_balance >= withdraw_amount || config.strategy is None || (force_withdraw
            && config.force_withdraw))
    };
    let avail: int = if vault_balance < withdraw_amount {
        vault_balance
    } else {
        withdraw_amount
    };
    reach ==> {
        &&& (avail <= pw ==> {
            &&& vault_balance != 0
            &&& dec_ratio(pw - avail, vault_balance) <= u128::MAX
            &&& mul_dec_ratio(state.total_share as int, pw - avail, vault_balance) <= u128::MAX
            &&& info.principal_claimed + avail <= u128::MAX
        })
        &&& (avail > pw && avail <= tw ==> {
            &&& info.principal_claimed + pw <= u128::MAX
            &&& info.yield_claimed + (tw - avail) <= u128::MAX
        })
        &&& (!(avail > pw && avail <= tw && info.share > state.total_share) && avail <= amount
            ==> state.total_subsidized + (amount - avail) <= u128::MAX)
    }
}

/// Whether a withdrawal against an empty idle vault would reach the
/// share-rescale step: the position is matured, not fully withdrawn,
/// not refused as a loss, still has something withdrawable after the
/// over-claim correction, and is not turned away as insufficient (a
/// zero request, an idle vault without a strategy, or both force
/// flags).  The rescale divides by the idle balance.
pub open spec fn spec_withdraw_rescales_empty_vault(
    config: Config,
    state: State,
    info: DepositInfo,
    now: int,
    withdraw_amount: int,
    force_withdraw: bool,
    total_balance: int,
) -> bool {
    let amount = spec_balance_by_share(
        state.total_share as int,
        state.total_subsidized as int,
        total_balance,
        info.share as int,
    );
    let loss = amount < info.principal;
    let stored_yield: int = if loss {
        0
    } else {
        amount - info.principal
    };
    let oc: int = if info.yield_claimed > stored_yield {
        info.yield_claimed - stored_yield
    } else {
        0
    };
    let pw: int = if oc == 0 || stored_yield >= oc {
        info.principal as int
    } else if info.principal + stored_yield >= oc {
        info.principal + stored_yield - oc
    } else {
        0
    };
    let yw: int = if oc == 0 {
        stored_yield
    } else if stored_yield >= oc {
        stored_yield - oc
    } else {
        0
    };
    &&& info.maturity <= now
    &&& info.principal_claimed < info.principal
    &&& !(loss && !(force_withdraw && config.force_withdraw))
    &&& pw + yw != 0
    &&& (withdraw_amount == 0 || config.strategy is None || (force_withdraw
        && config.force_withdraw))
}

/// Decides `spec_withdraw_rescales_empty_vault`.  The host consults
/// this before a withdrawal from an empty vault, to reproduce the
/// chain's division-by-zero abort exactly where it occurs and nowhere
/// earlier.
pub fn withdraw_rescales_empty_vault(
    config: &Config,
    state: &State,
    deposit_info: &DepositInfo,
    now: u64,
    withdraw_amount: u128,
    force_withdraw: bool,
    total_balance: u128,
) -> (r: bool)
    requires
        deposit_info.principal_claimed <= deposit_info.principal,
    ensures
        r == spec_withdraw_rescales_empty_vault(
            *config,
            *state,
            *deposit_info,
            now as int,
            withdraw_amount as int,
            force_withdraw,
            total_balance as int,
        ),
{
    if deposit_info.maturity > now {
        return false;
    }
    if deposit_info.principal - deposit_info.principal_claimed == 0 {
        return false;
    }
    let (_, yield_raw, loss) = get_updated_yield(state, deposit_info, total_balance);
    let stored_yield: u128 = if loss {
        0
    } else {
        yield_raw
    };
    if loss && (!force_withdraw || !config.force_withdraw) {
        return false;
    }
    let mut principal_withdraw = deposit_info.principal;
    let mut yield_withdraw = stored_yield;
    if deposit_info.yield_claimed > stored_yield {
        let over_claim = deposit_info.yield_claimed - stored_yield;
        if yield_withdraw >= over_claim {
            yield_withdraw = yield_withdraw - over_claim;
        } else if principal_withdraw + yield_withdraw >= over_claim {
            principal_withdraw = principal_withdraw + yield_withdraw - over_claim;
            yield_withdraw = 0;
        } else {
            principal_withdraw = 0;
            yield_withdraw = 0;
        }
    }
    if principal_withdraw + yield_withdraw == 0 {
        return false;
    }
    withdraw_amount == 0 || config.strategy.is_none() || (force_withdraw
        && config.force_withdraw)
}

/// Redeems some or all of a matured position, as `spec_withdraw` says.
/// `total_balance` is the whole managed balance, `vault_balance` the
/// idle balance actually held by the vault.
pub fn withdraw(
    config: &Config,
    state: &State,
    deposit_info: &DepositInfo,
    now: u64,
    withdraw_amount: u128,
    force_withdraw: bool,
    total_balance: u128,
    vault_balance: u128,
) -> (r: Result<WithdrawOutcome, VaultError>)
    requires
        deposit_info.principal_claimed <= deposit_info.principal,
        withdraw_fits(
            *config,
            *state,
            *deposit_info,
            now as int,
            withdraw_amount as int,
            force_withdraw,
            total_balance as int,
            vault_balance as int,
        ),
    ensures
        r == spec_withdraw(
            *config,
            *state,
            *deposit_info,
            now as int,
            withdraw_amount as int,
            force_withdraw,
            total_balance as int,
            vault_balance as int,
        ),
        now < deposit_info.maturity <==> r == Err::<WithdrawOutcome, VaultError>(
            VaultError::StillLocked,
        ),
{
    if deposit_info.maturity > now {
        return Err(VaultError::StillLocked);
    }
    if deposit_info.principal - deposit_info.principal_claimed == 0 {
        return Err(VaultError::AlreadyWithdrawn);
    }
    let (amount, yield_raw, loss) = get_updated_yield(state, deposit_info, total_balance);
    let stored_yield: u128 = if loss {
        0
    } else {
        yield_raw
    };
    if loss && (!force_withdraw || !config.force_withdraw) {
        return Err(VaultError::Loss);
    }
    let mut principal_withdraw = deposit_info.principal;
    let mut yield_withdraw = stored_yield;
    if deposit_info.yield_claimed > stored_yield {
        let over_claim = deposit_info.yield_claimed - stored_yield;
        if yield_withdraw >= over_claim {
            yield_withdraw = yield_withdraw - over_claim;
        } else if principal_withdraw + yield_withdraw >= over_claim {
            principal_withdraw = principal_withdraw + yield_withdraw - over_claim;
            yield_withdraw = 0;
        } else {
            principal_withdraw = 0;
            yield_withdraw = 0;
        }
    }
    let total_withdrawable = principal_withdraw + yield_withdraw;
    if total_withdrawable == 0 {
        return Ok(WithdrawOutcome { state: *state, deposit_info: *deposit_info, payout: None });
    }
    let mut available_withdraw = withdraw_amount;
    if vault_balance < available_withdraw {
        if config.strategy.is_none() || (force_withdraw && config.force_withdraw) {
            available_withdraw = vault_balance;
        } else {
            return Err(VaultError::Insufficient);
        }
    }
    let mut new_principal_claimed = deposit_info.principal_claimed;
    let mut new_yield_claimed = deposit_info.yield_claimed;
    let mut new_total_share = state.total_share;
    if available_withdraw <= principal_withdraw {
        new_principal_claimed = new_principal_claimed + available_withdraw;
        new_total_share = mul_decimal_from_ratio(
            state.total_share,
            principal_withdraw - available_withdraw,
            vault_balance,
        );
    }
    if available_withdraw > principal_withdraw && available_withdraw <= total_withdrawable {
        new_principal_claimed = new_principal_claimed + principal_withdraw;
        new_yield_claimed = new_yield_claimed + (total_withdrawable - available_withdraw);
        new_total_share = match state.total_share.checked_sub(deposit_info.share) {
            Some(v) => v,
            None => {
                return Err(VaultError::Underflow);
            },
        };
    }
    let unclaimed = match amount.checked_sub(available_withdraw) {
        Some(v) => v,
        None => {
            return Err(VaultError::Underflow);
        },
    };
    Ok(
        WithdrawOutcome {
            state: State {
                total_share: new_total_share,
                total_subsidized: state.total_subsidized + unclaimed,
            },
            deposit_info: DepositInfo {
                principal: deposit_info.principal,
                current_amount: amount,
                share: deposit_info.share,
                maturity: deposit_info.maturity,
                yield_amount: stored_yield,
                yield_claimed: new_yield_claimed,
                principal_claimed: new_principal_claimed,
            },
            payout: Some(available_withdraw),
        },
    )
}

} // verus!
