//! Creation and management of the vault: instantiation, governance
//! configuration changes, and pushing the investable surplus to the
//! strategy.
use vstd::prelude::*;

use crate::error::VaultError;
use crate::math::{lemma_mul_dec_le, mul_dec, mul_decimal_from_ratio, DECIMAL_FRACTIONAL};
use crate::state::{Config, State};

verus! {

/// Builds the initial configuration and state of a fresh vault: no
/// strategy, forced withdrawals disabled, nothing pooled.  A target
/// investment fraction above 100% is refused.
pub fn instantiate(
    contract_addr: String,
    controller: String,
    stable_denom: String,
    invest_percentage: u128,
    lock_period: u64,
) -> (r: Result<(Config, State), VaultError>)
    ensures
        invest_percentage > DECIMAL_FRACTIONAL ==> r == Err::<(Config, State), VaultError>(
            VaultError::InvalidPercentage,
        ),
        invest_percentage <= DECIMAL_FRACTIONAL ==> (r matches Ok(p) && {
            &&& p.0.contract_addr@ == contract_addr@
            &&& p.0.controller@ == controller@
            &&& p.0.stable_denom@ == stable_denom@
            &&& p.0.strategy is None
            &&& p.0.invest_percentage == invest_percentage
            &&& p.0.lock_period == lock_period
            &&& !p.0.force_withdraw
            &&& p.0.wf()
            &&& p.1 == (State { total_share: 0, total_subsidized: 0 })
        }),
{
    if invest_percentage > DECIMAL_FRACTIONAL {
        return Err(VaultError::InvalidPercentage);
    }
    Ok(
        (
            Config {
                contract_addr,
                controller,
                stable_denom,
                strategy: None,
                invest_percentage,
                lock_period,
                force_withdraw: false,
            },
            State { total_share: 0, total_subsidized: 0 },
        ),
    )
}

/// Applies a governance configuration change: each supplied field
/// replaces the stored one, and a target investment fraction above 100%
/// is refused.  Only governance may call; the caller's standing is
/// established against the access-control oracle beforehand and handed
/// in as `is_governance`.
pub fn update_config(
    config: &Config,
    is_governance: bool,
    controller: Option<String>,
    strategy: Option<String>,
    invest_percentage: Option<u128>,
    lock_period: Option<u64>,
    force_withdraw: Option<bool>,
) -> (r: Result<Config, VaultError>)
    ensures
        !is_governance ==> r == Err::<Config, VaultError>(VaultError::Unauthorized),
        is_governance && (invest_percentage matches Some(p) && p > DECIMAL_FRACTIONAL) ==> r
            == Err::<Config, VaultError>(VaultError::InvalidPercentage),
        is_governance && (invest_percentage matches Some(p) ==> p <= DECIMAL_FRACTIONAL) ==> (r
            matches Ok(out) && {
            &&& out.contract_addr@ == config.contract_addr@
            &&& out.controller@ == (match controller {
                Some(c) => c@,
                None => config.controller@,
            })
            &&& out.stable_denom@ == config.stable_denom@
            &&& (match strategy {
                Some(s) => out.strategy matches Some(t) && t@ == s@,
                None => match config.strategy {
                    Some(kept) => out.strategy matches Some(t) && t@ == kept@,
                    None => out.strategy is None,
                },
            })
            &&& out.invest_percentage == (match invest_percentage {
                Some(p) => p,
                None => config.invest_percentage,
            })
            &&& out.lock_period == (match lock_period {
                Some(l) => l,
                None => config.lock_period,
            })
            &&& out.force_withdraw == (match force_withdraw {
                Some(f) => f,
                None => config.force_withdraw,
            })
            &&& (config.wf() ==> out.wf())
        }),
{
    if !is_governance {
        return Err(VaultError::Unauthorized);
    }
    let mut out = Config {
        contract_addr: config.contract_addr.clone(),
        controller: config.controller.clone(),
        stable_denom: config.stable_denom.clone(),
        strategy: match &config.strategy {
            Some(s) => Some(s.clone()),
            None => None,
        },
        invest_percentage: config.invest_percentage,
        lock_period: config.lock_period,
        force_withdraw: config.force_withdraw,
    };
    if let Some(c) = controller {
        out.controller = c;
    }
    if let Some(s) = strategy {
        out.strategy = Some(s);
    }
    if let Some(p) = invest_percentage {
        if p > DECIMAL_FRACTIONAL {
            return Err(VaultError::InvalidPercentage);
        }
        out.invest_percentage = p;
    }
    if let Some(l) = lock_period {
        out.lock_period = l;
    }
    if let Some(f) = force_withdraw {
        out.force_withdraw = f;
    }
    Ok(out)
}

/// The balance the vault manages in total: its own idle balance, plus
/// what the strategy reports as invested once one is configured.
pub fn get_total_balance(config: &Config, vault_balance: u128, invested_balance: u128) -> (r:
    u128)
    requires
        config.strategy is Some ==> vault_balance + invested_balance <= u128::MAX,
    ensures
        r as int == if config.strategy is Some {
            vault_balance + invested_balance
        } else {
            vault_balance as int
        },
{
    if config.strategy.is_none() {
        vault_balance
    } else {
        vault_balance + invested_balance
    }
}

/// The investable surplus: enough to top the invested balance up to the
/// target fraction of the total managed value, and never more.  Without
/// a strategy nothing is investable.
pub open spec fn spec_available(
    strategy_defined: bool,
    invest_percentage: int,
    vault_balance: int,
    invested_balance: int,
) -> int {
    if !strategy_defined {
        0
    } else {
        let target = mul_dec(vault_balance + invested_balance, invest_percentage);
        if target > invested_balance {
            target - invested_balance
        } else {
            0
        }
    }
}

/// Computes the investable surplus, as `spec_available` says.  A total
/// managed value beyond the ledger's range is an `Overflow`.
pub fn get_available(config: &Config, vault_balance: u128, invested_balance: u128) -> (r: Result<
    u128,
    VaultError,
>)
    requires
        config.wf(),
    ensures
        match r {
            Err(e) => {
                &&& e == VaultError::Overflow
                &&& config.strategy is Some
                &&& vault_balance + invested_balance > u128::MAX
            },
            Ok(v) => {
                &&& (config.strategy is Some ==> vault_balance + invested_balance <= u128::MAX)
                &&& v == spec_available(
                    config.strategy is Some,
                    config.invest_percentage as int,
                    vault_balance as int,
                    invested_balance as int,
                )
            },
        },
{
    if config.strategy.is_none() {
        Ok(0)
    } else {
        let total = match vault_balance.checked_add(invested_balance) {
            Some(t) => t,
            None => {
                return Err(VaultError::Overflow);
            },
        };
        proof {
            vstd::arithmetic::div_mod::lemma_div_multiples_vanish(
                config.invest_percentage as int,
                DECIMAL_FRACTIONAL as int,
            );
            vstd::arithmetic::mul::lemma_mul_is_commutative(
                config.invest_percentage as int,
                DECIMAL_FRACTIONAL as int,
            );
            lemma_mul_dec_le(total as int, config.invest_percentage as int);
        }
        let target = mul_decimal_from_ratio(total, config.invest_percentage, DECIMAL_FRACTIONAL);
        if target > invested_balance {
            Ok(target - invested_balance)
        } else {
            Ok(0)
        }
    }
}

/// Decides an investment: the worker pushes the investable surplus to
/// the configured strategy.  The amount to transfer is returned.
pub fn invest(config: &Config, is_worker: bool, vault_balance: u128, invested_balance: u128) -> (r:
    Result<u128, VaultError>)
    requires
        config.wf(),
    ensures
        !is_worker ==> r == Err::<u128, VaultError>(VaultError::Unauthorized),
        is_worker && config.strategy is None ==> r == Err::<u128, VaultError>(
            VaultError::StrategyNotDefined,
        ),
        is_worker && config.strategy is Some && vault_balance + invested_balance > u128::MAX ==> r
            == Err::<u128, VaultError>(VaultError::Overflow),
        is_worker && config.strategy is Some && vault_balance + invested_balance <= u128::MAX ==> {
            let available = spec_available(
                true,
                config.invest_percentage as int,
                vault_balance as int,
                invested_balance as int,
            );
            if available == 0 {
                r == Err::<u128, VaultError>(VaultError::NothingToInvest)
            } else {
                r == Ok::<u128, VaultError>(available as u128)
            }
        },
{
    if !is_worker {
        return Err(VaultError::Unauthorized);
    }
    if config.strategy.is_none() {
        return Err(VaultError::StrategyNotDefined);
    }
    let available = get_available(config, vault_balance, invested_balance)?;
    if available == 0 {
        return Err(VaultError::NothingToInvest);
    }
    Ok(available)
}

} // verus!
