//! Persisted records of the vault: the singleton `Config` and `State`,
//! and one `DepositInfo` per depositor address.
use vstd::prelude::*;

use crate::math::DECIMAL_FRACTIONAL;

verus! {

/// A single attached coin: an amount of some denomination.
#[derive(Clone, Debug)]
pub struct Coin {
    pub denom: String,
    pub amount: u128,
}

/// Vault configuration, created at instantiation and changed only by
/// governance.
#[derive(Clone, Debug)]
pub struct Config {
    /// Address of the vault contract itself.
    pub contract_addr: String,
    /// Address of the access-control controller.
    pub controller: String,
    /// Denomination of the accepted stable asset.
    pub stable_denom: String,
    /// Active yield strategy; `None` while no external investment runs.
    pub strategy: Option<String>,
    /// Fraction of the managed value targeted for external investment,
    /// as a raw fixed-point decimal (`DECIMAL_FRACTIONAL` is 100%).
    pub invest_percentage: u128,
    /// Seconds a deposit stays locked after being made or renewed.
    pub lock_period: u64,
    /// Whether loss-accepting forced withdrawals are permitted.
    pub force_withdraw: bool,
}

impl Config {
    /// A valid configuration never targets more than 100% for investment.
    pub open spec fn wf(&self) -> bool {
        self.invest_percentage <= DECIMAL_FRACTIONAL
    }
}

/// Vault-wide accounting state, touched by every deposit, withdrawal and
/// claim.
#[derive(Clone, Copy, Debug, PartialEq, Eq, Structural)]
pub struct State {
    /// Total of all outstanding shares.
    pub total_share: u128,
    /// Value detached from the share pool by withdrawals but still owed
    /// to depositors as unclaimed yield.
    pub total_subsidized: u128,
}

/// Ledger entry of one depositor.  A record of all zeroes means "no
/// position"; records are never deleted.
#[derive(Clone, Copy, Debug, PartialEq, Eq, Structural)]
pub struct DepositInfo {
    /// Cumulative amount ever deposited.
    pub principal: u128,
    /// Last computed total value attributable to this depositor.
    pub current_amount: u128,
    /// This depositor's portion of `State::total_share`.
    pub share: u128,
    /// Unix timestamp before which nothing can be withdrawn or claimed.
    pub maturity: u64,
    /// Last computed yield (or, when a loss was reported, its size).
    pub yield_amount: u128,
    /// Cumulative yield already paid out.
    pub yield_claimed: u128,
    /// Cumulative principal already paid out.
    pub principal_claimed: u128,
}

impl DepositInfo {
    /// The empty record standing for an address that never deposited.
    pub fn absent() -> (r: DepositInfo)
        ensures
            r == DepositInfo::spec_absent(),
    {
        DepositInfo {
            principal: 0,
            current_amount: 0,
            share: 0,
            maturity: 0,
            yield_amount: 0,
            yield_claimed: 0,
            principal_claimed: 0,
        }
    }

    /// The empty record, at the specification level.
    pub open spec fn spec_absent() -> DepositInfo {
        DepositInfo {
            principal: 0,
            current_amount: 0,
            share: 0,
            maturity: 0,
            yield_amount: 0,
            yield_claimed: 0,
            principal_claimed: 0,
        }
    }
}

} // verus!
