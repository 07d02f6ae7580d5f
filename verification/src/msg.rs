//! The message shapes of the vault's boundary: what can be executed and
//! what can be queried.  Percentages travel as raw fixed-point decimals
//! (`DECIMAL_FRACTIONAL` is 100%).
use vstd::prelude::*;

verus! {

/// Payload of vault instantiation.
#[derive(Clone, Debug)]
pub struct InstantiateMsg {
    /// Controller address.
    pub controller: String,
    /// Accepted asset denomination.
    pub stable_denom: String,
    /// Target investment fraction.
    pub invest_percentage: u128,
    /// Lock period in seconds.
    pub lock_period: u64,
}

/// Operations the vault executes.
#[derive(Clone, Debug)]
pub enum ExecuteMsg {
    /// Change the configuration (governance only).
    UpdateConfig {
        controller: Option<String>,
        strategy: Option<String>,
        invest_percentage: Option<u128>,
        lock_period: Option<u64>,
        force_withdraw: Option<bool>,
    },
    /// Deposit the attached asset.
    Deposit {},
    /// Withdraw from a matured position.
    Withdraw { withdraw_amount: u128, force_withdraw: bool },
    /// Claim the position's yield.
    ClaimYield {},
    /// Claim the position's principal.
    ClaimPrincipal {},
    /// Push the investable surplus to the strategy (worker only).
    Invest {},
}

/// Migrations carry no payload.
#[derive(Clone, Debug)]
pub struct MigrateMsg {}

/// Queries the vault answers.
#[derive(Clone, Debug)]
pub enum QueryMsg {
    /// The current configuration.
    Config {},
    /// The deposit record of an address.
    DepositInfo { addr: String },
    /// The idle balance held by the vault itself.
    VaultBalance {},
    /// The idle balance plus the invested balance.
    TotalBalance {},
    /// The investable surplus.
    Available {},
    /// The share and subsidy totals.
    State {},
}

} // verus!
