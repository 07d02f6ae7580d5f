//! The access-control registry: who governs, where fees go, and which
//! users hold the worker capability.
use vstd::prelude::*;

use crate::error::VaultError;

verus! {

/// Controller configuration: the governance account and the treasury
/// that receives performance fees.
#[derive(Clone, Debug)]
pub struct Config {
    pub governance: String,
    pub treasury: String,
}

/// Capabilities granted to a user.
#[derive(Clone, Copy, Debug, PartialEq, Eq, Structural)]
pub struct UserRole {
    pub is_worker: bool,
    pub is_claimer: bool,
}

/// Queries the controller answers.
#[derive(Clone, Debug)]
pub enum QueryMsg {
    /// The current configuration.
    Config {},
    /// The role of a user.
    UserRole { user: String },
}

/// Migrations carry no payload.
#[derive(Clone, Debug)]
pub struct MigrateMsg {}

/// The controller's configuration as reported to queries.
#[derive(Clone, Debug)]
pub struct ConfigResponse {
    pub governance: String,
    pub treasury: String,
}

/// Initial controller state: the given accounts, with the governance
/// account granted both capabilities.
pub fn instantiate(governance: String, treasury: String) -> (r: (Config, UserRole))
    ensures
        r.0.governance@ == governance@,
        r.0.treasury@ == treasury@,
        r.1.is_worker,
        r.1.is_claimer,
{
    (Config { governance, treasury }, UserRole { is_worker: true, is_claimer: true })
}

/// Replaces the supplied fields of the controller configuration.  The
/// dispatcher establishes the caller's governance standing before this
/// runs.
pub fn update_config(config: &Config, governance: Option<String>, treasury: Option<String>) -> (r:
    Config)
    ensures
        r.governance@ == (match governance {
            Some(g) => g@,
            None => config.governance@,
        }),
        r.treasury@ == (match treasury {
            Some(t) => t@,
            None => config.treasury@,
        }),
{
    Config {
        governance: match governance {
            Some(g) => g,
            None => config.governance.clone(),
        },
        treasury: match treasury {
            Some(t) => t,
            None => config.treasury.clone(),
        },
    }
}

/// The role record to store for a user whose capabilities are being
/// set.
pub fn update_user_role(is_worker: bool, is_claimer: bool) -> (r: UserRole)
    ensures
        r.is_worker == is_worker,
        r.is_claimer == is_claimer,
{
    UserRole { is_worker, is_claimer }
}

/// Whether `sender` is the governance account; anything else is
/// unauthorized.
pub fn assert_governance(config: &Config, sender: &String) -> (r: Result<(), VaultError>)
    ensures
        r is Ok <==> config.governance@ == sender@,
        r is Err ==> r == Err::<(), VaultError>(VaultError::Unauthorized),
{
    if config.governance == *sender {
        Ok(())
    } else {
        Err(VaultError::Unauthorized)
    }
}

} // verus!
