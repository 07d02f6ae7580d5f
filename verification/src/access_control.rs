//! Privilege checks against the answers of the access-control oracle.
//! The oracle's answers (a user's role, the governance account) are
//! handed in as plain values; the checks decide authorization.
use vstd::prelude::*;

use crate::controller::UserRole;
use crate::error::VaultError;

verus! {

/// Only a holder of each required capability may pass.
pub fn assert_access_privilege(user_role: &UserRole, require_worker: bool, require_claimer: bool)
    -> (r: Result<(), VaultError>)
    ensures
        r is Ok <==> ((require_worker ==> user_role.is_worker) && (require_claimer
            ==> user_role.is_claimer)),
        r is Err ==> r == Err::<(), VaultError>(VaultError::Unauthorized),
{
    if require_worker && !user_role.is_worker {
        return Err(VaultError::Unauthorized);
    }
    if require_claimer && !user_role.is_claimer {
        return Err(VaultError::Unauthorized);
    }
    Ok(())
}

/// Only the required sender may pass.
pub fn assert_sender_privilege(sender: String, required_sender: String) -> (r: Result<
    (),
    VaultError,
>)
    ensures
        r is Ok <==> sender@ == required_sender@,
        r is Err ==> r == Err::<(), VaultError>(VaultError::Unauthorized),
{
    if sender != required_sender {
        return Err(VaultError::Unauthorized);
    }
    Ok(())
}

/// Only the governance account reported by the oracle may pass.
pub fn assert_governance_privilege(governance: &String, user: &String) -> (r: Result<
    (),
    VaultError,
>)
    ensures
        r is Ok <==> governance@ == user@,
        r is Err ==> r == Err::<(), VaultError>(VaultError::Unauthorized),
{
    if *governance != *user {
        return Err(VaultError::Unauthorized);
    }
    Ok(())
}

} // verus!
