//! Errors of the vault.  Every error is terminal for the invocation that
//! raised it: the host discards all pending writes, so no operation is
//! ever applied partially.
use vstd::prelude::*;

verus! {

/// Reason an operation was refused.  `Underflow` and `Overflow` report a
/// checked subtraction or addition that left the ledger's range; they
/// signal that an accounting invariant has already been broken, and are
/// surfaced loudly rather than clamped.
#[derive(Clone, Copy, Debug, PartialEq, Eq, Structural)]
pub enum VaultError {
    /// More than one denomination was attached to a deposit.
    SeveralDenoms,
    /// The attached deposit amount was zero.
    ZeroDeposit,
    /// The position has not reached its maturity yet.
    StillLocked,
    /// The principal of the position has already been fully recovered.
    AlreadyWithdrawn,
    /// The position is worth less than its principal and the caller did
    /// not (or may not) accept the loss.
    Loss,
    /// No yield beyond what was already paid out.
    NothingToClaim,
    /// The principal was already claimed through the claim path.
    PrincipalAlreadyClaimed,
    /// The vault's idle balance cannot cover the payout.
    Insufficient,
    /// The sender lacks the required privilege.
    Unauthorized,
    /// A percentage above one was supplied.
    InvalidPercentage,
    /// Investing requires a configured strategy.
    StrategyNotDefined,
    /// The investable surplus is zero.
    NothingToInvest,
    /// A checked subtraction underflowed.
    Underflow,
    /// A checked addition overflowed.
    Overflow,
}

impl VaultError {
    /// The human-readable reason string reported to the caller.
    pub fn message(&self) -> (r: &'static str)
        ensures
            r@ == self.spec_message(),
    {
        match self {
            VaultError::SeveralDenoms => "Cannot deposit several denoms",
            VaultError::ZeroDeposit => "Deposit amount must be greater than 0",
            VaultError::StillLocked => "Still locked",
            VaultError::AlreadyWithdrawn => "Already withdrawn",
            VaultError::Loss => "Loss",
            VaultError::NothingToClaim => "Nothing to claim",
            VaultError::PrincipalAlreadyClaimed => "Principal already claimed",
            VaultError::Insufficient => "Insufficient",
            VaultError::Unauthorized => "unauthorized",
            VaultError::InvalidPercentage => "Invest percentage must be less than 100%",
            VaultError::StrategyNotDefined => "Strategy is not defined",
            VaultError::NothingToInvest => "Nothing to invest",
            VaultError::Underflow => "Underflow",
            VaultError::Overflow => "Overflow",
        }
    }

    /// The reason string, as a sequence of characters.
    pub open spec fn spec_message(&self) -> Seq<char> {
        match self {
            VaultError::SeveralDenoms => "Cannot deposit several denoms"@,
            VaultError::ZeroDeposit => "Deposit amount must be greater than 0"@,
            VaultError::StillLocked => "Still locked"@,
            VaultError::AlreadyWithdrawn => "Already withdrawn"@,
            VaultError::Loss => "Loss"@,
            VaultError::NothingToClaim => "Nothing to claim"@,
            VaultError::PrincipalAlreadyClaimed => "Principal already claimed"@,
            VaultError::Insufficient => "Insufficient"@,
            VaultError::Unauthorized => "unauthorized"@,
            VaultError::InvalidPercentage => "Invest percentage must be less than 100%"@,
            VaultError::StrategyNotDefined => "Strategy is not defined"@,
            VaultError::NothingToInvest => "Nothing to invest"@,
            VaultError::Underflow => "Underflow"@,
            VaultError::Overflow => "Overflow"@,
        }
    }
}

} // verus!
