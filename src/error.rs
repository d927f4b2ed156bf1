use vstd::prelude::*;

verus! {

/// Every way an operation of the staking ledger can be refused. A refused
/// operation leaves every record and every balance exactly as it found them.
#[derive(Clone, Copy, Debug, PartialEq, Eq, Structural)]
pub enum StakingError {
    InvalidArgument,
    NumericalOverflow,
    InvalidMintAccount,
    InsufficientBalance,
    InsufficientStake,
    CPINotAllowed,
    UnauthorizedProgramFound,
    RateLimit,
    InvalidUnstakeTime,
    InvalidRewardTime,
    AmountMustBeGreaterThanZero,
    /// The vault record for this authority already exists.
    AlreadyInitialized,
    /// The signer or the named authority is not the one bound to the vault.
    Unauthorized,
}

} // verus!
