use vstd::prelude::*;

verus! {

/// Every failure the engine can report. The variants group into the kinds
/// described by the error taxonomy: validation, authorization, conflict,
/// replay, temporal, resource and external-dependency failures.
#[derive(Clone, Copy, Debug, PartialEq, Eq, Structural)]
pub enum DarkPoolError {
    NullifierAlreadyUsed,
    DropNotActive,
    InvalidNullifier,
    InvalidAmount,
    InvalidAssetType,
    InvalidRecipient,
    InvalidExpiration,
    ConfigNotInitialized,
    UnauthorizedCreator,
    RateLimitExceeded,
    DropExpired,
    InvalidAuthority,
    PendingAuthorityExists,
    NoPendingAuthority,
    AuthorityDelayNotElapsed,
    InvalidAuthorityDelay,
    DropNotExpired,
    InvalidFeeBps,
    InvalidTreasury,
    InsufficientVaultBalance,
    AccountAlreadyInitialized,
    NumericalOverflow,
    ShieldedConfigNotInitialized,
    InvalidTreeDepth,
    ShieldedTreeFull,
    InvalidCommitment,
    ShieldedStateMismatch,
    ShieldedRootMismatch,
    ShieldedRecipientNotRentExempt,
    InvalidShieldedProof,
    PoseidonHashFailed,
}

} // verus!
