use vstd::prelude::*;

verus! {

/// Emitted when a drop is created by the authority or through a deposit.
#[derive(Clone, Copy, Debug)]
pub struct DropCreated {
    pub nullifier: [u8; 32],
    pub recipient: [u8; 32],
    pub amount: u64,
    pub asset_type: u8,
    pub expires_at: i64,
    pub payer: [u8; 32],
}

/// Emitted when a drop is claimed.
#[derive(Clone, Copy, Debug)]
pub struct DropClaimed {
    pub nullifier: [u8; 32],
    pub claimer: [u8; 32],
    pub claimed_at: i64,
}

/// Emitted when an expired drop is reclaimed.
#[derive(Clone, Copy, Debug)]
pub struct DropExpired {
    pub nullifier: [u8; 32],
    pub recipient: [u8; 32],
    pub expires_at: i64,
}

/// Emitted when the shielded pool is initialized.
#[derive(Clone, Copy, Debug)]
pub struct ShieldedInitialized {
    pub authority: [u8; 32],
    pub tree_depth: u8,
}

/// Emitted when a commitment is appended to the shielded tree.
#[derive(Clone, Copy, Debug)]
pub struct ShieldedDeposit {
    pub commitment: [u8; 32],
    pub amount: u64,
    pub leaf_index: u32,
    pub new_root: [u8; 32],
}

/// Emitted when a shielded spend succeeds.
#[derive(Clone, Copy, Debug)]
pub struct ShieldedSpent {
    pub nullifier: [u8; 32],
    pub recipient: [u8; 32],
    pub amount: u64,
    pub root: [u8; 32],
}

/// Emitted when an authority rotation is proposed.
#[derive(Clone, Copy, Debug)]
pub struct AuthorityProposed {
    pub current_authority: [u8; 32],
    pub pending_authority: [u8; 32],
    pub delay_seconds: i64,
}

/// Emitted when a pending rotation is cancelled.
#[derive(Clone, Copy, Debug)]
pub struct AuthorityProposalCancelled {
    pub authority: [u8; 32],
    pub cancelled_authority: [u8; 32],
}

/// Emitted when a pending rotation is accepted.
#[derive(Clone, Copy, Debug)]
pub struct AuthorityAccepted {
    pub previous_authority: [u8; 32],
    pub new_authority: [u8; 32],
}

/// Emitted when the rotation delay is reconfigured.
#[derive(Clone, Copy, Debug)]
pub struct AuthorityDelayUpdated {
    pub authority: [u8; 32],
    pub new_delay_seconds: i64,
}

} // verus!
