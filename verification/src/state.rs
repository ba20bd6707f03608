use vstd::prelude::*;
use crate::keys::zero_key;

verus! {

/// Seconds a proposed authority rotation must wait before it can be accepted,
/// unless the authority has configured another delay inside the legal bounds.
pub const DEFAULT_AUTHORITY_DELAY_SECONDS: i64 = 24 * 60 * 60;

pub const MIN_AUTHORITY_DELAY_SECONDS: i64 = 15 * 60;

pub const MAX_AUTHORITY_DELAY_SECONDS: i64 = 7 * 24 * 60 * 60;

/// Fee rates are basis points; 1000 bps (10%) is the configuration cap.
pub const MAX_FEE_BPS: u16 = 1000;

/// A drop must expire at least one minute and at most thirty days after it
/// was created.
pub const MIN_EXPIRATION_WINDOW: i64 = 60;

pub const MAX_EXPIRATION_WINDOW: i64 = 30 * 24 * 60 * 60;

/// Two creations by the same creator must be at least this many seconds apart.
pub const MIN_RATE_LIMIT_SECONDS: i64 = 10;

/// Lifecycle of a drop: `Active` can move to `Claimed` or to `Expired`, both
/// of which are terminal.
#[derive(Clone, Copy, Debug, PartialEq, Eq, Structural)]
pub enum DropStatus {
    Active,
    Claimed,
    Expired,
}

/// The singleton configuration record guarding every privileged operation.
#[derive(Clone, Copy, Debug)]
pub struct Config {
    pub authority: [u8; 32],
    pub is_initialized: bool,
    pub pending_authority: [u8; 32],
    pub pending_authority_set_at: i64,
    pub authority_delay_seconds: i64,
    pub treasury: [u8; 32],
    pub fee_bps: u16,
    pub sol_vault_bump: u8,
}

impl Config {
    /// Invariant established at initialization and preserved by every
    /// configuration update: the fee rate is capped and the rotation delay
    /// stays inside its legal bounds.
    pub open spec fn wf(self) -> bool {
        &&& self.fee_bps <= MAX_FEE_BPS
        &&& MIN_AUTHORITY_DELAY_SECONDS <= self.authority_delay_seconds
            <= MAX_AUTHORITY_DELAY_SECONDS
    }

    /// There is a proposal in flight exactly when the pending authority field
    /// is non-zero.
    pub open spec fn has_pending(self) -> bool {
        self.pending_authority@ != zero_key()
    }
}

/// One single-use value transfer earmarked for a recipient, keyed by its
/// nullifier.
#[derive(Clone, Copy, Debug)]
pub struct DropAccount {
    pub nullifier: [u8; 32],
    pub recipient: [u8; 32],
    pub amount: u64,
    pub asset_type: u8,
    pub status: DropStatus,
    pub expires_at: i64,
    pub created_at: i64,
    pub claimed_at: i64,
    pub claimer: [u8; 32],
    pub bump: u8,
}

impl DropAccount {
    /// Invariant of every record the engine creates: a positive amount and a
    /// known asset class.
    pub open spec fn wf(self) -> bool {
        &&& self.amount > 0
        &&& self.asset_type <= 1
    }
}

/// Replay guard tied one-to-one to a drop record.
#[derive(Clone, Copy, Debug)]
pub struct NullifierAccount {
    pub nullifier: [u8; 32],
    pub is_used: bool,
    pub claimer: [u8; 32],
    pub used_at: i64,
    pub bump: u8,
}

/// Replay guard for the anonymous spend path; carries no drop linkage.
#[derive(Clone, Copy, Debug)]
pub struct ShieldedNullifier {
    pub nullifier: [u8; 32],
    pub is_used: bool,
}

/// Per-creator timestamp of the most recent drop or deposit creation.
/// A fresh record holds 0 and is exempt from the rate check exactly once.
#[derive(Clone, Copy, Debug)]
pub struct RateLimitAccount {
    pub last_drop_at: i64,
    pub bump: u8,
}

/// Authoritative mirror of the commitment tree's public fields, held in the
/// shielded pool's configuration record.
#[derive(Clone, Copy, Debug)]
pub struct ShieldedConfig {
    pub authority: [u8; 32],
    pub is_initialized: bool,
    pub tree_depth: u8,
    pub vault_bump: u8,
    pub current_root: [u8; 32],
    pub next_leaf_index: u32,
}

} // verus!
