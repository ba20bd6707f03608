//! Bookkeeping engine for a conditional-drop and shielded-pool program:
//! an append-only commitment accumulator, a nullifier registry, a per-creator
//! rate limiter, the drop lifecycle state machine, and a timelocked
//! authority-rotation protocol. The host runtime performs storage and value
//! transfers; every decision the engine makes is verified here.

pub mod authority;
pub mod drops;
pub mod errors;
pub mod events;
pub mod hashing;
pub mod keys;
pub mod shielded;
pub mod state;
pub mod tree;

use vstd::prelude::*;

use crate::state::MAX_FEE_BPS;

verus! {

/// Fee rates are expressed in basis points; `MAX_FEE_BPS` is the 10% cap.
pub open spec fn spec_fee(amount: u64, fee_bps: u16) -> int {
    (amount * fee_bps) / 10000
}

/// Splits a claim amount into protocol fee and payout.
pub fn compute_fee_split(amount: u64, fee_bps: u16) -> (r: (u64, u64))
    requires
        fee_bps <= MAX_FEE_BPS,
    ensures
        r.0 == spec_fee(amount, fee_bps),
        r.1 == amount - r.0,
        r.0 + r.1 == amount,
        r.0 <= amount,
{
    proof {
        assert(amount * fee_bps <= 0xffff_ffff_ffff_ffff * 1000 && (amount * fee_bps) / 10000
            <= amount) by (nonlinear_arith)
            requires
                fee_bps <= 1000,
                amount <= 0xffff_ffff_ffff_ffff,
        ;
    }
    let fee_wide: u128 = (amount as u128) * (fee_bps as u128) / 10000;
    let fee: u64 = fee_wide as u64;
    (fee, amount - fee)
}

/// Fee conservation: for every amount and capped fee rate, the fee is the
/// exact floor of `amount * fee_bps / 10000`, it never exceeds the amount,
/// and fee plus payout reassemble the amount with no rounding loss.
pub proof fn lemma_fee_conservation(amount: u64, fee_bps: u16)
    requires
        fee_bps <= MAX_FEE_BPS,
    ensures
        0 <= spec_fee(amount, fee_bps) <= amount,
        spec_fee(amount, fee_bps) + (amount - spec_fee(amount, fee_bps)) == amount,
{
    assert((amount * fee_bps) / 10000 <= amount && (amount * fee_bps) / 10000 >= 0)
        by (nonlinear_arith)
        requires
            fee_bps <= 1000,
            amount <= 0xffff_ffff_ffff_ffff,
    ;
}

} // verus!
