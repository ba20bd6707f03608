use vstd::prelude::*;
use crate::compute_fee_split;
use crate::errors::DarkPoolError;
use crate::events::DropExpired;
use crate::keys::key_eq;
use crate::keys::is_zero_key;
use crate::keys::zero_key;
use crate::keys::zero_word;
use crate::spec_fee;
use crate::state::Config;
use crate::state::DropAccount;
use crate::state::DropStatus;
use crate::state::MAX_EXPIRATION_WINDOW;
use crate::state::MIN_EXPIRATION_WINDOW;
use crate::state::MIN_RATE_LIMIT_SECONDS;
use crate::state::NullifierAccount;
use crate::state::RateLimitAccount;

verus! {

/// The rate-limit record and result after one check-and-update: a record
/// that has seen a creation less than the minimum interval ago rejects the
/// call, otherwise the record is stamped with the current time. A fresh
/// record (timestamp 0) is exempt from the check.
pub open spec fn spec_check_and_update(rl: RateLimitAccount, now: i64) -> (
    RateLimitAccount,
    Result<(), DarkPoolError>,
) {
    if rl.last_drop_at != 0 && now - rl.last_drop_at < MIN_RATE_LIMIT_SECONDS {
        (rl, Err(DarkPoolError::RateLimitExceeded))
    } else {
        (RateLimitAccount { last_drop_at: now, ..rl }, Ok(()))
    }
}

/// Enforces the per-creator rate limit and stamps the record with `now`.
pub fn check_and_update(rl: &mut RateLimitAccount, now: i64) -> (r: Result<(), DarkPoolError>)
    ensures
        (*final(rl), r) == spec_check_and_update(*old(rl), now),
        r is Ok <==> (old(rl).last_drop_at == 0 || now - old(rl).last_drop_at
            >= MIN_RATE_LIMIT_SECONDS),
        r is Ok ==> final(rl).last_drop_at == now,
        r is Err ==> *final(rl) == *old(rl),
{
    if rl.last_drop_at != 0 {
        let elapsed: i128 = (now as i128) - (rl.last_drop_at as i128);
        if elapsed < MIN_RATE_LIMIT_SECONDS as i128 {
            return Err(DarkPoolError::RateLimitExceeded);
        }
    }
    rl.last_drop_at = now;
    Ok(())
}

/// Rate limit boundary: once a creation succeeds at time `t`, a second
/// attempt strictly less than the minimum interval later is rejected and
/// leaves the record unchanged, while one at or after the full interval
/// succeeds and restamps the record.
pub proof fn lemma_rate_limit_boundary(rl: RateLimitAccount, t: i64, t2: i64)
    requires
        t > 0,
        spec_check_and_update(rl, t).1 is Ok,
    ensures
        ({
            let rl1 = spec_check_and_update(rl, t).0;
            let (rl2, r2) = spec_check_and_update(rl1, t2);
            &&& t2 - t < MIN_RATE_LIMIT_SECONDS ==> (r2 == Err::<(), DarkPoolError>(
                DarkPoolError::RateLimitExceeded,
            ) && rl2 == rl1)
            &&& t2 - t >= MIN_RATE_LIMIT_SECONDS ==> (r2 is Ok && rl2.last_drop_at == t2)
        }),
{
}

/// Whether an expiry instant is acceptable for a drop created at `now`:
/// strictly in the future and between one minute and thirty days away.
pub open spec fn valid_expiration(expires_at: i64, now: i64) -> bool {
    &&& expires_at > now
    &&& expires_at - now >= MIN_EXPIRATION_WINDOW
    &&& expires_at - now <= MAX_EXPIRATION_WINDOW
}

fn check_expiration_window(expires_at: i64, now: i64) -> (r: bool)
    ensures
        r == valid_expiration(expires_at, now),
{
    expires_at > now && (expires_at as i128) - (now as i128) >= MIN_EXPIRATION_WINDOW as i128
        && (expires_at as i128) - (now as i128) <= MAX_EXPIRATION_WINDOW as i128
}

/// The nullifier record that drop creation stores: a record never written
/// before adopts the drop's nullifier, a matching record is reused as it is.
pub open spec fn spec_adopt_nullifier(
    na: NullifierAccount,
    nullifier: [u8; 32],
    nullifier_bump: u8,
) -> NullifierAccount {
    if na.nullifier@ == zero_key() {
        NullifierAccount {
            nullifier,
            is_used: false,
            claimer: zero_word(),
            used_at: 0,
            bump: nullifier_bump,
        }
    } else {
        na
    }
}

/// The records and result after an authority-initiated drop creation.
pub open spec fn spec_create_drop(
    c: Config,
    rl: RateLimitAccount,
    na: NullifierAccount,
    payer: [u8; 32],
    nullifier: [u8; 32],
    recipient: [u8; 32],
    amount: u64,
    asset_type: u8,
    expires_at: i64,
    now: i64,
    drop_bump: u8,
    nullifier_bump: u8,
    rate_limit_bump: u8,
) -> (RateLimitAccount, NullifierAccount, Result<DropAccount, DarkPoolError>) {
    if !c.is_initialized {
        (rl, na, Err(DarkPoolError::ConfigNotInitialized))
    } else if c.authority@ != payer@ {
        (rl, na, Err(DarkPoolError::UnauthorizedCreator))
    } else if amount == 0 {
        (rl, na, Err(DarkPoolError::InvalidAmount))
    } else if asset_type != 0 {
        (rl, na, Err(DarkPoolError::InvalidAssetType))
    } else if recipient@ == payer@ {
        (rl, na, Err(DarkPoolError::InvalidRecipient))
    } else if !valid_expiration(expires_at, now) {
        (rl, na, Err(DarkPoolError::InvalidExpiration))
    } else if rl.last_drop_at != 0 && now - rl.last_drop_at < MIN_RATE_LIMIT_SECONDS {
        (rl, na, Err(DarkPoolError::RateLimitExceeded))
    } else if na.nullifier@ != zero_key() && na.nullifier@ != nullifier@ {
        (rl, na, Err(DarkPoolError::InvalidNullifier))
    } else {
        (
            RateLimitAccount { last_drop_at: now, bump: rate_limit_bump },
            spec_adopt_nullifier(na, nullifier, nullifier_bump),
            Ok(
                DropAccount {
                    nullifier,
                    recipient,
                    amount,
                    asset_type,
                    status: DropStatus::Active,
                    expires_at,
                    created_at: now,
                    claimed_at: 0,
                    claimer: zero_word(),
                    bump: drop_bump,
                },
            ),
        )
    }
}

/// Creates a drop on behalf of the authority: the caller must be the current
/// authority, the recipient someone else, the amount positive, the asset the
/// native class, and the expiry inside its window. The caller's rate-limit
/// record is checked and restamped, and the nullifier record is adopted or
/// matched. Nothing changes when any check fails; the host persists the
/// returned record only on success.
pub fn create_drop(
    config: &Config,
    rate_limit: &mut RateLimitAccount,
    nullifier_account: &mut NullifierAccount,
    payer: [u8; 32],
    nullifier: [u8; 32],
    recipient: [u8; 32],
    amount: u64,
    asset_type: u8,
    expires_at: i64,
    now: i64,
    drop_bump: u8,
    nullifier_bump: u8,
    rate_limit_bump: u8,
) -> (r: Result<DropAccount, DarkPoolError>)
    ensures
        (*final(rate_limit), *final(nullifier_account), r) == spec_create_drop(
            *config,
            *old(rate_limit),
            *old(nullifier_account),
            payer,
            nullifier,
            recipient,
            amount,
            asset_type,
            expires_at,
            now,
            drop_bump,
            nullifier_bump,
            rate_limit_bump,
        ),
        r matches Ok(d) ==> d.wf() && d.status == DropStatus::Active,
        r is Err ==> *final(rate_limit) == *old(rate_limit) && *final(nullifier_account) == *old(
            nullifier_account,
        ),
{
    if !config.is_initialized {
        return Err(DarkPoolError::ConfigNotInitialized);
    }
    if !key_eq(&config.authority, &payer) {
        return Err(DarkPoolError::UnauthorizedCreator);
    }
    if amount == 0 {
        return Err(DarkPoolError::InvalidAmount);
    }
    if asset_type != 0 {
        return Err(DarkPoolError::InvalidAssetType);
    }
    if key_eq(&recipient, &payer) {
        return Err(DarkPoolError::InvalidRecipient);
    }
    if !check_expiration_window(expires_at, now) {
        return Err(DarkPoolError::InvalidExpiration);
    }
    if rate_limit.last_drop_at != 0 {
        let elapsed: i128 = (now as i128) - (rate_limit.last_drop_at as i128);
        if elapsed < MIN_RATE_LIMIT_SECONDS as i128 {
            return Err(DarkPoolError::RateLimitExceeded);
        }
    }
    if !is_zero_key(&nullifier_account.nullifier) && !key_eq(&nullifier_account.nullifier, &nullifier)
    {
        return Err(DarkPoolError::InvalidNullifier);
    }
    rate_limit.last_drop_at = now;
    rate_limit.bump = rate_limit_bump;
    if is_zero_key(&nullifier_account.nullifier) {
        nullifier_account.nullifier = nullifier;
        nullifier_account.is_used = false;
        nullifier_account.claimer = [0u8; 32];
        nullifier_account.used_at = 0;
        nullifier_account.bump = nullifier_bump;
    }
    Ok(
        DropAccount {
            nullifier,
            recipient,
            amount,
            asset_type,
            status: DropStatus::Active,
            expires_at,
            created_at: now,
            claimed_at: 0,
            claimer: [0u8; 32],
            bump: drop_bump,
        },
    )
}

/// The records and result after a self-service pool deposit. The depositor
/// becomes the drop's recipient, both asset classes are allowed, and an
/// expiry of zero means the drop never expires.
pub open spec fn spec_deposit_pool(
    c: Config,
    rl: RateLimitAccount,
    na: NullifierAccount,
    payer: [u8; 32],
    nullifier: [u8; 32],
    amount: u64,
    asset_type: u8,
    expires_at: i64,
    now: i64,
    drop_bump: u8,
    nullifier_bump: u8,
    rate_limit_bump: u8,
) -> (RateLimitAccount, NullifierAccount, Result<DropAccount, DarkPoolError>) {
    if !c.is_initialized {
        (rl, na, Err(DarkPoolError::ConfigNotInitialized))
    } else if amount == 0 {
        (rl, na, Err(DarkPoolError::InvalidAmount))
    } else if asset_type > 1 {
        (rl, na, Err(DarkPoolError::InvalidAssetType))
    } else if expires_at != 0 && !valid_expiration(expires_at, now) {
        (rl, na, Err(DarkPoolError::InvalidExpiration))
    } else if rl.last_drop_at != 0 && now - rl.last_drop_at < MIN_RATE_LIMIT_SECONDS {
        (rl, na, Err(DarkPoolError::RateLimitExceeded))
    } else if na.nullifier@ != zero_key() && na.nullifier@ != nullifier@ {
        (rl, na, Err(DarkPoolError::InvalidNullifier))
    } else {
        (
            RateLimitAccount { last_drop_at: now, bump: rate_limit_bump },
            spec_adopt_nullifier(na, nullifier, nullifier_bump),
            Ok(
                DropAccount {
                    nullifier,
                    recipient: payer,
                    amount,
                    asset_type,
                    status: DropStatus::Active,
                    expires_at,
                    created_at: now,
                    claimed_at: 0,
                    claimer: zero_word(),
                    bump: drop_bump,
                },
            ),
        )
    }
}

/// Creates a drop through a self-service deposit: open to any caller, who
/// becomes the recipient; the deposit of `amount` into the vault is issued
/// by the host only after this validation succeeds.
pub fn deposit_pool(
    config: &Config,
    rate_limit: &mut RateLimitAccount,
    nullifier_account: &mut NullifierAccount,
    payer: [u8; 32],
    nullifier: [u8; 32],
    amount: u64,
    asset_type: u8,
    expires_at: i64,
    now: i64,
    drop_bump: u8,
    nullifier_bump: u8,
    rate_limit_bump: u8,
) -> (r: Result<DropAccount, DarkPoolError>)
    ensures
        (*final(rate_limit), *final(nullifier_account), r) == spec_deposit_pool(
            *config,
            *old(rate_limit),
            *old(nullifier_account),
            payer,
            nullifier,
            amount,
            asset_type,
            expires_at,
            now,
            drop_bump,
            nullifier_bump,
            rate_limit_bump,
        ),
        r matches Ok(d) ==> d.wf() && d.status == DropStatus::Active && d.recipient == payer,
        r is Err ==> *final(rate_limit) == *old(rate_limit) && *final(nullifier_account) == *old(
            nullifier_account,
        ),
{
    if !config.is_initialized {
        return Err(DarkPoolError::ConfigNotInitialized);
    }
    if amount == 0 {
        return Err(DarkPoolError::InvalidAmount);
    }
    if asset_type > 1 {
        return Err(DarkPoolError::InvalidAssetType);
    }
    if expires_at != 0 && !check_expiration_window(expires_at, now) {
        return Err(DarkPoolError::InvalidExpiration);
    }
    if rate_limit.last_drop_at != 0 {
        let elapsed: i128 = (now as i128) - (rate_limit.last_drop_at as i128);
        if elapsed < MIN_RATE_LIMIT_SECONDS as i128 {
            return Err(DarkPoolError::RateLimitExceeded);
        }
    }
    if !is_zero_key(&nullifier_account.nullifier) && !key_eq(&nullifier_account.nullifier, &nullifier)
    {
        return Err(DarkPoolError::InvalidNullifier);
    }
    rate_limit.last_drop_at = now;
    rate_limit.bump = rate_limit_bump;
    if is_zero_key(&nullifier_account.nullifier) {
        nullifier_account.nullifier = nullifier;
        nullifier_account.is_used = false;
        nullifier_account.claimer = [0u8; 32];
        nullifier_account.used_at = 0;
        nullifier_account.bump = nullifier_bump;
    }
    Ok(
        DropAccount {
            nullifier,
            recipient: payer,
            amount,
            asset_type,
            status: DropStatus::Active,
            expires_at,
            created_at: now,
            claimed_at: 0,
            claimer: [0u8; 32],
            bump: drop_bump,
        },
    )
}

/// The records and result after a claim attempt. On success the result
/// carries `(payout, fee)`. The one failing path that still commits a write
/// is expiry discovered during the claim: the drop is marked `Expired` and
/// the call reports the expiry.
pub open spec fn spec_claim_drop(
    c: Config,
    d: DropAccount,
    n: NullifierAccount,
    nullifier: [u8; 32],
    claimer: [u8; 32],
    treasury: [u8; 32],
    vault_lamports: u64,
    now: i64,
) -> (DropAccount, NullifierAccount, Result<(u64, u64), DarkPoolError>) {
    if n.nullifier@ != nullifier@ {
        (d, n, Err(DarkPoolError::InvalidNullifier))
    } else if d.status != DropStatus::Active {
        (d, n, Err(DarkPoolError::DropNotActive))
    } else if n.is_used {
        (d, n, Err(DarkPoolError::NullifierAlreadyUsed))
    } else if d.nullifier@ != nullifier@ {
        (d, n, Err(DarkPoolError::InvalidNullifier))
    } else if d.expires_at != 0 && now > d.expires_at {
        (DropAccount { status: DropStatus::Expired, ..d }, n, Err(DarkPoolError::DropExpired))
    } else if !c.is_initialized {
        (d, n, Err(DarkPoolError::ConfigNotInitialized))
    } else if treasury@ != c.treasury@ {
        (d, n, Err(DarkPoolError::InvalidTreasury))
    } else if vault_lamports < d.amount {
        (d, n, Err(DarkPoolError::InsufficientVaultBalance))
    } else {
        (
            DropAccount { status: DropStatus::Claimed, claimed_at: now, claimer, ..d },
            NullifierAccount { is_used: true, used_at: now, claimer, ..n },
            Ok((((d.amount - spec_fee(d.amount, c.fee_bps)) as u64), (spec_fee(d.amount, c.fee_bps) as u64))),
        )
    }
}

/// Claims an active drop: the drop moves to `Claimed`, the nullifier is
/// marked used, and the host is told to pay `payout` to the claimer and
/// `fee` to the treasury. A claim on a drop whose expiry has passed commits
/// the `Expired` transition and reports failure; every other failure leaves
/// both records untouched.
pub fn claim_drop(
    config: &Config,
    drop: &mut DropAccount,
    nullifier_account: &mut NullifierAccount,
    nullifier: [u8; 32],
    claimer: [u8; 32],
    treasury: [u8; 32],
    vault_lamports: u64,
    now: i64,
) -> (r: Result<(u64, u64), DarkPoolError>)
    requires
        config.wf(),
    ensures
        (*final(drop), *final(nullifier_account), r) == spec_claim_drop(
            *config,
            *old(drop),
            *old(nullifier_account),
            nullifier,
            claimer,
            treasury,
            vault_lamports,
            now,
        ),
        r matches Ok(p) ==> p.0 + p.1 == old(drop).amount && p.1 == spec_fee(
            old(drop).amount,
            config.fee_bps,
        ),
        r matches Ok(p) ==> final(drop).status == DropStatus::Claimed
            && final(nullifier_account).is_used,
{
    if !key_eq(&nullifier_account.nullifier, &nullifier) {
        return Err(DarkPoolError::InvalidNullifier);
    }
    if !matches!(drop.status, DropStatus::Active) {
        return Err(DarkPoolError::DropNotActive);
    }
    if nullifier_account.is_used {
        return Err(DarkPoolError::NullifierAlreadyUsed);
    }
    if !key_eq(&drop.nullifier, &nullifier) {
        return Err(DarkPoolError::InvalidNullifier);
    }
    if drop.expires_at != 0 && now > drop.expires_at {
        drop.status = DropStatus::Expired;
        return Err(DarkPoolError::DropExpired);
    }
    if !config.is_initialized {
        return Err(DarkPoolError::ConfigNotInitialized);
    }
    if !key_eq(&treasury, &config.treasury) {
        return Err(DarkPoolError::InvalidTreasury);
    }
    if vault_lamports < drop.amount {
        return Err(DarkPoolError::InsufficientVaultBalance);
    }
    let (fee, payout) = compute_fee_split(drop.amount, config.fee_bps);
    drop.status = DropStatus::Claimed;
    drop.claimed_at = now;
    drop.claimer = claimer;
    nullifier_account.is_used = true;
    nullifier_account.used_at = now;
    nullifier_account.claimer = claimer;
    Ok((payout, fee))
}

/// The result of an expiry reclamation attempt. Validation only: the engine
/// mutates nothing, and on success the host reclaims both records' storage.
pub open spec fn spec_expire_drop(
    c: Config,
    d: DropAccount,
    n: NullifierAccount,
    nullifier: [u8; 32],
    caller: [u8; 32],
    now: i64,
) -> Result<DropExpired, DarkPoolError> {
    if n.nullifier@ != nullifier@ {
        Err(DarkPoolError::InvalidNullifier)
    } else if c.authority@ != caller@ {
        Err(DarkPoolError::UnauthorizedCreator)
    } else if !c.is_initialized {
        Err(DarkPoolError::ConfigNotInitialized)
    } else if d.nullifier@ != nullifier@ {
        Err(DarkPoolError::InvalidNullifier)
    } else if d.status != DropStatus::Active {
        Err(DarkPoolError::DropNotActive)
    } else if !(d.expires_at != 0 && now > d.expires_at) {
        Err(DarkPoolError::DropNotExpired)
    } else if n.is_used {
        Err(DarkPoolError::NullifierAlreadyUsed)
    } else {
        Ok(DropExpired { nullifier, recipient: d.recipient, expires_at: d.expires_at })
    }
}

/// Validates an expiry reclamation: only the authority may reclaim, only an
/// active, unclaimed drop whose non-zero expiry has passed. No value moves;
/// on success the host reclaims the two records' storage and emits the
/// returned notice.
pub fn expire_drop(
    config: &Config,
    drop: &DropAccount,
    nullifier_account: &NullifierAccount,
    nullifier: [u8; 32],
    caller: [u8; 32],
    now: i64,
) -> (r: Result<DropExpired, DarkPoolError>)
    ensures
        r == spec_expire_drop(*config, *drop, *nullifier_account, nullifier, caller, now),
        r is Ok <==> (nullifier_account.nullifier@ == nullifier@ && config.authority@ == caller@
            && config.is_initialized && drop.nullifier@ == nullifier@ && drop.status
            == DropStatus::Active && drop.expires_at != 0 && now > drop.expires_at
            && !nullifier_account.is_used),
{
    if !key_eq(&nullifier_account.nullifier, &nullifier) {
        return Err(DarkPoolError::InvalidNullifier);
    }
    if !key_eq(&config.authority, &caller) {
        return Err(DarkPoolError::UnauthorizedCreator);
    }
    if !config.is_initialized {
        return Err(DarkPoolError::ConfigNotInitialized);
    }
    if !key_eq(&drop.nullifier, &nullifier) {
        return Err(DarkPoolError::InvalidNullifier);
    }
    if !matches!(drop.status, DropStatus::Active) {
        return Err(DarkPoolError::DropNotActive);
    }
    if !(drop.expires_at != 0 && now > drop.expires_at) {
        return Err(DarkPoolError::DropNotExpired);
    }
    if nullifier_account.is_used {
        return Err(DarkPoolError::NullifierAlreadyUsed);
    }
    Ok(DropExpired { nullifier, recipient: drop.recipient, expires_at: drop.expires_at })
}

/// No double spend through the drop path: after one claim succeeds, the
/// nullifier is marked used and the drop is terminal, so any later claim
/// attempt on the records — whatever its caller, claimed nullifier, treasury,
/// vault balance or time — fails and leaves both records exactly as the
/// first claim left them. An attempt that names the same nullifier fails
/// with the replay guard on the drop's terminal status.
pub proof fn lemma_no_double_claim(
    c: Config,
    d: DropAccount,
    n: NullifierAccount,
    nullifier: [u8; 32],
    claimer: [u8; 32],
    treasury: [u8; 32],
    vault_lamports: u64,
    now: i64,
    c2: Config,
    nullifier2: [u8; 32],
    claimer2: [u8; 32],
    treasury2: [u8; 32],
    vault_lamports2: u64,
    now2: i64,
)
    ensures
        ({
            let (d1, n1, r1) = spec_claim_drop(
                c,
                d,
                n,
                nullifier,
                claimer,
                treasury,
                vault_lamports,
                now,
            );
            let (d2, n2, r2) = spec_claim_drop(
                c2,
                d1,
                n1,
                nullifier2,
                claimer2,
                treasury2,
                vault_lamports2,
                now2,
            );
            r1 is Ok ==> {
                &&& n1.is_used
                &&& d1.status == DropStatus::Claimed
                &&& r2 is Err
                &&& d2 == d1
                &&& n2 == n1
                &&& nullifier2@ == n1.nullifier@ ==> r2 == Err::<(u64, u64), DarkPoolError>(
                    DarkPoolError::DropNotActive,
                )
            }
        }),
{
}

/// Monotone drop status: a claim never touches a drop that is already
/// terminal, and when it does change the status the change is exactly
/// Active to Claimed (a successful claim) or Active to Expired (expiry
/// discovered during the claim). Expiry reclamation mutates nothing, so
/// these are the only status transitions the engine performs.
pub proof fn lemma_drop_status_monotone(
    c: Config,
    d: DropAccount,
    n: NullifierAccount,
    nullifier: [u8; 32],
    claimer: [u8; 32],
    treasury: [u8; 32],
    vault_lamports: u64,
    now: i64,
)
    ensures
        ({
            let (d1, n1, r1) = spec_claim_drop(
                c,
                d,
                n,
                nullifier,
                claimer,
                treasury,
                vault_lamports,
                now,
            );
            &&& d.status != DropStatus::Active ==> d1 == d && n1 == n && r1 is Err
            &&& d1.status != d.status ==> d.status == DropStatus::Active && (d1.status
                == DropStatus::Claimed || d1.status == DropStatus::Expired)
            &&& d1.status == DropStatus::Claimed && d.status == DropStatus::Active ==> r1 is Ok
                && n1.is_used
        }),
{
}

} // verus!
