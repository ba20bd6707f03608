use vstd::prelude::*;
use crate::errors::DarkPoolError;
use crate::events::AuthorityAccepted;
use crate::events::AuthorityDelayUpdated;
use crate::events::AuthorityProposalCancelled;
use crate::events::AuthorityProposed;
use crate::keys::is_zero_key;
use crate::keys::key_eq;
use crate::keys::zero_key;
use crate::keys::zero_word;
use crate::state::Config;
use crate::state::DEFAULT_AUTHORITY_DELAY_SECONDS;
use crate::state::MAX_AUTHORITY_DELAY_SECONDS;
use crate::state::MAX_FEE_BPS;
use crate::state::MIN_AUTHORITY_DELAY_SECONDS;

verus! {

/// Creates the singleton configuration: the caller becomes the authority, no
/// rotation is pending, and the rotation delay starts at its default. A zero
/// treasury or an over-cap fee rate is rejected.
pub fn initialize(
    authority: [u8; 32],
    treasury: [u8; 32],
    fee_bps: u16,
    sol_vault_bump: u8,
) -> (r: Result<Config, DarkPoolError>)
    ensures
        treasury@ == zero_key() ==> r == Err::<Config, DarkPoolError>(
            DarkPoolError::InvalidTreasury,
        ),
        treasury@ != zero_key() && fee_bps > MAX_FEE_BPS ==> r == Err::<Config, DarkPoolError>(
            DarkPoolError::InvalidFeeBps,
        ),
        treasury@ != zero_key() && fee_bps <= MAX_FEE_BPS ==> (r matches Ok(c) && c == (Config {
            authority,
            is_initialized: true,
            pending_authority: zero_word(),
            pending_authority_set_at: 0,
            authority_delay_seconds: DEFAULT_AUTHORITY_DELAY_SECONDS,
            treasury,
            fee_bps,
            sol_vault_bump,
        }) && c.wf() && !c.has_pending()),
{
    if is_zero_key(&treasury) {
        return Err(DarkPoolError::InvalidTreasury);
    }
    if fee_bps > MAX_FEE_BPS {
        return Err(DarkPoolError::InvalidFeeBps);
    }
    let c = Config {
        authority,
        is_initialized: true,
        pending_authority: [0u8; 32],
        pending_authority_set_at: 0,
        authority_delay_seconds: DEFAULT_AUTHORITY_DELAY_SECONDS,
        treasury,
        fee_bps,
        sol_vault_bump,
    };
    proof {
        assert(c.pending_authority@ =~= zero_key());
    }
    Ok(c)
}

/// The configuration and result after a rotation proposal.
pub open spec fn spec_propose_authority(
    c: Config,
    caller: [u8; 32],
    new_authority: [u8; 32],
    now: i64,
) -> (Config, Result<AuthorityProposed, DarkPoolError>) {
    if !c.is_initialized {
        (c, Err(DarkPoolError::ConfigNotInitialized))
    } else if caller@ != c.authority@ {
        (c, Err(DarkPoolError::UnauthorizedCreator))
    } else if new_authority@ == zero_key() {
        (c, Err(DarkPoolError::InvalidAuthority))
    } else if c.has_pending() {
        (c, Err(DarkPoolError::PendingAuthorityExists))
    } else {
        (
            Config { pending_authority: new_authority, pending_authority_set_at: now, ..c },
            Ok(
                AuthorityProposed {
                    current_authority: caller,
                    pending_authority: new_authority,
                    delay_seconds: c.authority_delay_seconds,
                },
            ),
        )
    }
}

/// Proposes a rotation of the privileged key. Only the current authority may
/// propose, the proposed key must be non-zero, and at most one proposal can
/// be pending at a time.
pub fn propose_authority(
    config: &mut Config,
    caller: [u8; 32],
    new_authority: [u8; 32],
    now: i64,
) -> (r: Result<AuthorityProposed, DarkPoolError>)
    ensures
        (*final(config), r) == spec_propose_authority(*old(config), caller, new_authority, now),
        r is Ok <==> (old(config).is_initialized && caller@ == old(config).authority@
            && new_authority@ != zero_key() && !old(config).has_pending()),
        r is Err ==> *final(config) == *old(config),
{
    if !config.is_initialized {
        return Err(DarkPoolError::ConfigNotInitialized);
    }
    if !key_eq(&caller, &config.authority) {
        return Err(DarkPoolError::UnauthorizedCreator);
    }
    if is_zero_key(&new_authority) {
        return Err(DarkPoolError::InvalidAuthority);
    }
    if !is_zero_key(&config.pending_authority) {
        return Err(DarkPoolError::PendingAuthorityExists);
    }
    config.pending_authority = new_authority;
    config.pending_authority_set_at = now;
    Ok(
        AuthorityProposed {
            current_authority: caller,
            pending_authority: new_authority,
            delay_seconds: config.authority_delay_seconds,
        },
    )
}

/// The configuration and result after cancelling a proposal.
pub open spec fn spec_cancel_authority_proposal(c: Config, caller: [u8; 32]) -> (
    Config,
    Result<AuthorityProposalCancelled, DarkPoolError>,
) {
    if !c.is_initialized {
        (c, Err(DarkPoolError::ConfigNotInitialized))
    } else if caller@ != c.authority@ {
        (c, Err(DarkPoolError::UnauthorizedCreator))
    } else if !c.has_pending() {
        (c, Err(DarkPoolError::NoPendingAuthority))
    } else {
        (
            Config { pending_authority: zero_word(), pending_authority_set_at: 0, ..c },
            Ok(
                AuthorityProposalCancelled {
                    authority: caller,
                    cancelled_authority: c.pending_authority,
                },
            ),
        )
    }
}

/// Cancels the pending rotation. Only the current authority may cancel, and
/// only while a proposal is pending.
pub fn cancel_authority_proposal(config: &mut Config, caller: [u8; 32]) -> (r: Result<
    AuthorityProposalCancelled,
    DarkPoolError,
>)
    ensures
        (*final(config), r) == spec_cancel_authority_proposal(*old(config), caller),
        r is Ok <==> (old(config).is_initialized && caller@ == old(config).authority@ && old(
            config,
        ).has_pending()),
        r is Err ==> *final(config) == *old(config),
{
    if !config.is_initialized {
        return Err(DarkPoolError::ConfigNotInitialized);
    }
    if !key_eq(&caller, &config.authority) {
        return Err(DarkPoolError::UnauthorizedCreator);
    }
    if is_zero_key(&config.pending_authority) {
        return Err(DarkPoolError::NoPendingAuthority);
    }
    let cancelled = config.pending_authority;
    config.pending_authority = [0u8; 32];
    config.pending_authority_set_at = 0;
    proof {
        assert(config.pending_authority@ =~= zero_key());
    }
    Ok(AuthorityProposalCancelled { authority: caller, cancelled_authority: cancelled })
}

/// The configuration and result after an acceptance attempt.
pub open spec fn spec_accept_authority(c: Config, caller: [u8; 32], now: i64) -> (
    Config,
    Result<AuthorityAccepted, DarkPoolError>,
) {
    if !c.is_initialized {
        (c, Err(DarkPoolError::ConfigNotInitialized))
    } else if c.pending_authority@ != caller@ {
        (c, Err(DarkPoolError::NoPendingAuthority))
    } else if c.pending_authority_set_at <= 0 {
        (c, Err(DarkPoolError::NoPendingAuthority))
    } else if now - c.pending_authority_set_at < c.authority_delay_seconds {
        (c, Err(DarkPoolError::AuthorityDelayNotElapsed))
    } else {
        (
            Config {
                authority: c.pending_authority,
                pending_authority: zero_word(),
                pending_authority_set_at: 0,
                ..c
            },
            Ok(AuthorityAccepted { previous_authority: c.authority, new_authority: caller }),
        )
    }
}

/// Finalizes a rotation. Only the proposed key itself may accept, and only
/// after the configured delay has fully elapsed since the proposal.
pub fn accept_authority(config: &mut Config, caller: [u8; 32], now: i64) -> (r: Result<
    AuthorityAccepted,
    DarkPoolError,
>)
    ensures
        (*final(config), r) == spec_accept_authority(*old(config), caller, now),
        r is Ok <==> (old(config).is_initialized && old(config).pending_authority@ == caller@
            && old(config).pending_authority_set_at > 0 && now - old(
            config,
        ).pending_authority_set_at >= old(config).authority_delay_seconds),
        r is Err ==> *final(config) == *old(config),
{
    if !config.is_initialized {
        return Err(DarkPoolError::ConfigNotInitialized);
    }
    if !key_eq(&config.pending_authority, &caller) {
        return Err(DarkPoolError::NoPendingAuthority);
    }
    if config.pending_authority_set_at <= 0 {
        return Err(DarkPoolError::NoPendingAuthority);
    }
    let elapsed: i128 = (now as i128) - (config.pending_authority_set_at as i128);
    if elapsed < config.authority_delay_seconds as i128 {
        return Err(DarkPoolError::AuthorityDelayNotElapsed);
    }
    let previous = config.authority;
    config.authority = config.pending_authority;
    config.pending_authority = [0u8; 32];
    config.pending_authority_set_at = 0;
    Ok(AuthorityAccepted { previous_authority: previous, new_authority: caller })
}

/// The configuration and result after a delay update.
pub open spec fn spec_update_authority_delay(c: Config, caller: [u8; 32], new_delay: i64) -> (
    Config,
    Result<AuthorityDelayUpdated, DarkPoolError>,
) {
    if caller@ != c.authority@ {
        (c, Err(DarkPoolError::UnauthorizedCreator))
    } else if !c.is_initialized {
        (c, Err(DarkPoolError::ConfigNotInitialized))
    } else if !(MIN_AUTHORITY_DELAY_SECONDS <= new_delay <= MAX_AUTHORITY_DELAY_SECONDS) {
        (c, Err(DarkPoolError::InvalidAuthorityDelay))
    } else {
        (
            Config { authority_delay_seconds: new_delay, ..c },
            Ok(AuthorityDelayUpdated { authority: caller, new_delay_seconds: new_delay }),
        )
    }
}

/// Reconfigures the rotation delay, keeping it inside its legal bounds.
pub fn update_authority_delay(config: &mut Config, caller: [u8; 32], new_delay_seconds: i64) -> (r:
    Result<AuthorityDelayUpdated, DarkPoolError>)
    ensures
        (*final(config), r) == spec_update_authority_delay(
            *old(config),
            caller,
            new_delay_seconds,
        ),
        r is Ok <==> (caller@ == old(config).authority@ && old(config).is_initialized
            && MIN_AUTHORITY_DELAY_SECONDS <= new_delay_seconds <= MAX_AUTHORITY_DELAY_SECONDS),
        r is Ok ==> final(config).wf() == (old(config).fee_bps <= MAX_FEE_BPS),
        r is Err ==> *final(config) == *old(config),
{
    if !key_eq(&caller, &config.authority) {
        return Err(DarkPoolError::UnauthorizedCreator);
    }
    if !config.is_initialized {
        return Err(DarkPoolError::ConfigNotInitialized);
    }
    if new_delay_seconds < MIN_AUTHORITY_DELAY_SECONDS
        || new_delay_seconds > MAX_AUTHORITY_DELAY_SECONDS {
        return Err(DarkPoolError::InvalidAuthorityDelay);
    }
    config.authority_delay_seconds = new_delay_seconds;
    Ok(AuthorityDelayUpdated { authority: caller, new_delay_seconds })
}

/// Timelock enforcement: after a successful proposal at time `t`, acceptance
/// by the proposed key strictly before `t + delay` always fails with the
/// delay error and changes nothing, while acceptance at or after `t + delay`
/// succeeds, installs the proposed key, and clears the pending fields.
pub proof fn lemma_timelock_enforcement(
    c: Config,
    caller: [u8; 32],
    new_authority: [u8; 32],
    t: i64,
    now: i64,
)
    requires
        t > 0,
        spec_propose_authority(c, caller, new_authority, t).1 is Ok,
    ensures
        ({
            let (c1, r1) = spec_propose_authority(c, caller, new_authority, t);
            let (c2, r2) = spec_accept_authority(c1, new_authority, now);
            &&& now - t < c.authority_delay_seconds ==> (r2 == Err::<
                AuthorityAccepted,
                DarkPoolError,
            >(DarkPoolError::AuthorityDelayNotElapsed) && c2 == c1)
            &&& now - t >= c.authority_delay_seconds ==> (r2 is Ok && c2.authority@
                == new_authority@ && !c2.has_pending() && c2.pending_authority_set_at == 0)
        }),
{
    let (c1, r1) = spec_propose_authority(c, caller, new_authority, t);
    let (c2, r2) = spec_accept_authority(c1, new_authority, now);
    if now - t >= c.authority_delay_seconds {
        assert(c2.pending_authority@ =~= zero_key());
    }
}

} // verus!
