use darkpool::authority::accept_authority;
use darkpool::authority::cancel_authority_proposal;
use darkpool::authority::initialize;
use darkpool::authority::propose_authority;
use darkpool::authority::update_authority_delay;
use darkpool::errors::DarkPoolError;
use darkpool::state::Config;

fn word(tag: u8) -> [u8; 32] {
    let mut w = [0u8; 32];
    w[0] = tag;
    w
}

fn test_config() -> Config {
    initialize(word(1), word(2), 250, 0).unwrap()
}

#[test]
fn initialize_defaults_and_errors() {
    let c = test_config();
    assert_eq!(c.authority, word(1));
    assert!(c.is_initialized);
    assert_eq!(c.pending_authority, [0u8; 32]);
    assert_eq!(c.pending_authority_set_at, 0);
    assert_eq!(c.authority_delay_seconds, 86_400);
    assert_eq!(c.treasury, word(2));
    assert_eq!(c.fee_bps, 250);

    assert_eq!(
        initialize(word(1), [0u8; 32], 250, 0).unwrap_err(),
        DarkPoolError::InvalidTreasury
    );
    assert_eq!(
        initialize(word(1), word(2), 1001, 0).unwrap_err(),
        DarkPoolError::InvalidFeeBps
    );
    assert!(initialize(word(1), word(2), 1000, 0).is_ok());
}

#[test]
fn propose_requires_authority_and_no_pending() {
    let mut c = test_config();
    let r = propose_authority(&mut c, word(5), word(6), 1000);
    assert_eq!(r.unwrap_err(), DarkPoolError::UnauthorizedCreator);

    let r = propose_authority(&mut c, word(1), [0u8; 32], 1000);
    assert_eq!(r.unwrap_err(), DarkPoolError::InvalidAuthority);

    let ev = propose_authority(&mut c, word(1), word(6), 1000).unwrap();
    assert_eq!(ev.current_authority, word(1));
    assert_eq!(ev.pending_authority, word(6));
    assert_eq!(ev.delay_seconds, 86_400);
    assert_eq!(c.pending_authority, word(6));
    assert_eq!(c.pending_authority_set_at, 1000);

    let r = propose_authority(&mut c, word(1), word(7), 1001);
    assert_eq!(r.unwrap_err(), DarkPoolError::PendingAuthorityExists);
    assert_eq!(c.pending_authority, word(6));
}

#[test]
fn cancel_clears_pending_fields() {
    let mut c = test_config();
    let r = cancel_authority_proposal(&mut c, word(1));
    assert_eq!(r.unwrap_err(), DarkPoolError::NoPendingAuthority);

    propose_authority(&mut c, word(1), word(6), 1000).unwrap();
    let r = cancel_authority_proposal(&mut c, word(5));
    assert_eq!(r.unwrap_err(), DarkPoolError::UnauthorizedCreator);

    let ev = cancel_authority_proposal(&mut c, word(1)).unwrap();
    assert_eq!(ev.cancelled_authority, word(6));
    assert_eq!(c.pending_authority, [0u8; 32]);
    assert_eq!(c.pending_authority_set_at, 0);
    assert_eq!(c.authority, word(1));
}

#[test]
fn timelock_boundary_scenario() {
    // Propose at t=0 is never acceptable (the proposal instant must be
    // positive for the pending timestamp to register), so the scenario
    // starts the clock at 1 and reduces the delay to its minimum of 900.
    let mut c = test_config();
    update_authority_delay(&mut c, word(1), 900).unwrap();
    propose_authority(&mut c, word(1), word(6), 1).unwrap();

    let r = accept_authority(&mut c, word(6), 900);
    assert_eq!(r.unwrap_err(), DarkPoolError::AuthorityDelayNotElapsed);
    assert_eq!(c.authority, word(1));
    assert_eq!(c.pending_authority, word(6));

    let ev = accept_authority(&mut c, word(6), 901).unwrap();
    assert_eq!(ev.previous_authority, word(1));
    assert_eq!(ev.new_authority, word(6));
    assert_eq!(c.authority, word(6));
    assert_eq!(c.pending_authority, [0u8; 32]);
    assert_eq!(c.pending_authority_set_at, 0);
}

#[test]
fn accept_requires_pending_signer() {
    let mut c = test_config();
    let r = accept_authority(&mut c, word(6), 1000);
    assert_eq!(r.unwrap_err(), DarkPoolError::NoPendingAuthority);

    propose_authority(&mut c, word(1), word(6), 1000).unwrap();
    let r = accept_authority(&mut c, word(7), 100_000);
    assert_eq!(r.unwrap_err(), DarkPoolError::NoPendingAuthority);
    assert_eq!(c.authority, word(1));

    let r = accept_authority(&mut c, word(6), 1000 + 86_399);
    assert_eq!(r.unwrap_err(), DarkPoolError::AuthorityDelayNotElapsed);
    assert!(accept_authority(&mut c, word(6), 1000 + 86_400).is_ok());
}

#[test]
fn update_delay_bounds() {
    let mut c = test_config();
    let r = update_authority_delay(&mut c, word(5), 900);
    assert_eq!(r.unwrap_err(), DarkPoolError::UnauthorizedCreator);

    let r = update_authority_delay(&mut c, word(1), 899);
    assert_eq!(r.unwrap_err(), DarkPoolError::InvalidAuthorityDelay);
    let r = update_authority_delay(&mut c, word(1), 604_801);
    assert_eq!(r.unwrap_err(), DarkPoolError::InvalidAuthorityDelay);
    assert_eq!(c.authority_delay_seconds, 86_400);

    let ev = update_authority_delay(&mut c, word(1), 900).unwrap();
    assert_eq!(ev.new_delay_seconds, 900);
    assert_eq!(c.authority_delay_seconds, 900);
    assert!(update_authority_delay(&mut c, word(1), 604_800).is_ok());
    assert_eq!(c.authority_delay_seconds, 604_800);
}
