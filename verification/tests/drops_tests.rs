use darkpool::authority::initialize;
use darkpool::compute_fee_split;
use darkpool::drops::check_and_update;
use darkpool::drops::claim_drop;
use darkpool::drops::create_drop;
use darkpool::drops::deposit_pool;
use darkpool::drops::expire_drop;
use darkpool::errors::DarkPoolError;
use darkpool::state::Config;
use darkpool::state::DropStatus;
use darkpool::state::NullifierAccount;
use darkpool::state::RateLimitAccount;

fn word(tag: u8) -> [u8; 32] {
    let mut w = [0u8; 32];
    w[0] = tag;
    w
}

fn test_config(fee_bps: u16) -> Config {
    initialize(word(1), word(2), fee_bps, 0).unwrap()
}

fn fresh_nullifier_account() -> NullifierAccount {
    NullifierAccount {
        nullifier: [0u8; 32],
        is_used: false,
        claimer: [0u8; 32],
        used_at: 0,
        bump: 0,
    }
}

fn fresh_rate_limit() -> RateLimitAccount {
    RateLimitAccount { last_drop_at: 0, bump: 0 }
}

#[test]
fn create_then_claim_pays_fee_and_payout() {
    let config = test_config(250);
    let mut rl = fresh_rate_limit();
    let mut na = fresh_nullifier_account();
    let nullifier = word(9);
    let mut drop = create_drop(
        &config, &mut rl, &mut na, word(1), nullifier, word(3), 1000, 0, 1100, 1000, 0, 0, 0,
    )
    .unwrap();
    assert_eq!(drop.amount, 1000);
    assert!(matches!(drop.status, DropStatus::Active));
    assert_eq!(na.nullifier, nullifier);
    assert!(!na.is_used);
    assert_eq!(rl.last_drop_at, 1000);

    let (payout, fee) =
        claim_drop(&config, &mut drop, &mut na, nullifier, word(4), word(2), 10_000, 1050).unwrap();
    assert_eq!(fee, 25);
    assert_eq!(payout, 975);
    assert!(matches!(drop.status, DropStatus::Claimed));
    assert_eq!(drop.claimer, word(4));
    assert_eq!(drop.claimed_at, 1050);
    assert!(na.is_used);
    assert_eq!(na.used_at, 1050);
}

#[test]
fn fee_split_exact_values() {
    assert_eq!(compute_fee_split(1000, 250), (25, 975));
    assert_eq!(compute_fee_split(1000, 0), (0, 1000));
    assert_eq!(compute_fee_split(1, 1000), (0, 1));
    assert_eq!(compute_fee_split(u64::MAX, 1000), (u64::MAX / 10, u64::MAX - u64::MAX / 10));
    let (fee, payout) = compute_fee_split(12345, 37);
    assert_eq!(fee, 12345u64 * 37 / 10000);
    assert_eq!(fee + payout, 12345);
}

#[test]
fn second_claim_is_rejected_and_changes_nothing() {
    let config = test_config(250);
    let mut rl = fresh_rate_limit();
    let mut na = fresh_nullifier_account();
    let nullifier = word(9);
    let mut drop = create_drop(
        &config, &mut rl, &mut na, word(1), nullifier, word(3), 1000, 0, 1100, 1000, 0, 0, 0,
    )
    .unwrap();
    claim_drop(&config, &mut drop, &mut na, nullifier, word(4), word(2), 10_000, 1050).unwrap();

    let r = claim_drop(&config, &mut drop, &mut na, nullifier, word(5), word(2), 10_000, 1060);
    assert_eq!(r.unwrap_err(), DarkPoolError::DropNotActive);
    assert!(matches!(drop.status, DropStatus::Claimed));
    assert_eq!(drop.claimer, word(4));
    assert!(na.is_used);
    assert_eq!(na.claimer, word(4));
}

#[test]
fn claim_of_used_nullifier_is_rejected() {
    let config = test_config(0);
    let nullifier = word(9);
    let mut drop = create_drop(
        &config,
        &mut fresh_rate_limit(),
        &mut fresh_nullifier_account(),
        word(1),
        nullifier,
        word(3),
        1000,
        0,
        1100,
        1000,
        0,
        0,
        0,
    )
    .unwrap();
    let mut na = NullifierAccount {
        nullifier,
        is_used: true,
        claimer: word(8),
        used_at: 10,
        bump: 0,
    };
    let r = claim_drop(&config, &mut drop, &mut na, nullifier, word(4), word(2), 10_000, 1050);
    assert_eq!(r.unwrap_err(), DarkPoolError::NullifierAlreadyUsed);
    assert!(matches!(drop.status, DropStatus::Active));
}

#[test]
fn claim_discovering_expiry_commits_expired_status() {
    let config = test_config(250);
    let mut rl = fresh_rate_limit();
    let mut na = fresh_nullifier_account();
    let nullifier = word(9);
    let mut drop = create_drop(
        &config, &mut rl, &mut na, word(1), nullifier, word(3), 1000, 0, 1100, 1000, 0, 0, 0,
    )
    .unwrap();
    let r = claim_drop(&config, &mut drop, &mut na, nullifier, word(4), word(2), 10_000, 1101);
    assert_eq!(r.unwrap_err(), DarkPoolError::DropExpired);
    assert!(matches!(drop.status, DropStatus::Expired));
    assert!(!na.is_used);
}

#[test]
fn claim_requires_matching_nullifier_and_funds() {
    let config = test_config(250);
    let mut rl = fresh_rate_limit();
    let mut na = fresh_nullifier_account();
    let nullifier = word(9);
    let mut drop = create_drop(
        &config, &mut rl, &mut na, word(1), nullifier, word(3), 1000, 0, 1100, 1000, 0, 0, 0,
    )
    .unwrap();

    let r = claim_drop(&config, &mut drop, &mut na, word(8), word(4), word(2), 10_000, 1050);
    assert_eq!(r.unwrap_err(), DarkPoolError::InvalidNullifier);

    let r = claim_drop(&config, &mut drop, &mut na, nullifier, word(4), word(7), 10_000, 1050);
    assert_eq!(r.unwrap_err(), DarkPoolError::InvalidTreasury);

    let r = claim_drop(&config, &mut drop, &mut na, nullifier, word(4), word(2), 999, 1050);
    assert_eq!(r.unwrap_err(), DarkPoolError::InsufficientVaultBalance);
    assert!(matches!(drop.status, DropStatus::Active));
    assert!(!na.is_used);
}

#[test]
fn create_drop_validation_errors() {
    let config = test_config(250);
    let mut rl = fresh_rate_limit();
    let mut na = fresh_nullifier_account();

    let mut uninit = config;
    uninit.is_initialized = false;
    let r = create_drop(
        &uninit, &mut rl, &mut na, word(1), word(9), word(3), 1000, 0, 1100, 1000, 0, 0, 0,
    );
    assert_eq!(r.unwrap_err(), DarkPoolError::ConfigNotInitialized);

    let r = create_drop(
        &config, &mut rl, &mut na, word(5), word(9), word(3), 1000, 0, 1100, 1000, 0, 0, 0,
    );
    assert_eq!(r.unwrap_err(), DarkPoolError::UnauthorizedCreator);

    let r = create_drop(
        &config, &mut rl, &mut na, word(1), word(9), word(3), 0, 0, 1100, 1000, 0, 0, 0,
    );
    assert_eq!(r.unwrap_err(), DarkPoolError::InvalidAmount);

    let r = create_drop(
        &config, &mut rl, &mut na, word(1), word(9), word(3), 1000, 1, 1100, 1000, 0, 0, 0,
    );
    assert_eq!(r.unwrap_err(), DarkPoolError::InvalidAssetType);

    let r = create_drop(
        &config, &mut rl, &mut na, word(1), word(9), word(1), 1000, 0, 1100, 1000, 0, 0, 0,
    );
    assert_eq!(r.unwrap_err(), DarkPoolError::InvalidRecipient);

    assert_eq!(rl.last_drop_at, 0);
    assert_eq!(na.nullifier, [0u8; 32]);
}

#[test]
fn create_drop_expiration_window_boundaries() {
    let config = test_config(250);
    let now = 1000i64;

    let try_expiry = |expires_at: i64| {
        let mut rl = fresh_rate_limit();
        let mut na = fresh_nullifier_account();
        create_drop(
            &config, &mut rl, &mut na, word(1), word(9), word(3), 1000, 0, expires_at, now, 0, 0, 0,
        )
    };

    assert_eq!(try_expiry(now).unwrap_err(), DarkPoolError::InvalidExpiration);
    assert_eq!(try_expiry(now + 59).unwrap_err(), DarkPoolError::InvalidExpiration);
    assert!(try_expiry(now + 60).is_ok());
    assert!(try_expiry(now + 2_592_000).is_ok());
    assert_eq!(try_expiry(now + 2_592_001).unwrap_err(), DarkPoolError::InvalidExpiration);
    assert_eq!(try_expiry(0).unwrap_err(), DarkPoolError::InvalidExpiration);
}

#[test]
fn rate_limit_boundary_nine_fails_ten_succeeds() {
    let config = test_config(250);
    let mut rl = fresh_rate_limit();
    let mut na = fresh_nullifier_account();
    create_drop(
        &config, &mut rl, &mut na, word(1), word(9), word(3), 1000, 0, 1100, 1000, 0, 0, 0,
    )
    .unwrap();
    assert_eq!(rl.last_drop_at, 1000);

    let mut na2 = fresh_nullifier_account();
    let r = create_drop(
        &config, &mut rl, &mut na2, word(1), word(10), word(3), 1000, 0, 1109, 1009, 0, 0, 0,
    );
    assert_eq!(r.unwrap_err(), DarkPoolError::RateLimitExceeded);
    assert_eq!(rl.last_drop_at, 1000);

    let r = create_drop(
        &config, &mut rl, &mut na2, word(1), word(10), word(3), 1000, 0, 1110, 1010, 0, 0, 0,
    );
    assert!(r.is_ok());
    assert_eq!(rl.last_drop_at, 1010);
}

#[test]
fn check_and_update_exempts_fresh_record_once() {
    let mut rl = fresh_rate_limit();
    assert!(check_and_update(&mut rl, 100).is_ok());
    assert_eq!(rl.last_drop_at, 100);
    assert_eq!(check_and_update(&mut rl, 109).unwrap_err(), DarkPoolError::RateLimitExceeded);
    assert_eq!(rl.last_drop_at, 100);
    assert!(check_and_update(&mut rl, 110).is_ok());
    assert_eq!(rl.last_drop_at, 110);
}

#[test]
fn create_drop_rejects_conflicting_nullifier_record() {
    let config = test_config(250);
    let mut rl = fresh_rate_limit();
    let mut na = NullifierAccount {
        nullifier: word(8),
        is_used: false,
        claimer: [0u8; 32],
        used_at: 0,
        bump: 0,
    };
    let r = create_drop(
        &config, &mut rl, &mut na, word(1), word(9), word(3), 1000, 0, 1100, 1000, 0, 0, 0,
    );
    assert_eq!(r.unwrap_err(), DarkPoolError::InvalidNullifier);
    assert_eq!(rl.last_drop_at, 0);

    // A record that already matches is reused as it stands.
    let r = create_drop(
        &config, &mut rl, &mut na, word(1), word(8), word(3), 1000, 0, 1100, 1000, 0, 0, 0,
    );
    assert!(r.is_ok());
    assert_eq!(na.nullifier, word(8));
}

#[test]
fn deposit_pool_forces_recipient_and_allows_both_assets() {
    let config = test_config(250);
    let mut rl = fresh_rate_limit();
    let mut na = fresh_nullifier_account();
    let drop =
        deposit_pool(&config, &mut rl, &mut na, word(6), word(9), 500, 1, 0, 1000, 0, 0, 0)
            .unwrap();
    assert_eq!(drop.recipient, word(6));
    assert_eq!(drop.asset_type, 1);
    assert_eq!(drop.expires_at, 0);

    let mut na2 = fresh_nullifier_account();
    let r = deposit_pool(&config, &mut rl, &mut na2, word(6), word(10), 500, 2, 0, 1010, 0, 0, 0);
    assert_eq!(r.unwrap_err(), DarkPoolError::InvalidAssetType);
}

#[test]
fn deposit_pool_nonzero_expiry_must_fit_window() {
    let config = test_config(0);
    let mut rl = fresh_rate_limit();
    let mut na = fresh_nullifier_account();
    let r = deposit_pool(&config, &mut rl, &mut na, word(6), word(9), 500, 0, 1059, 1000, 0, 0, 0);
    assert_eq!(r.unwrap_err(), DarkPoolError::InvalidExpiration);
    let r = deposit_pool(&config, &mut rl, &mut na, word(6), word(9), 500, 0, 1060, 1000, 0, 0, 0);
    assert!(r.is_ok());
}

#[test]
fn deposit_pool_zero_expiry_never_expires() {
    let config = test_config(0);
    let mut rl = fresh_rate_limit();
    let mut na = fresh_nullifier_account();
    let nullifier = word(9);
    let mut drop =
        deposit_pool(&config, &mut rl, &mut na, word(6), nullifier, 500, 0, 0, 1000, 0, 0, 0)
            .unwrap();
    // Far in the future, a zero-expiry drop still claims successfully.
    let r = claim_drop(&config, &mut drop, &mut na, nullifier, word(6), word(2), 10_000, 9_000_000);
    assert!(r.is_ok());
}

#[test]
fn expire_drop_validations_and_success() {
    let config = test_config(250);
    let mut rl = fresh_rate_limit();
    let mut na = fresh_nullifier_account();
    let nullifier = word(9);
    let drop = create_drop(
        &config, &mut rl, &mut na, word(1), nullifier, word(3), 1000, 0, 1100, 1000, 0, 0, 0,
    )
    .unwrap();

    let r = expire_drop(&config, &drop, &na, nullifier, word(5), 1200);
    assert_eq!(r.unwrap_err(), DarkPoolError::UnauthorizedCreator);

    let r = expire_drop(&config, &drop, &na, nullifier, word(1), 1100);
    assert_eq!(r.unwrap_err(), DarkPoolError::DropNotExpired);

    let ev = expire_drop(&config, &drop, &na, nullifier, word(1), 1101).unwrap();
    assert_eq!(ev.nullifier, nullifier);
    assert_eq!(ev.recipient, word(3));
    assert_eq!(ev.expires_at, 1100);
}

#[test]
fn expire_drop_rejects_claimed_or_used() {
    let config = test_config(250);
    let mut rl = fresh_rate_limit();
    let mut na = fresh_nullifier_account();
    let nullifier = word(9);
    let mut drop = create_drop(
        &config, &mut rl, &mut na, word(1), nullifier, word(3), 1000, 0, 1100, 1000, 0, 0, 0,
    )
    .unwrap();
    claim_drop(&config, &mut drop, &mut na, nullifier, word(4), word(2), 10_000, 1050).unwrap();

    let r = expire_drop(&config, &drop, &na, nullifier, word(1), 1200);
    assert_eq!(r.unwrap_err(), DarkPoolError::DropNotActive);
}
