//! Tests of the pool record: its packed layout, its invariant, and its
//! lock-state transitions.

use native_amm::state::{Config, CONFIG_LEN, LOCKED, REVOKED, UNLOCKED};
use native_amm::AmmError;

fn sample_pool() -> Config {
    Config {
        seed: 1337,
        authority: [9u8; 32],
        mint_x: [2u8; 32],
        mint_y: [3u8; 32],
        fee: 100,
        locked: UNLOCKED,
        config_bump: 254,
        lp_bump: 253,
        x_bump: 252,
        y_bump: 251,
    }
}

#[test]
fn config_record_round_trip() {
    let pool = sample_pool();
    let bytes = pool.to_bytes();
    assert_eq!(bytes.len(), CONFIG_LEN);
    assert_eq!(&bytes[0..8], &1337u64.to_le_bytes());
    assert_eq!(&bytes[8..40], &[9u8; 32]);
    assert_eq!(&bytes[40..72], &[2u8; 32]);
    assert_eq!(&bytes[72..104], &[3u8; 32]);
    assert_eq!(&bytes[104..106], &100u16.to_le_bytes());
    assert_eq!(&bytes[106..112], &[UNLOCKED, 254, 253, 252, 251, 0]);
    assert_eq!(Config::try_from(&bytes), Ok(pool));
}

#[test]
fn config_record_rejects_bad_shapes() {
    let pool = sample_pool();
    let bytes = pool.to_bytes();
    assert_eq!(Config::try_from(&bytes[..111]), Err(AmmError::MalformedPayload));
    assert_eq!(Config::try_from(&[]), Err(AmmError::MalformedPayload));

    // A fee of 100% or more breaks the record invariant.
    let mut bad_fee = bytes.clone();
    bad_fee[104..106].copy_from_slice(&10_000u16.to_le_bytes());
    assert_eq!(Config::try_from(&bad_fee), Err(AmmError::MalformedPayload));

    // An undefined lock state breaks the record invariant.
    let mut bad_lock = bytes.clone();
    bad_lock[106] = 3;
    assert_eq!(Config::try_from(&bad_lock), Err(AmmError::MalformedPayload));
}

#[test]
fn validate_not_locked_refuses_locked_and_revoked() {
    let mut pool = sample_pool();
    assert!(pool.validate_not_locked().is_ok());
    pool.locked = LOCKED;
    assert_eq!(pool.validate_not_locked(), Err(AmmError::PoolLocked));
    pool.locked = REVOKED;
    assert_eq!(pool.validate_not_locked(), Err(AmmError::PoolLocked));
}

#[test]
fn lock_unlock_cycle_repeats_for_the_authority() {
    let mut pool = sample_pool();
    let authority = pool.authority;
    for _ in 0..3 {
        assert_eq!(pool.set_lock_state(LOCKED, &authority), Ok(()));
        assert_eq!(pool.locked, LOCKED);
        assert_eq!(pool.set_lock_state(UNLOCKED, &authority), Ok(()));
        assert_eq!(pool.locked, UNLOCKED);
    }
    assert_eq!(pool, sample_pool());
}

#[test]
fn lock_rejects_other_signers() {
    let mut pool = sample_pool();
    let stranger = [8u8; 32];
    assert_eq!(pool.set_lock_state(LOCKED, &stranger), Err(AmmError::Unauthorized));
    assert_eq!(pool, sample_pool());
}

#[test]
fn lock_rejects_undefined_states() {
    let mut pool = sample_pool();
    let authority = pool.authority;
    assert_eq!(pool.set_lock_state(REVOKED, &authority), Err(AmmError::ConfigError));
    assert_eq!(pool.set_lock_state(9, &authority), Err(AmmError::ConfigError));
    assert_eq!(pool, sample_pool());
}

#[test]
fn revocation_is_terminal() {
    let mut pool = sample_pool();
    pool.locked = REVOKED;
    let authority = pool.authority;
    assert_eq!(pool.set_lock_state(UNLOCKED, &authority), Err(AmmError::AlreadyRevoked));
    assert_eq!(pool.set_lock_state(LOCKED, &authority), Err(AmmError::AlreadyRevoked));
    assert_eq!(pool.locked, REVOKED);
}
