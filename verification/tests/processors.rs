//! Tests of the instruction processors: the validation chain, the
//! worked swap examples, the bootstrap deposit, and the lock lifecycle,
//! against genuinely derived addresses.

use native_amm::deposit::DepositPlan;
use native_amm::instructions::{Deposit, Initialize, Swap, Withdraw};
use native_amm::state::{Config, LOCKED, REVOKED, UNLOCKED};
use native_amm::swap::SwapPlan;
use native_amm::withdraw::WithdrawPlan;
use native_amm::{deposit, initialize, lock, swap, withdraw, AmmError};
use solana_program::pubkey::Pubkey;

const TOKEN_PROGRAM: [u8; 32] = [7u8; 32];
const AUTHORITY: [u8; 32] = [9u8; 32];

struct Fixture {
    program_id: [u8; 32],
    config_key: [u8; 32],
    mint_lp: [u8; 32],
    vault_x: [u8; 32],
    vault_y: [u8; 32],
    pool: Config,
}

fn fixture(fee: u16) -> Fixture {
    let program_id = [11u8; 32];
    let program = Pubkey::new_from_array(program_id);
    let seed: u64 = 1337;
    let (config, config_bump) =
        Pubkey::find_program_address(&[b"config", &seed.to_le_bytes()], &program);
    let config_key = config.to_bytes();
    let mint_x = [2u8; 32];
    let mint_y = [3u8; 32];
    let (vault_x, x_bump) = Pubkey::find_program_address(&[&mint_x, &config_key], &program);
    let (vault_y, y_bump) = Pubkey::find_program_address(&[&mint_y, &config_key], &program);
    let (mint_lp, lp_bump) = Pubkey::find_program_address(&[&config_key], &program);
    Fixture {
        program_id,
        config_key,
        mint_lp: mint_lp.to_bytes(),
        vault_x: vault_x.to_bytes(),
        vault_y: vault_y.to_bytes(),
        pool: Config {
            seed,
            authority: AUTHORITY,
            mint_x,
            mint_y,
            fee,
            locked: UNLOCKED,
            config_bump,
            lp_bump,
            x_bump,
            y_bump,
        },
    }
}

fn run_deposit(f: &Fixture, ix: &Deposit, reserves: (u64, u64), supply: u64) -> Result<
    DepositPlan,
    AmmError,
> {
    deposit::process(
        ix,
        0,
        true,
        &TOKEN_PROGRAM,
        &TOKEN_PROGRAM,
        &f.program_id,
        &f.program_id,
        &f.config_key,
        &f.pool,
        &f.mint_lp,
        &f.vault_x,
        &f.vault_y,
        reserves.0,
        reserves.1,
        supply,
    )
}

fn run_withdraw(f: &Fixture, ix: &Withdraw, reserves: (u64, u64), supply: u64) -> Result<
    WithdrawPlan,
    AmmError,
> {
    withdraw::process(
        ix,
        0,
        true,
        &TOKEN_PROGRAM,
        &TOKEN_PROGRAM,
        &f.program_id,
        &f.program_id,
        &f.config_key,
        &f.pool,
        &f.mint_lp,
        &f.vault_x,
        &f.vault_y,
        reserves.0,
        reserves.1,
        supply,
    )
}

fn run_swap(f: &Fixture, ix: &Swap, reserves: (u64, u64), source_mint: &[u8; 32]) -> Result<
    SwapPlan,
    AmmError,
> {
    swap::process(
        ix,
        0,
        true,
        &TOKEN_PROGRAM,
        &TOKEN_PROGRAM,
        &f.program_id,
        &f.program_id,
        &f.config_key,
        &f.pool,
        &f.vault_x,
        &f.vault_y,
        reserves.0,
        reserves.1,
        source_mint,
    )
}

#[test]
fn bootstrap_deposit_is_taken_verbatim() {
    // An empty pool takes exactly the declared maxima; no curve
    // arithmetic is involved.
    let f = fixture(100);
    let ix = Deposit { amount: 100_000, max_x: 1000, max_y: 2000, expiration: 0 };
    let plan = run_deposit(&f, &ix, (0, 0), 0).unwrap();
    assert_eq!(plan, DepositPlan { deposit_x: 1000, deposit_y: 2000, mint_shares: 100_000 });
}

#[test]
fn deposit_charges_proportional_amounts() {
    let f = fixture(100);
    let ix = Deposit { amount: 50_000, max_x: 10, max_y: 15, expiration: 0 };
    let plan = run_deposit(&f, &ix, (20, 30), 100_000).unwrap();
    assert_eq!(plan, DepositPlan { deposit_x: 10, deposit_y: 15, mint_shares: 50_000 });
}

#[test]
fn deposit_over_the_maxima_is_slippage() {
    let f = fixture(100);
    let ix = Deposit { amount: 50_000, max_x: 9, max_y: 15, expiration: 0 };
    assert_eq!(run_deposit(&f, &ix, (20, 30), 100_000), Err(AmmError::SlippageExceeded));
}

#[test]
fn deposit_validation_chain_fails_fast() {
    let f = fixture(100);
    let ix = Deposit { amount: 1, max_x: 10, max_y: 15, expiration: -1 };
    // The deadline (-1) lies before `now` (0).
    assert_eq!(run_deposit(&f, &ix, (20, 30), 100_000), Err(AmmError::ExpiredRequest));

    let ix = Deposit { amount: 1, max_x: 10, max_y: 15, expiration: 0 };
    let unsigned = deposit::process(
        &ix,
        0,
        false,
        &TOKEN_PROGRAM,
        &TOKEN_PROGRAM,
        &f.program_id,
        &f.program_id,
        &f.config_key,
        &f.pool,
        &f.mint_lp,
        &f.vault_x,
        &f.vault_y,
        20,
        30,
        100_000,
    );
    assert_eq!(unsigned, Err(AmmError::Unauthorized));

    let wrong_service = deposit::process(
        &ix,
        0,
        true,
        &[1u8; 32],
        &TOKEN_PROGRAM,
        &f.program_id,
        &f.program_id,
        &f.config_key,
        &f.pool,
        &f.mint_lp,
        &f.vault_x,
        &f.vault_y,
        20,
        30,
        100_000,
    );
    assert_eq!(wrong_service, Err(AmmError::AddressMismatch));

    let foreign_owner = deposit::process(
        &ix,
        0,
        true,
        &TOKEN_PROGRAM,
        &TOKEN_PROGRAM,
        &f.program_id,
        &[1u8; 32],
        &f.config_key,
        &f.pool,
        &f.mint_lp,
        &f.vault_x,
        &f.vault_y,
        20,
        30,
        100_000,
    );
    assert_eq!(foreign_owner, Err(AmmError::AddressMismatch));

    let mut locked = f.pool;
    locked.locked = LOCKED;
    let on_locked = deposit::process(
        &ix,
        0,
        true,
        &TOKEN_PROGRAM,
        &TOKEN_PROGRAM,
        &f.program_id,
        &f.program_id,
        &f.config_key,
        &locked,
        &f.mint_lp,
        &f.vault_x,
        &f.vault_y,
        20,
        30,
        100_000,
    );
    assert_eq!(on_locked, Err(AmmError::PoolLocked));

    // A vault that does not re-derive is refused.
    assert_eq!(
        deposit::process(
            &ix,
            0,
            true,
            &TOKEN_PROGRAM,
            &TOKEN_PROGRAM,
            &f.program_id,
            &f.program_id,
            &f.config_key,
            &f.pool,
            &f.mint_lp,
            &[0u8; 32],
            &f.vault_y,
            20,
            30,
            100_000,
        ),
        Err(AmmError::AddressMismatch)
    );
}

#[test]
fn deposit_overflow_is_reported() {
    let f = fixture(100);
    // Nonzero reserves with zero supply cannot be priced.
    let ix = Deposit { amount: 1, max_x: u64::MAX, max_y: u64::MAX, expiration: 0 };
    assert_eq!(run_deposit(&f, &ix, (20, 30), 0), Err(AmmError::ArithmeticOverflow));
}

#[test]
fn withdraw_pays_proportional_amounts() {
    let f = fixture(100);
    let ix = Withdraw { amount: 50_000, min_x: 10, min_y: 15, expiration: 0 };
    let plan = run_withdraw(&f, &ix, (20, 30), 100_000).unwrap();
    assert_eq!(plan, WithdrawPlan { withdraw_x: 10, withdraw_y: 15, burn_shares: 50_000 });
}

#[test]
fn withdraw_under_the_minima_is_slippage() {
    let f = fixture(100);
    let ix = Withdraw { amount: 50_000, min_x: 11, min_y: 15, expiration: 0 };
    assert_eq!(run_withdraw(&f, &ix, (20, 30), 100_000), Err(AmmError::SlippageExceeded));
}

#[test]
fn withdraw_beyond_the_supply_is_overflow() {
    let f = fixture(100);
    let ix = Withdraw { amount: 100_001, min_x: 0, min_y: 0, expiration: 0 };
    assert_eq!(run_withdraw(&f, &ix, (20, 30), 100_000), Err(AmmError::ArithmeticOverflow));
}

#[test]
fn swap_without_fee_matches_the_worked_example() {
    let f = fixture(0);
    let mint_x = f.pool.mint_x;
    let ix = Swap { amount: 5, min: 0, expiration: 0 };
    let plan = run_swap(&f, &ix, (20, 30), &mint_x).unwrap();
    assert_eq!(
        plan,
        SwapPlan { from_x_to_y: true, amount_in: 5, amount_out: 6, fee_amount: 0 }
    );
}

#[test]
fn swap_with_fee_matches_the_worked_example() {
    let f = fixture(100);
    let mint_x = f.pool.mint_x;
    let ix = Swap { amount: 5, min: 0, expiration: 0 };
    let plan = run_swap(&f, &ix, (20, 30), &mint_x).unwrap();
    assert_eq!(
        plan,
        SwapPlan { from_x_to_y: true, amount_in: 5, amount_out: 5, fee_amount: 1 }
    );
}

#[test]
fn swap_direction_follows_the_source_mint() {
    let f = fixture(0);
    let mint_y = f.pool.mint_y;
    let ix = Swap { amount: 5, min: 0, expiration: 0 };
    let plan = run_swap(&f, &ix, (20, 30), &mint_y).unwrap();
    // Swapping 5 of the second asset in: 20 - floor(600 / 35) = 3 out.
    assert_eq!(
        plan,
        SwapPlan { from_x_to_y: false, amount_in: 5, amount_out: 3, fee_amount: 0 }
    );
}

#[test]
fn swap_min_above_payout_is_slippage() {
    let f = fixture(100);
    let mint_x = f.pool.mint_x;
    // The true payout is 5; a minimum of 6 must fail, and the error
    // carries no plan, so no custodian operation can follow.
    let ix = Swap { amount: 5, min: 6, expiration: 0 };
    assert_eq!(run_swap(&f, &ix, (20, 30), &mint_x), Err(AmmError::SlippageExceeded));
}

#[test]
fn swap_on_an_empty_reserve_is_overflow() {
    let f = fixture(100);
    let mint_x = f.pool.mint_x;
    let ix = Swap { amount: 5, min: 0, expiration: 0 };
    assert_eq!(run_swap(&f, &ix, (0, 30), &mint_x), Err(AmmError::ArithmeticOverflow));
    assert_eq!(run_swap(&f, &ix, (20, 0), &mint_x), Err(AmmError::ArithmeticOverflow));
}

#[test]
fn lock_lifecycle_via_processor() {
    let f = fixture(100);
    let mut pool = f.pool;

    // The correct authority can lock and unlock repeatedly.
    for _ in 0..2 {
        assert_eq!(
            lock::process(&mut pool, LOCKED, &AUTHORITY, true, &f.program_id, &f.program_id),
            Ok(())
        );
        assert_eq!(pool.locked, LOCKED);
        assert_eq!(
            lock::process(&mut pool, UNLOCKED, &AUTHORITY, true, &f.program_id, &f.program_id),
            Ok(())
        );
        assert_eq!(pool.locked, UNLOCKED);
    }

    // Any other signer is refused and the pool is unchanged.
    assert_eq!(
        lock::process(&mut pool, LOCKED, &[1u8; 32], true, &f.program_id, &f.program_id),
        Err(AmmError::Unauthorized)
    );
    assert_eq!(
        lock::process(&mut pool, LOCKED, &AUTHORITY, false, &f.program_id, &f.program_id),
        Err(AmmError::Unauthorized)
    );
    assert_eq!(pool, f.pool);

    // Once revoked, every lock call fails, whatever it requests.
    pool.locked = REVOKED;
    assert_eq!(
        lock::process(&mut pool, UNLOCKED, &AUTHORITY, true, &f.program_id, &f.program_id),
        Err(AmmError::AlreadyRevoked)
    );
    assert_eq!(
        lock::process(&mut pool, LOCKED, &AUTHORITY, true, &f.program_id, &f.program_id),
        Err(AmmError::AlreadyRevoked)
    );
    assert_eq!(pool.locked, REVOKED);
}

#[test]
fn initialize_builds_the_pool_record() {
    let f = fixture(100);
    let ix = Initialize { seed: f.pool.seed, fee: 100, authority: AUTHORITY, padding: [0u8; 6] };
    let built = initialize::process(
        &ix,
        &f.program_id,
        &TOKEN_PROGRAM,
        &TOKEN_PROGRAM,
        &f.config_key,
        &f.pool.mint_x,
        &f.pool.mint_y,
        &f.mint_lp,
        &f.vault_x,
        &f.vault_y,
    )
    .unwrap();
    assert_eq!(built, f.pool);
}

#[test]
fn initialize_rejects_bad_inputs() {
    let f = fixture(100);
    let ix = Initialize { seed: f.pool.seed, fee: 10_000, authority: AUTHORITY, padding: [0u8; 6] };
    assert_eq!(
        initialize::process(
            &ix,
            &f.program_id,
            &TOKEN_PROGRAM,
            &TOKEN_PROGRAM,
            &f.config_key,
            &f.pool.mint_x,
            &f.pool.mint_y,
            &f.mint_lp,
            &f.vault_x,
            &f.vault_y,
        ),
        Err(AmmError::ConfigError)
    );

    let ix = Initialize { seed: f.pool.seed, fee: 100, authority: AUTHORITY, padding: [0u8; 6] };
    assert_eq!(
        initialize::process(
            &ix,
            &f.program_id,
            &[1u8; 32],
            &TOKEN_PROGRAM,
            &f.config_key,
            &f.pool.mint_x,
            &f.pool.mint_y,
            &f.mint_lp,
            &f.vault_x,
            &f.vault_y,
        ),
        Err(AmmError::AddressMismatch)
    );
    assert_eq!(
        initialize::process(
            &ix,
            &f.program_id,
            &TOKEN_PROGRAM,
            &TOKEN_PROGRAM,
            &f.config_key,
            &f.pool.mint_x,
            &f.pool.mint_y,
            &f.mint_lp,
            &[0u8; 32],
            &f.vault_y,
        ),
        Err(AmmError::AddressMismatch)
    );
}
