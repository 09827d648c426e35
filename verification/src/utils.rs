//! The validation chain shared by every value-moving instruction:
//! expiration, record ownership, lock state, and re-derivation of the
//! liquidity-mint and vault addresses.

use vstd::prelude::*;

use crate::codec::keys_equal;
use crate::derivation::{
    check_eq_program_derived_address_with_bump, derived_address, liquidity_seeds_with_bump,
    spec_liquidity_seeds, spec_vault_seeds, vault_seeds_with_bump,
};
use crate::error::AmmError;
use crate::state::{Config, UNLOCKED};

verus! {

/// Scaling precision of the proportional share arithmetic.
pub const PRECISION: u32 = 1_000_000_000;

/// Whether a stored liquidity-mint address candidate re-derives from the
/// pool record address and the recorded bump.
pub open spec fn spec_liquidity_address_ok(
    pool: Config,
    program_id: [u8; 32],
    config_key: [u8; 32],
    mint_lp: [u8; 32],
) -> bool {
    derived_address(spec_liquidity_seeds(config_key@).push(seq![pool.lp_bump]), program_id@)
        == Some(mint_lp@)
}

/// Whether a vault address candidate re-derives from its asset id, the
/// pool record address and the recorded bump.
pub open spec fn spec_vault_address_ok(
    mint: [u8; 32],
    bump: u8,
    program_id: [u8; 32],
    config_key: [u8; 32],
    vault: [u8; 32],
) -> bool {
    derived_address(spec_vault_seeds(mint@, config_key@).push(seq![bump]), program_id@) == Some(
        vault@,
    )
}

/// The outcome of the shared validation chain, in its fixed order:
/// expiration, record ownership, lock state, then the liquidity-mint and
/// vault re-derivations.
pub open spec fn spec_basic_checks(
    pool: Config,
    expiration: i64,
    now: i64,
    config_owner: [u8; 32],
    program_id: [u8; 32],
    config_key: [u8; 32],
    mint_lp: [u8; 32],
    vault_x: [u8; 32],
    vault_y: [u8; 32],
) -> Result<(), AmmError> {
    if now > expiration {
        Err(AmmError::ExpiredRequest)
    } else if config_owner@ != program_id@ {
        Err(AmmError::AddressMismatch)
    } else if pool.locked != UNLOCKED {
        Err(AmmError::PoolLocked)
    } else if !spec_liquidity_address_ok(pool, program_id, config_key, mint_lp) {
        Err(AmmError::AddressMismatch)
    } else if !spec_vault_address_ok(pool.mint_x, pool.x_bump, program_id, config_key, vault_x) {
        Err(AmmError::AddressMismatch)
    } else if !spec_vault_address_ok(pool.mint_y, pool.y_bump, program_id, config_key, vault_y) {
        Err(AmmError::AddressMismatch)
    } else {
        Ok(())
    }
}

/// The outcome of the shared validation chain for instructions that do
/// not touch the liquidity mint: as `spec_basic_checks`, without the
/// liquidity-mint re-derivation.
pub open spec fn spec_basic_checks_with_no_lp(
    pool: Config,
    expiration: i64,
    now: i64,
    config_owner: [u8; 32],
    program_id: [u8; 32],
    config_key: [u8; 32],
    vault_x: [u8; 32],
    vault_y: [u8; 32],
) -> Result<(), AmmError> {
    if now > expiration {
        Err(AmmError::ExpiredRequest)
    } else if config_owner@ != program_id@ {
        Err(AmmError::AddressMismatch)
    } else if pool.locked != UNLOCKED {
        Err(AmmError::PoolLocked)
    } else if !spec_vault_address_ok(pool.mint_x, pool.x_bump, program_id, config_key, vault_x) {
        Err(AmmError::AddressMismatch)
    } else if !spec_vault_address_ok(pool.mint_y, pool.y_bump, program_id, config_key, vault_y) {
        Err(AmmError::AddressMismatch)
    } else {
        Ok(())
    }
}

/// Runs the shared validation chain: the request must not be expired,
/// the record must belong to this program, trading must be allowed, and
/// the liquidity-mint and both vault addresses must re-derive from their
/// recorded bumps.
pub fn perform_basic_checks(
    config_account: &Config,
    expiration: i64,
    now: i64,
    config_owner: &[u8; 32],
    program_id: &[u8; 32],
    config_key: &[u8; 32],
    mint_lp: &[u8; 32],
    vault_x: &[u8; 32],
    vault_y: &[u8; 32],
) -> (r: Result<(), AmmError>)
    ensures
        r == spec_basic_checks(
            *config_account,
            expiration,
            now,
            *config_owner,
            *program_id,
            *config_key,
            *mint_lp,
            *vault_x,
            *vault_y,
        ),
{
    if now > expiration {
        return Err(AmmError::ExpiredRequest);
    }
    if !keys_equal(config_owner, program_id) {
        return Err(AmmError::AddressMismatch);
    }
    if config_account.locked != UNLOCKED {
        return Err(AmmError::PoolLocked);
    }
    let lp_seeds = liquidity_seeds_with_bump(config_key, config_account.lp_bump);
    if let Err(e) = check_eq_program_derived_address_with_bump(&lp_seeds, program_id, mint_lp) {
        return Err(e);
    }
    let x_seeds = vault_seeds_with_bump(&config_account.mint_x, config_key, config_account.x_bump);
    if let Err(e) = check_eq_program_derived_address_with_bump(&x_seeds, program_id, vault_x) {
        return Err(e);
    }
    let y_seeds = vault_seeds_with_bump(&config_account.mint_y, config_key, config_account.y_bump);
    if let Err(e) = check_eq_program_derived_address_with_bump(&y_seeds, program_id, vault_y) {
        return Err(e);
    }
    Ok(())
}

/// Runs the shared validation chain without a liquidity-mint check, for
/// instructions that do not touch the liquidity mint.
pub fn perform_basic_checks_with_no_lp(
    config_account: &Config,
    expiration: i64,
    now: i64,
    config_owner: &[u8; 32],
    program_id: &[u8; 32],
    config_key: &[u8; 32],
    vault_x: &[u8; 32],
    vault_y: &[u8; 32],
) -> (r: Result<(), AmmError>)
    ensures
        r == spec_basic_checks_with_no_lp(
            *config_account,
            expiration,
            now,
            *config_owner,
            *program_id,
            *config_key,
            *vault_x,
            *vault_y,
        ),
{
    if now > expiration {
        return Err(AmmError::ExpiredRequest);
    }
    if !keys_equal(config_owner, program_id) {
        return Err(AmmError::AddressMismatch);
    }
    if config_account.locked != UNLOCKED {
        return Err(AmmError::PoolLocked);
    }
    let x_seeds = vault_seeds_with_bump(&config_account.mint_x, config_key, config_account.x_bump);
    if let Err(e) = check_eq_program_derived_address_with_bump(&x_seeds, program_id, vault_x) {
        return Err(e);
    }
    let y_seeds = vault_seeds_with_bump(&config_account.mint_y, config_key, config_account.y_bump);
    if let Err(e) = check_eq_program_derived_address_with_bump(&y_seeds, program_id, vault_y) {
        return Err(e);
    }
    Ok(())
}

} // verus!
