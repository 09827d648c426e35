//! The initialize instruction: verifies that every supplied address
//! re-derives from fresh seeds, rejects out-of-range fees, and builds
//! the pool record with its permanent bumps and an unlocked state.

use vstd::prelude::*;

use crate::codec::keys_equal;
use crate::derivation::{
    check_eq_program_derived_address_and_get_bump, check_eq_program_derived_address_with_bump,
    config_seeds, config_seeds_with_bump, derived_address, found_program_address,
    liquidity_seeds, liquidity_seeds_with_bump, spec_config_seeds, spec_liquidity_seeds,
    spec_vault_seeds, vault_seeds, vault_seeds_with_bump,
};
use crate::error::AmmError;
use crate::instructions::Initialize;
use crate::state::{Config, UNLOCKED};

verus! {

/// The record that `Config::initialize` builds: the fee must be below
/// 100% and all four addresses must re-derive against their asserted
/// bumps, in the order pool record, liquidity mint, first vault, second
/// vault.
pub open spec fn spec_config_initialize(
    seed: u64,
    authority: [u8; 32],
    fee: u16,
    config_bump: u8,
    lp_bump: u8,
    x_bump: u8,
    y_bump: u8,
    mint_x: [u8; 32],
    mint_y: [u8; 32],
    program_id: [u8; 32],
    config_key: [u8; 32],
    mint_lp: [u8; 32],
    vault_x: [u8; 32],
    vault_y: [u8; 32],
) -> Result<Config, AmmError> {
    if fee >= 10000 {
        Err(AmmError::ConfigError)
    } else if derived_address(spec_config_seeds(seed).push(seq![config_bump]), program_id@)
        != Some(config_key@) {
        Err(AmmError::AddressMismatch)
    } else if derived_address(spec_liquidity_seeds(config_key@).push(seq![lp_bump]), program_id@)
        != Some(mint_lp@) {
        Err(AmmError::AddressMismatch)
    } else if derived_address(
        spec_vault_seeds(mint_x@, config_key@).push(seq![x_bump]),
        program_id@,
    ) != Some(vault_x@) {
        Err(AmmError::AddressMismatch)
    } else if derived_address(
        spec_vault_seeds(mint_y@, config_key@).push(seq![y_bump]),
        program_id@,
    ) != Some(vault_y@) {
        Err(AmmError::AddressMismatch)
    } else {
        Ok(
            (Config {
                seed,
                authority,
                mint_x,
                mint_y,
                fee,
                locked: UNLOCKED,
                config_bump,
                lp_bump,
                x_bump,
                y_bump,
            }),
        )
    }
}

impl Config {
    /// Builds a pool record from asserted bumps: rejects a fee of 100%
    /// or more, re-derives all four addresses against the bumps, and
    /// starts the pool unlocked. A record this returns is well formed.
    pub fn initialize(
        seed: u64,
        authority: &[u8; 32],
        fee: u16,
        config_bump: u8,
        lp_bump: u8,
        x_bump: u8,
        y_bump: u8,
        mint_x: &[u8; 32],
        mint_y: &[u8; 32],
        program_id: &[u8; 32],
        config_key: &[u8; 32],
        mint_lp: &[u8; 32],
        vault_x: &[u8; 32],
        vault_y: &[u8; 32],
    ) -> (r: Result<Config, AmmError>)
        ensures
            r == spec_config_initialize(
                seed,
                *authority,
                fee,
                config_bump,
                lp_bump,
                x_bump,
                y_bump,
                *mint_x,
                *mint_y,
                *program_id,
                *config_key,
                *mint_lp,
                *vault_x,
                *vault_y,
            ),
            r matches Ok(c) ==> c.wf() && c.spec_trading_allowed(),
    {
        if fee >= 10000 {
            return Err(AmmError::ConfigError);
        }
        let seeds = config_seeds_with_bump(seed, config_bump);
        if let Err(e) = check_eq_program_derived_address_with_bump(
            &seeds,
            program_id,
            config_key,
        ) {
            return Err(e);
        }
        let seeds = liquidity_seeds_with_bump(config_key, lp_bump);
        if let Err(e) = check_eq_program_derived_address_with_bump(&seeds, program_id, mint_lp) {
            return Err(e);
        }
        let seeds = vault_seeds_with_bump(mint_x, config_key, x_bump);
        if let Err(e) = check_eq_program_derived_address_with_bump(&seeds, program_id, vault_x) {
            return Err(e);
        }
        let seeds = vault_seeds_with_bump(mint_y, config_key, y_bump);
        if let Err(e) = check_eq_program_derived_address_with_bump(&seeds, program_id, vault_y) {
            return Err(e);
        }
        Ok(
            Config {
                seed,
                authority: *authority,
                mint_x: *mint_x,
                mint_y: *mint_y,
                fee,
                locked: UNLOCKED,
                config_bump,
                lp_bump,
                x_bump,
                y_bump,
            },
        )
    }
}

/// The bump that the ledger's search finds for a seed phrase, provided
/// the found address is the candidate; otherwise nothing.
pub open spec fn spec_checked_bump(
    seeds: Seq<Seq<u8>>,
    program_id: [u8; 32],
    candidate: [u8; 32],
) -> Option<u8> {
    match found_program_address(seeds, program_id@) {
        Some(pair) => if pair.0 == candidate@ {
            Some(pair.1)
        } else {
            None
        },
        None => None,
    }
}

/// The outcome of an initialize instruction: all four addresses must
/// re-derive (pool record, both vaults, liquidity mint, in that order),
/// the fee must be below 100%, and the value-transfer service must be
/// the expected one; the new pool starts unlocked and keeps the four
/// bumps permanently.
pub open spec fn spec_process_initialize(
    ix: Initialize,
    program_id: [u8; 32],
    token_program: [u8; 32],
    expected_token_program: [u8; 32],
    config_key: [u8; 32],
    mint_x: [u8; 32],
    mint_y: [u8; 32],
    mint_lp: [u8; 32],
    vault_x: [u8; 32],
    vault_y: [u8; 32],
) -> Result<Config, AmmError> {
    let config_bump = spec_checked_bump(spec_config_seeds(ix.seed), program_id, config_key);
    let x_bump = spec_checked_bump(spec_vault_seeds(mint_x@, config_key@), program_id, vault_x);
    let y_bump = spec_checked_bump(spec_vault_seeds(mint_y@, config_key@), program_id, vault_y);
    let lp_bump = spec_checked_bump(spec_liquidity_seeds(config_key@), program_id, mint_lp);
    if config_bump is None {
        Err(AmmError::AddressMismatch)
    } else if x_bump is None {
        Err(AmmError::AddressMismatch)
    } else if y_bump is None {
        Err(AmmError::AddressMismatch)
    } else if lp_bump is None {
        Err(AmmError::AddressMismatch)
    } else if ix.fee >= 10000 {
        Err(AmmError::ConfigError)
    } else if token_program@ != expected_token_program@ {
        Err(AmmError::AddressMismatch)
    } else {
        Ok(
            (Config {
                seed: ix.seed,
                authority: ix.authority,
                mint_x,
                mint_y,
                fee: ix.fee,
                locked: UNLOCKED,
                config_bump: config_bump->Some_0,
                lp_bump: lp_bump->Some_0,
                x_bump: x_bump->Some_0,
                y_bump: y_bump->Some_0,
            }),
        )
    }
}

/// Validates an initialize request and builds the pool record. The
/// record is well formed by construction; creating and provisioning the
/// accounts is the custodian's work and happens only after success.
pub fn process(
    ix: &Initialize,
    program_id: &[u8; 32],
    token_program: &[u8; 32],
    expected_token_program: &[u8; 32],
    config_key: &[u8; 32],
    mint_x: &[u8; 32],
    mint_y: &[u8; 32],
    mint_lp: &[u8; 32],
    vault_x: &[u8; 32],
    vault_y: &[u8; 32],
) -> (r: Result<Config, AmmError>)
    ensures
        r == spec_process_initialize(
            *ix,
            *program_id,
            *token_program,
            *expected_token_program,
            *config_key,
            *mint_x,
            *mint_y,
            *mint_lp,
            *vault_x,
            *vault_y,
        ),
        r matches Ok(c) ==> c.wf() && c.spec_trading_allowed(),
{
    let seeds = config_seeds(ix.seed);
    let config_bump = match check_eq_program_derived_address_and_get_bump(
        &seeds,
        program_id,
        config_key,
    ) {
        Ok(b) => b,
        Err(e) => {
            return Err(e);
        },
    };
    let seeds = vault_seeds(mint_x, config_key);
    let x_bump = match check_eq_program_derived_address_and_get_bump(
        &seeds,
        program_id,
        vault_x,
    ) {
        Ok(b) => b,
        Err(e) => {
            return Err(e);
        },
    };
    let seeds = vault_seeds(mint_y, config_key);
    let y_bump = match check_eq_program_derived_address_and_get_bump(
        &seeds,
        program_id,
        vault_y,
    ) {
        Ok(b) => b,
        Err(e) => {
            return Err(e);
        },
    };
    let seeds = liquidity_seeds(config_key);
    let lp_bump = match check_eq_program_derived_address_and_get_bump(
        &seeds,
        program_id,
        mint_lp,
    ) {
        Ok(b) => b,
        Err(e) => {
            return Err(e);
        },
    };
    let pool = match Config::initialize(
        ix.seed,
        &ix.authority,
        ix.fee,
        config_bump,
        lp_bump,
        x_bump,
        y_bump,
        mint_x,
        mint_y,
        program_id,
        config_key,
        mint_lp,
        vault_x,
        vault_y,
    ) {
        Ok(c) => c,
        Err(e) => {
            return Err(e);
        },
    };
    if !keys_equal(token_program, expected_token_program) {
        return Err(AmmError::AddressMismatch);
    }
    Ok(pool)
}

} // verus!
