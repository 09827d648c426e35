//! Tests of the derive-and-compare address checks against the ledger's
//! real derivation.

use native_amm::derivation::{
    check_eq_program_derived_address_and_get_bump, check_eq_program_derived_address_with_bump,
    config_seeds, config_seeds_with_bump, liquidity_seeds, liquidity_seeds_with_bump,
    vault_seeds, vault_seeds_with_bump,
};
use native_amm::AmmError;
use solana_program::pubkey::Pubkey;

const PROGRAM_ID: [u8; 32] = [11u8; 32];

#[test]
fn config_address_check_agrees_with_the_ledger() {
    let seed: u64 = 1337;
    let program = Pubkey::new_from_array(PROGRAM_ID);
    let (expected, bump) =
        Pubkey::find_program_address(&[b"config", &seed.to_le_bytes()], &program);

    let found = check_eq_program_derived_address_and_get_bump(
        &config_seeds(seed),
        &PROGRAM_ID,
        &expected.to_bytes(),
    );
    assert_eq!(found, Ok(bump));

    let check = check_eq_program_derived_address_with_bump(
        &config_seeds_with_bump(seed, bump),
        &PROGRAM_ID,
        &expected.to_bytes(),
    );
    assert_eq!(check, Ok(()));
}

#[test]
fn vault_and_liquidity_checks_agree_with_the_ledger() {
    let program = Pubkey::new_from_array(PROGRAM_ID);
    let mint = [2u8; 32];
    let config_key = [5u8; 32];
    let (vault, vault_bump) =
        Pubkey::find_program_address(&[&mint, &config_key], &program);
    let (lp, lp_bump) = Pubkey::find_program_address(&[&config_key], &program);

    assert_eq!(
        check_eq_program_derived_address_and_get_bump(
            &vault_seeds(&mint, &config_key),
            &PROGRAM_ID,
            &vault.to_bytes(),
        ),
        Ok(vault_bump)
    );
    assert_eq!(
        check_eq_program_derived_address_with_bump(
            &vault_seeds_with_bump(&mint, &config_key, vault_bump),
            &PROGRAM_ID,
            &vault.to_bytes(),
        ),
        Ok(())
    );
    assert_eq!(
        check_eq_program_derived_address_and_get_bump(
            &liquidity_seeds(&config_key),
            &PROGRAM_ID,
            &lp.to_bytes(),
        ),
        Ok(lp_bump)
    );
    assert_eq!(
        check_eq_program_derived_address_with_bump(
            &liquidity_seeds_with_bump(&config_key, lp_bump),
            &PROGRAM_ID,
            &lp.to_bytes(),
        ),
        Ok(())
    );
}

#[test]
fn address_checks_fail_closed() {
    let seed: u64 = 7;
    let program = Pubkey::new_from_array(PROGRAM_ID);
    let (expected, bump) =
        Pubkey::find_program_address(&[b"config", &seed.to_le_bytes()], &program);

    // A candidate that is not the derived address is refused.
    assert_eq!(
        check_eq_program_derived_address_and_get_bump(
            &config_seeds(seed),
            &PROGRAM_ID,
            &[0u8; 32],
        ),
        Err(AmmError::AddressMismatch)
    );

    // The right address under the wrong bump is refused.
    let wrong_bump = if bump == 0 { 1 } else { bump - 1 };
    assert_eq!(
        check_eq_program_derived_address_with_bump(
            &config_seeds_with_bump(seed, wrong_bump),
            &PROGRAM_ID,
            &expected.to_bytes(),
        ),
        Err(AmmError::AddressMismatch)
    );
}
