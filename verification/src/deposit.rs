//! The deposit instruction: validation, proportional share arithmetic,
//! and the value movements the custodian must then execute.

use vstd::prelude::*;

use crate::codec::keys_equal;
use crate::curve::{spec_deposit_amount, spec_deposit_ok, xy_deposit_amounts_from_l};
use crate::error::AmmError;
use crate::instructions::Deposit;
use crate::state::Config;
use crate::utils::{perform_basic_checks, spec_basic_checks, PRECISION};

verus! {

/// The value movements of an accepted deposit: the custodian transfers
/// `deposit_x` and `deposit_y` from the user to the vaults and mints
/// `mint_shares` liquidity shares to the user.
#[derive(Debug, Clone, Copy, PartialEq, Eq, Structural)]
pub struct DepositPlan {
    /// Amount of the first asset the user pays into its vault.
    pub deposit_x: u64,
    /// Amount of the second asset the user pays into its vault.
    pub deposit_y: u64,
    /// Amount of liquidity shares minted to the user.
    pub mint_shares: u64,
}

/// The value movements of a deposit of `amount` shares against the
/// given reserves and supply, bounded by the caller's maxima. Into an
/// empty pool (no supply, no reserves) the declared maxima are deposited
/// exactly, setting the initial price without any curve arithmetic.
pub open spec fn spec_perform_user_deposit(
    amount: u64,
    max_x: u64,
    max_y: u64,
    reserve_x: u64,
    reserve_y: u64,
    lp_supply: u64,
) -> Result<DepositPlan, AmmError> {
    if lp_supply == 0 && reserve_x == 0 && reserve_y == 0 {
        Ok((DepositPlan { deposit_x: max_x, deposit_y: max_y, mint_shares: amount }))
    } else if !spec_deposit_ok(
        reserve_x as int,
        reserve_y as int,
        lp_supply as int,
        amount as int,
        PRECISION as int,
    ) {
        Err(AmmError::ArithmeticOverflow)
    } else {
        let dx = spec_deposit_amount(
            reserve_x as int,
            lp_supply as int,
            amount as int,
            PRECISION as int,
        );
        let dy = spec_deposit_amount(
            reserve_y as int,
            lp_supply as int,
            amount as int,
            PRECISION as int,
        );
        if dx > max_x || dy > max_y {
            Err(AmmError::SlippageExceeded)
        } else {
            Ok(
                (DepositPlan {
                    deposit_x: dx as u64,
                    deposit_y: dy as u64,
                    mint_shares: amount,
                }),
            )
        }
    }
}

impl Config {
    /// Computes the deposit that buys `amount` shares of this pool at
    /// the given reserves and supply, bounded by the caller's declared
    /// maxima; the first deposit into an empty pool takes the maxima
    /// verbatim.
    pub fn perform_user_deposit(
        &self,
        amount: u64,
        max_x: u64,
        max_y: u64,
        reserve_x: u64,
        reserve_y: u64,
        lp_supply: u64,
    ) -> (r: Result<DepositPlan, AmmError>)
        ensures
            r == spec_perform_user_deposit(
                amount,
                max_x,
                max_y,
                reserve_x,
                reserve_y,
                lp_supply,
            ),
    {
        if lp_supply == 0 && reserve_x == 0 && reserve_y == 0 {
            return Ok(DepositPlan { deposit_x: max_x, deposit_y: max_y, mint_shares: amount });
        }
        let amounts = match xy_deposit_amounts_from_l(
            reserve_x,
            reserve_y,
            lp_supply,
            amount,
            PRECISION,
        ) {
            Ok(t) => t,
            Err(_) => {
                return Err(AmmError::ArithmeticOverflow);
            },
        };
        let (x, y) = amounts;
        if x > max_x || y > max_y {
            return Err(AmmError::SlippageExceeded);
        }
        Ok(DepositPlan { deposit_x: x, deposit_y: y, mint_shares: amount })
    }
}

/// The outcome of a deposit instruction: the full validation chain in
/// order, then the share arithmetic and slippage bound of
/// `spec_perform_user_deposit`.
pub open spec fn spec_process_deposit(
    ix: Deposit,
    now: i64,
    user_is_signer: bool,
    token_program: [u8; 32],
    expected_token_program: [u8; 32],
    program_id: [u8; 32],
    config_owner: [u8; 32],
    config_key: [u8; 32],
    pool: Config,
    mint_lp: [u8; 32],
    vault_x: [u8; 32],
    vault_y: [u8; 32],
    reserve_x: u64,
    reserve_y: u64,
    lp_supply: u64,
) -> Result<DepositPlan, AmmError> {
    if !user_is_signer {
        Err(AmmError::Unauthorized)
    } else if token_program@ != expected_token_program@ {
        Err(AmmError::AddressMismatch)
    } else {
        match spec_basic_checks(
            pool,
            ix.expiration,
            now,
            config_owner,
            program_id,
            config_key,
            mint_lp,
            vault_x,
            vault_y,
        ) {
            Err(e) => Err(e),
            Ok(_) => spec_perform_user_deposit(
                ix.amount,
                ix.max_x,
                ix.max_y,
                reserve_x,
                reserve_y,
                lp_supply,
            ),
        }
    }
}

/// Validates a deposit request against the pool and, if every check
/// passes, returns the exact value movements for the custodian. Any
/// failure aborts before value movement: a rejected deposit moves
/// nothing.
pub fn process(
    ix: &Deposit,
    now: i64,
    user_is_signer: bool,
    token_program: &[u8; 32],
    expected_token_program: &[u8; 32],
    program_id: &[u8; 32],
    config_owner: &[u8; 32],
    config_key: &[u8; 32],
    config_account: &Config,
    mint_lp: &[u8; 32],
    vault_x: &[u8; 32],
    vault_y: &[u8; 32],
    reserve_x: u64,
    reserve_y: u64,
    lp_supply: u64,
) -> (r: Result<DepositPlan, AmmError>)
    ensures
        r == spec_process_deposit(
            *ix,
            now,
            user_is_signer,
            *token_program,
            *expected_token_program,
            *program_id,
            *config_owner,
            *config_key,
            *config_account,
            *mint_lp,
            *vault_x,
            *vault_y,
            reserve_x,
            reserve_y,
            lp_supply,
        ),
{
    if !user_is_signer {
        return Err(AmmError::Unauthorized);
    }
    if !keys_equal(token_program, expected_token_program) {
        return Err(AmmError::AddressMismatch);
    }
    if let Err(e) = perform_basic_checks(
        config_account,
        ix.expiration,
        now,
        config_owner,
        program_id,
        config_key,
        mint_lp,
        vault_x,
        vault_y,
    ) {
        return Err(e);
    }
    config_account.perform_user_deposit(
        ix.amount,
        ix.max_x,
        ix.max_y,
        reserve_x,
        reserve_y,
        lp_supply,
    )
}

} // verus!
