//! The withdraw instruction: validation, proportional share arithmetic,
//! and the value movements the custodian must then execute.

use vstd::prelude::*;

use crate::codec::keys_equal;
use crate::curve::{spec_withdraw_amount, spec_withdraw_ok, xy_withdraw_amounts_from_l};
use crate::error::AmmError;
use crate::instructions::Withdraw;
use crate::state::Config;
use crate::utils::{perform_basic_checks, spec_basic_checks, PRECISION};

verus! {

/// The value movements of an accepted withdrawal: the custodian
/// transfers `withdraw_x` and `withdraw_y` from the vaults to the user
/// and burns `burn_shares` liquidity shares from the user.
#[derive(Debug, Clone, Copy, PartialEq, Eq, Structural)]
pub struct WithdrawPlan {
    /// Amount of the first asset paid out of its vault to the user.
    pub withdraw_x: u64,
    /// Amount of the second asset paid out of its vault to the user.
    pub withdraw_y: u64,
    /// Amount of liquidity shares burned from the user.
    pub burn_shares: u64,
}

/// The value movements of burning `amount` shares against the given
/// reserves and supply, bounded by the caller's minima.
pub open spec fn spec_perform_user_withdraw(
    amount: u64,
    min_x: u64,
    min_y: u64,
    reserve_x: u64,
    reserve_y: u64,
    lp_supply: u64,
) -> Result<WithdrawPlan, AmmError> {
    if !spec_withdraw_ok(lp_supply as int, amount as int, PRECISION as int) {
        Err(AmmError::ArithmeticOverflow)
    } else {
        let wx = spec_withdraw_amount(
            reserve_x as int,
            lp_supply as int,
            amount as int,
            PRECISION as int,
        );
        let wy = spec_withdraw_amount(
            reserve_y as int,
            lp_supply as int,
            amount as int,
            PRECISION as int,
        );
        if wx < min_x || wy < min_y {
            Err(AmmError::SlippageExceeded)
        } else {
            Ok(
                (WithdrawPlan {
                    withdraw_x: wx as u64,
                    withdraw_y: wy as u64,
                    burn_shares: amount,
                }),
            )
        }
    }
}

impl Config {
    /// Computes the payout for burning `amount` shares of this pool at
    /// the given reserves and supply, bounded by the caller's declared
    /// minima.
    pub fn perform_user_withdraw(
        &self,
        amount: u64,
        min_x: u64,
        min_y: u64,
        reserve_x: u64,
        reserve_y: u64,
        lp_supply: u64,
    ) -> (r: Result<WithdrawPlan, AmmError>)
        ensures
            r == spec_perform_user_withdraw(
                amount,
                min_x,
                min_y,
                reserve_x,
                reserve_y,
                lp_supply,
            ),
    {
        let amounts = match xy_withdraw_amounts_from_l(
            reserve_x,
            reserve_y,
            lp_supply,
            amount,
            PRECISION,
        ) {
            Ok(t) => t,
            Err(_) => {
                return Err(AmmError::ArithmeticOverflow);
            },
        };
        let (x, y) = amounts;
        if x < min_x || y < min_y {
            return Err(AmmError::SlippageExceeded);
        }
        Ok(WithdrawPlan { withdraw_x: x, withdraw_y: y, burn_shares: amount })
    }
}

/// The outcome of a withdraw instruction: the full validation chain in
/// order, then the share arithmetic and slippage bound of
/// `spec_perform_user_withdraw`.
pub open spec fn spec_process_withdraw(
    ix: Withdraw,
    now: i64,
    user_is_signer: bool,
    token_program: [u8; 32],
    expected_token_program: [u8; 32],
    program_id: [u8; 32],
    config_owner: [u8; 32],
    config_key: [u8; 32],
    pool: Config,
    mint_lp: [u8; 32],
    vault_x: [u8; 32],
    vault_y: [u8; 32],
    reserve_x: u64,
    reserve_y: u64,
    lp_supply: u64,
) -> Result<WithdrawPlan, AmmError> {
    if !user_is_signer {
        Err(AmmError::Unauthorized)
    } else if token_program@ != expected_token_program@ {
        Err(AmmError::AddressMismatch)
    } else {
        match spec_basic_checks(
            pool,
            ix.expiration,
            now,
            config_owner,
            program_id,
            config_key,
            mint_lp,
            vault_x,
            vault_y,
        ) {
            Err(e) => Err(e),
            Ok(_) => spec_perform_user_withdraw(
                ix.amount,
                ix.min_x,
                ix.min_y,
                reserve_x,
                reserve_y,
                lp_supply,
            ),
        }
    }
}

/// Validates a withdraw request against the pool and, if every check
/// passes, returns the exact value movements for the custodian. Any
/// failure aborts before value movement: a rejected withdrawal moves
/// nothing.
pub fn process(
    ix: &Withdraw,
    now: i64,
    user_is_signer: bool,
    token_program: &[u8; 32],
    expected_token_program: &[u8; 32],
    program_id: &[u8; 32],
    config_owner: &[u8; 32],
    config_key: &[u8; 32],
    config_account: &Config,
    mint_lp: &[u8; 32],
    vault_x: &[u8; 32],
    vault_y: &[u8; 32],
    reserve_x: u64,
    reserve_y: u64,
    lp_supply: u64,
) -> (r: Result<WithdrawPlan, AmmError>)
    ensures
        r == spec_process_withdraw(
            *ix,
            now,
            user_is_signer,
            *token_program,
            *expected_token_program,
            *program_id,
            *config_owner,
            *config_key,
            *config_account,
            *mint_lp,
            *vault_x,
            *vault_y,
            reserve_x,
            reserve_y,
            lp_supply,
        ),
{
    if !user_is_signer {
        return Err(AmmError::Unauthorized);
    }
    if !keys_equal(token_program, expected_token_program) {
        return Err(AmmError::AddressMismatch);
    }
    if let Err(e) = perform_basic_checks(
        config_account,
        ix.expiration,
        now,
        config_owner,
        program_id,
        config_key,
        mint_lp,
        vault_x,
        vault_y,
    ) {
        return Err(e);
    }
    config_account.perform_user_withdraw(
        ix.amount,
        ix.min_x,
        ix.min_y,
        reserve_x,
        reserve_y,
        lp_supply,
    )
}

} // verus!
