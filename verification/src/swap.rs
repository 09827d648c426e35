//! The swap instruction: validation, fee-adjusted curve arithmetic, and
//! the value movements the custodian must then execute. The direction is
//! inferred from which asset of the pair the caller's source holding
//! carries — never from an explicit flag — and one curve computation,
//! parameterized by (incoming reserve, outgoing reserve), serves both
//! directions with identical rounding.

use vstd::prelude::*;

use crate::codec::keys_equal;
use crate::curve::{
    delta_x_from_y_swap_amount_with_fee, lemma_swap_conservation_with_fee,
    lemma_swap_conservation_without_fee, spec_amount_out, spec_delta_x_from_y, spec_k,
};
use crate::error::AmmError;
use crate::instructions::Swap;
use crate::state::Config;
use crate::utils::{perform_basic_checks_with_no_lp, spec_basic_checks_with_no_lp};

verus! {

/// The value movements of an accepted swap: the custodian transfers
/// `amount_in` from the user to the incoming vault and `amount_out` from
/// the outgoing vault to the user, the latter authorized by the pool's
/// own derived identity. The fee stays in the outgoing vault; no
/// separate fee movement exists.
#[derive(Debug, Clone, Copy, PartialEq, Eq, Structural)]
pub struct SwapPlan {
    /// Whether the user pays the first asset and receives the second.
    pub from_x_to_y: bool,
    /// Amount the user pays into the incoming vault.
    pub amount_in: u64,
    /// Amount paid out of the outgoing vault to the user, after the fee.
    pub amount_out: u64,
    /// Part of the raw payout retained in the outgoing vault as the fee.
    pub fee_amount: u64,
}

/// The value movements of a swap of `amount` against the given
/// reserves: the direction follows the source holding's asset, the raw
/// payout follows the invariant on the reserves ordered by direction,
/// the fee is split off, and the payout must reach the caller's
/// minimum. A pool with an empty reserve cannot price a swap and fails
/// as an arithmetic error.
pub open spec fn spec_perform_swap(
    pool: Config,
    amount: u64,
    min: u64,
    reserve_x: u64,
    reserve_y: u64,
    source_mint: [u8; 32],
) -> Result<SwapPlan, AmmError> {
    let from_x = source_mint@ == pool.mint_x@;
    let reserve_in: u64 = if from_x {
        reserve_x
    } else {
        reserve_y
    };
    let reserve_out: u64 = if from_x {
        reserve_y
    } else {
        reserve_x
    };
    if reserve_in == 0 || reserve_out == 0 {
        Err(AmmError::ArithmeticOverflow)
    } else {
        let raw = spec_delta_x_from_y(reserve_out as int, reserve_in as int, amount as int);
        let out = spec_amount_out(raw, pool.fee as int);
        if out < min {
            Err(AmmError::SlippageExceeded)
        } else {
            Ok(
                (SwapPlan {
                    from_x_to_y: from_x,
                    amount_in: amount,
                    amount_out: out as u64,
                    fee_amount: (raw - out) as u64,
                }),
            )
        }
    }
}

impl Config {
    /// Computes the payout of swapping `amount` into this pool at the
    /// given reserves. The direction follows which asset of the pair
    /// the source holding carries, and one computation on (incoming,
    /// outgoing) reserves serves both directions with identical
    /// rounding.
    pub fn perform_swap(
        &self,
        amount: u64,
        min: u64,
        reserve_x: u64,
        reserve_y: u64,
        source_mint: &[u8; 32],
    ) -> (r: Result<SwapPlan, AmmError>)
        requires
            self.wf(),
        ensures
            r == spec_perform_swap(*self, amount, min, reserve_x, reserve_y, *source_mint),
    {
        let from_x = keys_equal(source_mint, &self.mint_x);
        let reserve_in = if from_x {
            reserve_x
        } else {
            reserve_y
        };
        let reserve_out = if from_x {
            reserve_y
        } else {
            reserve_x
        };
        if reserve_in == 0 || reserve_out == 0 {
            return Err(AmmError::ArithmeticOverflow);
        }
        let amounts = match delta_x_from_y_swap_amount_with_fee(
            reserve_out,
            reserve_in,
            amount,
            self.fee,
        ) {
            Ok(t) => t,
            Err(_) => {
                return Err(AmmError::ArithmeticOverflow);
            },
        };
        let (amount_out, fee_amount) = amounts;
        if amount_out < min {
            return Err(AmmError::SlippageExceeded);
        }
        Ok(
            SwapPlan {
                from_x_to_y: from_x,
                amount_in: amount,
                amount_out,
                fee_amount,
            },
        )
    }
}

/// The outcome of a swap instruction: the full validation chain in
/// order, then the direction, curve arithmetic and slippage bound of
/// `spec_perform_swap`.
pub open spec fn spec_process_swap(
    ix: Swap,
    now: i64,
    user_is_signer: bool,
    token_program: [u8; 32],
    expected_token_program: [u8; 32],
    program_id: [u8; 32],
    config_owner: [u8; 32],
    config_key: [u8; 32],
    pool: Config,
    vault_x: [u8; 32],
    vault_y: [u8; 32],
    reserve_x: u64,
    reserve_y: u64,
    source_mint: [u8; 32],
) -> Result<SwapPlan, AmmError> {
    if !user_is_signer {
        Err(AmmError::Unauthorized)
    } else if token_program@ != expected_token_program@ {
        Err(AmmError::AddressMismatch)
    } else {
        match spec_basic_checks_with_no_lp(
            pool,
            ix.expiration,
            now,
            config_owner,
            program_id,
            config_key,
            vault_x,
            vault_y,
        ) {
            Err(e) => Err(e),
            Ok(_) => spec_perform_swap(pool, ix.amount, ix.min, reserve_x, reserve_y, source_mint),
        }
    }
}

/// Validates a swap request against the pool and, if every check
/// passes, returns the exact value movements for the custodian. Any
/// failure — a slippage bound above the computed payout included —
/// aborts before value movement: a rejected swap moves nothing.
pub fn process(
    ix: &Swap,
    now: i64,
    user_is_signer: bool,
    token_program: &[u8; 32],
    expected_token_program: &[u8; 32],
    program_id: &[u8; 32],
    config_owner: &[u8; 32],
    config_key: &[u8; 32],
    config_account: &Config,
    vault_x: &[u8; 32],
    vault_y: &[u8; 32],
    reserve_x: u64,
    reserve_y: u64,
    source_mint: &[u8; 32],
) -> (r: Result<SwapPlan, AmmError>)
    requires
        config_account.wf(),
    ensures
        r == spec_process_swap(
            *ix,
            now,
            user_is_signer,
            *token_program,
            *expected_token_program,
            *program_id,
            *config_owner,
            *config_key,
            *config_account,
            *vault_x,
            *vault_y,
            reserve_x,
            reserve_y,
            *source_mint,
        ),
{
    if !user_is_signer {
        return Err(AmmError::Unauthorized);
    }
    if !keys_equal(token_program, expected_token_program) {
        return Err(AmmError::AddressMismatch);
    }
    if let Err(e) = perform_basic_checks_with_no_lp(
        config_account,
        ix.expiration,
        now,
        config_owner,
        program_id,
        config_key,
        vault_x,
        vault_y,
    ) {
        return Err(e);
    }
    config_account.perform_swap(ix.amount, ix.min, reserve_x, reserve_y, source_mint)
}

/// Every accepted swap respects the invariant on the reserves it
/// touches: with a positive fee the product of the updated reserves
/// never falls below the old one, and with no fee it equals the old
/// one up to the rounding loss of one division, which is less than the
/// updated incoming reserve.
pub proof fn lemma_swap_plan_conserves_invariant(
    pool: Config,
    amount: u64,
    min: u64,
    reserve_x: u64,
    reserve_y: u64,
    source_mint: [u8; 32],
)
    requires
        pool.wf(),
        spec_perform_swap(pool, amount, min, reserve_x, reserve_y, source_mint) is Ok,
    ensures
        ({
            let plan = spec_perform_swap(
                pool,
                amount,
                min,
                reserve_x,
                reserve_y,
                source_mint,
            )->Ok_0;
            let reserve_in: u64 = if plan.from_x_to_y {
                reserve_x
            } else {
                reserve_y
            };
            let reserve_out: u64 = if plan.from_x_to_y {
                reserve_y
            } else {
                reserve_x
            };
            let old_k = spec_k(reserve_in as int, reserve_out as int);
            let new_k = spec_k(reserve_in + amount, reserve_out - plan.amount_out);
            &&& pool.fee > 0 ==> new_k >= old_k
            &&& pool.fee == 0 ==> old_k - (reserve_in + amount) < new_k <= old_k
        }),
{
    let plan = spec_perform_swap(pool, amount, min, reserve_x, reserve_y, source_mint)->Ok_0;
    let rin: int = if plan.from_x_to_y {
        reserve_x as int
    } else {
        reserve_y as int
    };
    let rout: int = if plan.from_x_to_y {
        reserve_y as int
    } else {
        reserve_x as int
    };
    let raw = spec_delta_x_from_y(rout, rin, amount as int);
    crate::curve::lemma_new_reserve_at_most_old(rout, rin, amount as int);
    crate::curve::lemma_amount_out_at_most_raw(raw, pool.fee as int);
    if pool.fee > 0 {
        lemma_swap_conservation_with_fee(rin, rout, amount as int, pool.fee as int);
    } else {
        // With no fee the split passes the raw payout through whole.
        vstd::arithmetic::div_mod::lemma_div_multiples_vanish(raw, 10000);
        vstd::arithmetic::mul::lemma_mul_is_commutative(raw, 10000);
        assert(spec_amount_out(raw, 0) == raw);
        lemma_swap_conservation_without_fee(rin, rout, amount as int);
        vstd::arithmetic::div_mod::lemma_mod_division_less_than_divisor(
            spec_k(rin, rout),
            rin + amount,
        );
    }
}

} // verus!
