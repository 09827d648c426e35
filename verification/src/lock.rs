//! The lock instruction: the pool's authority suspends or resumes
//! trading; a revoked pool can never be changed again.

use vstd::prelude::*;

use crate::codec::keys_equal;
use crate::error::AmmError;
use crate::state::{spec_set_lock_state, Config};

verus! {

/// The outcome of a lock instruction: the updated pool, or the error and
/// an unchanged pool. The initiator must have signed, the record must
/// belong to this program, and the lock-state change itself must be
/// permitted.
pub open spec fn spec_process_lock(
    pool: Config,
    state: u8,
    authority: [u8; 32],
    authority_is_signer: bool,
    config_owner: [u8; 32],
    program_id: [u8; 32],
) -> Result<Config, AmmError> {
    if !authority_is_signer {
        Err(AmmError::Unauthorized)
    } else if config_owner@ != program_id@ {
        Err(AmmError::AddressMismatch)
    } else {
        spec_set_lock_state(pool, state, authority@)
    }
}

/// Applies a lock instruction to the pool record. On any failure the
/// record is unchanged and no other effect takes place.
pub fn process(
    pool: &mut Config,
    state: u8,
    authority: &[u8; 32],
    authority_is_signer: bool,
    config_owner: &[u8; 32],
    program_id: &[u8; 32],
) -> (r: Result<(), AmmError>)
    ensures
        match spec_process_lock(
            *old(pool),
            state,
            *authority,
            authority_is_signer,
            *config_owner,
            *program_id,
        ) {
            Ok(c) => r is Ok && *final (pool) == c,
            Err(e) => r === Err(e) && *final (pool) == *old(pool),
        },
{
    if !authority_is_signer {
        return Err(AmmError::Unauthorized);
    }
    if !keys_equal(config_owner, program_id) {
        return Err(AmmError::AddressMismatch);
    }
    pool.set_lock_state(state, authority)
}

/// For the correct, signing authority of a pool whose record this
/// program owns and which is not revoked, locking and then unlocking
/// both succeed and return the pool to exactly its original state; the
/// cycle can therefore repeat indefinitely.
pub proof fn lemma_lock_unlock_round_trip(
    pool: Config,
    authority: [u8; 32],
    config_owner: [u8; 32],
    program_id: [u8; 32],
)
    requires
        authority@ == pool.authority@,
        config_owner@ == program_id@,
        pool.locked != crate::state::REVOKED,
    ensures
        ({
            let locked_result = spec_process_lock(
                pool,
                crate::state::LOCKED,
                authority,
                true,
                config_owner,
                program_id,
            );
            &&& locked_result matches Ok(locked_pool)
            &&& locked_pool.locked == crate::state::LOCKED
            &&& {
                let unlocked_result = spec_process_lock(
                    locked_pool,
                    crate::state::UNLOCKED,
                    authority,
                    true,
                    config_owner,
                    program_id,
                );
                &&& unlocked_result matches Ok(unlocked_pool)
                &&& unlocked_pool == Config { locked: crate::state::UNLOCKED, ..pool }
            }
        }),
{
}

/// For any initiator who is not the pool's authority, or who did not
/// sign, a lock instruction fails with `Unauthorized` and leaves the
/// pool unchanged; and once a pool is revoked, every lock instruction
/// from its authority fails with `AlreadyRevoked`.
pub proof fn lemma_lock_rejections(
    pool: Config,
    state: u8,
    authority: [u8; 32],
    authority_is_signer: bool,
    config_owner: [u8; 32],
    program_id: [u8; 32],
)
    requires
        config_owner@ == program_id@,
    ensures
        !authority_is_signer ==> spec_process_lock(
            pool,
            state,
            authority,
            authority_is_signer,
            config_owner,
            program_id,
        ) === Err(AmmError::Unauthorized),
        authority_is_signer && authority@ != pool.authority@ ==> spec_process_lock(
            pool,
            state,
            authority,
            authority_is_signer,
            config_owner,
            program_id,
        ) === Err(AmmError::Unauthorized),
        authority_is_signer && authority@ == pool.authority@ && pool.locked
            == crate::state::REVOKED ==> spec_process_lock(
            pool,
            state,
            authority,
            authority_is_signer,
            config_owner,
            program_id,
        ) === Err(AmmError::AlreadyRevoked),
{
}

} // verus!
