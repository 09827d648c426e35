//! The pool record: one trading pair, its configuration and lock state,
//! and its fixed 112-byte packed layout.

use vstd::bytes::{
    lemma_auto_spec_u16_to_from_le_bytes, lemma_auto_spec_u64_to_from_le_bytes,
    spec_u16_from_le_bytes, spec_u16_to_le_bytes, spec_u64_from_le_bytes, spec_u64_to_le_bytes,
    u16_from_le_bytes, u16_to_le_bytes, u64_from_le_bytes, u64_to_le_bytes,
};
use vstd::prelude::*;
use vstd::slice::{slice_subrange, slice_to_vec};

use crate::codec::read_key;
use crate::error::AmmError;

verus! {

/// Lock state: trading allowed.
pub const UNLOCKED: u8 = 0;

/// Lock state: trading suspended; the authority can unlock again.
pub const LOCKED: u8 = 1;

/// Lock state: trading and re-locking permanently disabled.
pub const REVOKED: u8 = 2;

/// The byte length of a packed pool record.
pub const CONFIG_LEN: usize = 112;

/// One pool: a trading pair, its fee, its lock state, and the four
/// derivation salts of its record, liquidity mint and vault addresses.
///
/// Created once; only `locked` ever changes afterwards.
#[derive(Debug, Clone, Copy, PartialEq, Eq)]
pub struct Config {
    /// Identity salt chosen at initialization.
    pub seed: u64,
    /// The only identity allowed to change the lock state.
    pub authority: [u8; 32],
    /// Identifier of the first asset of the pair.
    pub mint_x: [u8; 32],
    /// Identifier of the second asset of the pair.
    pub mint_y: [u8; 32],
    /// Swap fee in basis points; always below 10000.
    pub fee: u16,
    /// One of `UNLOCKED`, `LOCKED`, `REVOKED`.
    pub locked: u8,
    /// Derivation salt of the pool record address.
    pub config_bump: u8,
    /// Derivation salt of the liquidity mint address.
    pub lp_bump: u8,
    /// Derivation salt of the first vault address.
    pub x_bump: u8,
    /// Derivation salt of the second vault address.
    pub y_bump: u8,
}

/// The outcome of a lock-state change request: the updated pool, or the
/// error and an unchanged pool.
pub open spec fn spec_set_lock_state(pool: Config, requested: u8, authority: Seq<u8>) -> Result<
    Config,
    AmmError,
> {
    if authority != pool.authority@ {
        Err(AmmError::Unauthorized)
    } else if pool.locked == REVOKED {
        Err(AmmError::AlreadyRevoked)
    } else if requested >= REVOKED {
        Err(AmmError::ConfigError)
    } else {
        Ok(Config { locked: requested, ..pool })
    }
}

/// The packed little-endian image of a pool record, padded to 112 bytes.
pub open spec fn spec_config_bytes(c: Config) -> Seq<u8> {
    spec_u64_to_le_bytes(c.seed) + c.authority@ + c.mint_x@ + c.mint_y@ + spec_u16_to_le_bytes(
        c.fee,
    ) + seq![c.locked, c.config_bump, c.lp_bump, c.x_bump, c.y_bump, 0u8]
}

impl Config {
    /// The record invariant: the fee is below 100% and the lock state is
    /// one of the three defined values.
    pub open spec fn wf(self) -> bool {
        self.fee < 10000 && self.locked <= REVOKED
    }

    /// Whether the lock state permits trading. Trading is refused both
    /// when the pool is locked and when it is revoked.
    pub open spec fn spec_trading_allowed(self) -> bool {
        self.locked == UNLOCKED
    }

    /// Refuses trading unless the pool is unlocked; a revoked pool also
    /// refuses, as a superset of being locked.
    pub fn validate_not_locked(&self) -> (r: Result<(), AmmError>)
        ensures
            r is Ok <==> self.spec_trading_allowed(),
            r is Err ==> r === Err(AmmError::PoolLocked),
    {
        if self.locked == UNLOCKED {
            Ok(())
        } else {
            Err(AmmError::PoolLocked)
        }
    }

    /// Changes the lock state on behalf of `authority`: only the pool's
    /// authority may do so, a revoked pool never leaves revocation, and
    /// only the unlocked and locked states can be requested. On failure
    /// the pool is unchanged.
    pub fn set_lock_state(&mut self, requested: u8, authority: &[u8; 32]) -> (r: Result<
        (),
        AmmError,
    >)
        ensures
            match spec_set_lock_state(*old(self), requested, authority@) {
                Ok(c) => r is Ok && *final(self) == c,
                Err(e) => r === Err(e) && *final(self) == *old(self),
            },
    {
        if !crate::codec::keys_equal(authority, &self.authority) {
            return Err(AmmError::Unauthorized);
        }
        if self.locked == REVOKED {
            return Err(AmmError::AlreadyRevoked);
        }
        if requested >= REVOKED {
            return Err(AmmError::ConfigError);
        }
        self.locked = requested;
        Ok(())
    }

    /// The packed 112-byte image of this record; the padding byte is
    /// written as zero.
    pub fn to_bytes(&self) -> (r: Vec<u8>)
        ensures
            r@ == spec_config_bytes(*self),
            r@.len() == CONFIG_LEN,
    {
        proof {
            lemma_auto_spec_u64_to_from_le_bytes();
            lemma_auto_spec_u16_to_from_le_bytes();
        }
        let mut v = u64_to_le_bytes(self.seed);
        let mut part = slice_to_vec(self.authority.as_slice());
        v.append(&mut part);
        let mut part = slice_to_vec(self.mint_x.as_slice());
        v.append(&mut part);
        let mut part = slice_to_vec(self.mint_y.as_slice());
        v.append(&mut part);
        let mut part = u16_to_le_bytes(self.fee);
        v.append(&mut part);
        v.push(self.locked);
        v.push(self.config_bump);
        v.push(self.lp_bump);
        v.push(self.x_bump);
        v.push(self.y_bump);
        v.push(0u8);
        proof {
            assert(v@ =~= spec_config_bytes(*self));
        }
        v
    }

    /// Decodes a packed record, enforcing the exact length and the record
    /// invariant; a record of the wrong shape or with an out-of-range fee
    /// or lock state is refused as malformed.
    pub fn try_from(data: &[u8]) -> (r: Result<Config, AmmError>)
        ensures
            r is Ok <==> (data@.len() == CONFIG_LEN && spec_u16_from_le_bytes(
                data@.subrange(104, 106),
            ) < 10000 && data@[106] <= REVOKED),
            r matches Ok(c) ==> {
                &&& c.wf()
                &&& c.seed == spec_u64_from_le_bytes(data@.subrange(0, 8))
                &&& c.authority@ == data@.subrange(8, 40)
                &&& c.mint_x@ == data@.subrange(40, 72)
                &&& c.mint_y@ == data@.subrange(72, 104)
                &&& c.fee == spec_u16_from_le_bytes(data@.subrange(104, 106))
                &&& c.locked == data@[106]
                &&& c.config_bump == data@[107]
                &&& c.lp_bump == data@[108]
                &&& c.x_bump == data@[109]
                &&& c.y_bump == data@[110]
            },
            r is Err ==> r === Err(AmmError::MalformedPayload),
    {
        if data.len() != CONFIG_LEN {
            return Err(AmmError::MalformedPayload);
        }
        let seed = u64_from_le_bytes(slice_subrange(data, 0, 8));
        let authority = read_key(data, 8);
        let mint_x = read_key(data, 40);
        let mint_y = read_key(data, 72);
        let fee = u16_from_le_bytes(slice_subrange(data, 104, 106));
        let locked = data[106];
        if fee >= 10000 || locked > REVOKED {
            return Err(AmmError::MalformedPayload);
        }
        Ok(
            Config {
                seed,
                authority,
                mint_x,
                mint_y,
                fee,
                locked,
                config_bump: data[107],
                lp_bump: data[108],
                x_bump: data[109],
                y_bump: data[110],
            },
        )
    }
}

/// Encoding then decoding a well-formed record gives back its fields: the
/// packed image determines the record.
pub proof fn lemma_config_codec_round_trip(c: Config)
    requires
        c.wf(),
    ensures
        spec_config_bytes(c).len() == CONFIG_LEN,
        spec_u64_from_le_bytes(spec_config_bytes(c).subrange(0, 8)) == c.seed,
        spec_config_bytes(c).subrange(8, 40) == c.authority@,
        spec_config_bytes(c).subrange(40, 72) == c.mint_x@,
        spec_config_bytes(c).subrange(72, 104) == c.mint_y@,
        spec_u16_from_le_bytes(spec_config_bytes(c).subrange(104, 106)) == c.fee,
        spec_config_bytes(c)[106] == c.locked,
        spec_config_bytes(c)[107] == c.config_bump,
        spec_config_bytes(c)[108] == c.lp_bump,
        spec_config_bytes(c)[109] == c.x_bump,
        spec_config_bytes(c)[110] == c.y_bump,
{
    lemma_auto_spec_u64_to_from_le_bytes();
    lemma_auto_spec_u16_to_from_le_bytes();
    let b = spec_config_bytes(c);
    assert(b.subrange(0, 8) =~= spec_u64_to_le_bytes(c.seed));
    assert(b.subrange(8, 40) =~= c.authority@);
    assert(b.subrange(40, 72) =~= c.mint_x@);
    assert(b.subrange(72, 104) =~= c.mint_y@);
    assert(b.subrange(104, 106) =~= spec_u16_to_le_bytes(c.fee));
}

} // verus!
