//! The instruction wire format: a one-byte discriminator followed by a
//! fixed-width little-endian payload, decoded with exact byte offsets.

use vstd::bytes::{
    lemma_auto_spec_u16_to_from_le_bytes, lemma_auto_spec_u64_to_from_le_bytes,
    spec_u16_to_le_bytes, spec_u64_to_le_bytes, u16_from_le_bytes, u16_to_le_bytes,
    u64_from_le_bytes, u64_to_le_bytes,
};
use vstd::prelude::*;
use vstd::slice::{slice_subrange, slice_to_vec};

use crate::codec::{
    bits_to_i64, i64_to_bits, lemma_bits_to_i64_round_trip, read_bytes, spec_i64_bits,
};
use crate::error::AmmError;

verus! {

/// The five instructions, identified on the wire by their position in
/// this list.
#[derive(Debug, Clone, Copy, PartialEq, Eq, Structural)]
pub enum AMMInstructions {
    Initialize,
    Deposit,
    Withdraw,
    Swap,
    Lock,
}

/// The wire discriminator of each instruction.
pub open spec fn spec_discriminant(i: AMMInstructions) -> u8 {
    match i {
        AMMInstructions::Initialize => 0,
        AMMInstructions::Deposit => 1,
        AMMInstructions::Withdraw => 2,
        AMMInstructions::Swap => 3,
        AMMInstructions::Lock => 4,
    }
}

impl AMMInstructions {
    /// The wire discriminator of this instruction.
    pub fn discriminant(&self) -> (r: u8)
        ensures
            r == spec_discriminant(*self),
    {
        match self {
            AMMInstructions::Initialize => 0,
            AMMInstructions::Deposit => 1,
            AMMInstructions::Withdraw => 2,
            AMMInstructions::Swap => 3,
            AMMInstructions::Lock => 4,
        }
    }

    /// The instruction selected by a wire discriminator; bytes outside
    /// the five defined values are refused.
    pub fn try_from(value: &u8) -> (r: Result<AMMInstructions, AmmError>)
        ensures
            *value <= 4 ==> (r matches Ok(i) && spec_discriminant(i) == *value),
            *value > 4 ==> r === Err(AmmError::MalformedPayload),
    {
        match *value {
            0 => Ok(AMMInstructions::Initialize),
            1 => Ok(AMMInstructions::Deposit),
            2 => Ok(AMMInstructions::Withdraw),
            3 => Ok(AMMInstructions::Swap),
            4 => Ok(AMMInstructions::Lock),
            _ => Err(AmmError::MalformedPayload),
        }
    }

    /// A full instruction message: this instruction's discriminator
    /// followed by an already-encoded payload.
    pub fn serialize(&self, payload: &[u8]) -> (r: Vec<u8>)
        ensures
            r@ == seq![spec_discriminant(*self)] + payload@,
    {
        let mut v: Vec<u8> = Vec::new();
        v.push(self.discriminant());
        let mut rest = slice_to_vec(payload);
        v.append(&mut rest);
        proof {
            assert(v@ =~= seq![spec_discriminant(*self)] + payload@);
        }
        v
    }
}

/// Payload of the pool-creation instruction.
#[derive(Debug, Clone, Copy, PartialEq, Eq)]
pub struct Initialize {
    /// Identity salt of the new pool.
    pub seed: u64,
    /// Swap fee in basis points.
    pub fee: u16,
    /// Identity allowed to change the new pool's lock state.
    pub authority: [u8; 32],
    /// Fixed-width filler; carries no meaning.
    pub padding: [u8; 6],
}

/// Payload of the liquidity-deposit instruction.
#[derive(Debug, Clone, Copy, PartialEq, Eq)]
pub struct Deposit {
    /// Amount of liquidity shares to claim.
    pub amount: u64,
    /// Most of the first asset the caller is willing to deposit.
    pub max_x: u64,
    /// Most of the second asset the caller is willing to deposit.
    pub max_y: u64,
    /// Latest timestamp at which the request is still valid.
    pub expiration: i64,
}

/// Payload of the liquidity-withdrawal instruction.
#[derive(Debug, Clone, Copy, PartialEq, Eq)]
pub struct Withdraw {
    /// Amount of liquidity shares to burn.
    pub amount: u64,
    /// Least of the first asset the caller is willing to accept.
    pub min_x: u64,
    /// Least of the second asset the caller is willing to accept.
    pub min_y: u64,
    /// Latest timestamp at which the request is still valid.
    pub expiration: i64,
}

/// Payload of the swap instruction.
#[derive(Debug, Clone, Copy, PartialEq, Eq)]
pub struct Swap {
    /// Amount of the source asset the caller deposits.
    pub amount: u64,
    /// Least payout the caller is willing to accept.
    pub min: u64,
    /// Latest timestamp at which the request is still valid.
    pub expiration: i64,
}

/// The packed 48-byte image of an `Initialize` payload.
pub open spec fn spec_initialize_bytes(ix: Initialize) -> Seq<u8> {
    spec_u64_to_le_bytes(ix.seed) + spec_u16_to_le_bytes(ix.fee) + ix.authority@ + ix.padding@
}

/// The packed 32-byte image of a `Deposit` payload.
pub open spec fn spec_deposit_bytes(ix: Deposit) -> Seq<u8> {
    spec_u64_to_le_bytes(ix.amount) + spec_u64_to_le_bytes(ix.max_x) + spec_u64_to_le_bytes(
        ix.max_y,
    ) + spec_u64_to_le_bytes(spec_i64_bits(ix.expiration as int) as u64)
}

/// The packed 32-byte image of a `Withdraw` payload.
pub open spec fn spec_withdraw_bytes(ix: Withdraw) -> Seq<u8> {
    spec_u64_to_le_bytes(ix.amount) + spec_u64_to_le_bytes(ix.min_x) + spec_u64_to_le_bytes(
        ix.min_y,
    ) + spec_u64_to_le_bytes(spec_i64_bits(ix.expiration as int) as u64)
}

/// The packed 24-byte image of a `Swap` payload.
pub open spec fn spec_swap_bytes(ix: Swap) -> Seq<u8> {
    spec_u64_to_le_bytes(ix.amount) + spec_u64_to_le_bytes(ix.min) + spec_u64_to_le_bytes(
        spec_i64_bits(ix.expiration as int) as u64,
    )
}

impl Initialize {
    /// Encodes this payload at its exact byte offsets.
    pub fn to_bytes(&self) -> (r: Vec<u8>)
        ensures
            r@ == spec_initialize_bytes(*self),
            r@.len() == 48,
    {
        proof {
            lemma_auto_spec_u64_to_from_le_bytes();
            lemma_auto_spec_u16_to_from_le_bytes();
        }
        let mut v = u64_to_le_bytes(self.seed);
        let mut part = u16_to_le_bytes(self.fee);
        v.append(&mut part);
        let mut part = slice_to_vec(self.authority.as_slice());
        v.append(&mut part);
        let mut part = slice_to_vec(self.padding.as_slice());
        v.append(&mut part);
        proof {
            assert(v@ =~= spec_initialize_bytes(*self));
        }
        v
    }

    /// Decodes a payload of exactly 48 bytes; anything else is malformed.
    pub fn try_from(data: &[u8]) -> (r: Result<Initialize, AmmError>)
        ensures
            r is Ok <==> data@.len() == 48,
            r matches Ok(ix) ==> data@ == spec_initialize_bytes(ix),
            r is Err ==> r === Err(AmmError::MalformedPayload),
    {
        proof {
            lemma_auto_spec_u64_to_from_le_bytes();
            lemma_auto_spec_u16_to_from_le_bytes();
        }
        if data.len() != 48 {
            return Err(AmmError::MalformedPayload);
        }
        let seed = u64_from_le_bytes(slice_subrange(data, 0, 8));
        let fee = u16_from_le_bytes(slice_subrange(data, 8, 10));
        let authority: [u8; 32] = read_bytes(data, 10);
        let padding: [u8; 6] = read_bytes(data, 42);
        let ix = Initialize { seed, fee, authority, padding };
        proof {
            assert(data@ =~= spec_initialize_bytes(ix));
        }
        Ok(ix)
    }
}

impl Deposit {
    /// Encodes this payload at its exact byte offsets.
    pub fn to_bytes(&self) -> (r: Vec<u8>)
        ensures
            r@ == spec_deposit_bytes(*self),
            r@.len() == 32,
    {
        proof {
            lemma_auto_spec_u64_to_from_le_bytes();
        }
        let mut v = u64_to_le_bytes(self.amount);
        let mut part = u64_to_le_bytes(self.max_x);
        v.append(&mut part);
        let mut part = u64_to_le_bytes(self.max_y);
        v.append(&mut part);
        let mut part = u64_to_le_bytes(i64_to_bits(self.expiration));
        v.append(&mut part);
        proof {
            assert(v@ =~= spec_deposit_bytes(*self));
        }
        v
    }

    /// Decodes a payload of exactly 32 bytes; anything else is malformed.
    pub fn try_from(data: &[u8]) -> (r: Result<Deposit, AmmError>)
        ensures
            r is Ok <==> data@.len() == 32,
            r matches Ok(ix) ==> data@ == spec_deposit_bytes(ix),
            r is Err ==> r === Err(AmmError::MalformedPayload),
    {
        proof {
            lemma_auto_spec_u64_to_from_le_bytes();
        }
        if data.len() != 32 {
            return Err(AmmError::MalformedPayload);
        }
        let amount = u64_from_le_bytes(slice_subrange(data, 0, 8));
        let max_x = u64_from_le_bytes(slice_subrange(data, 8, 16));
        let max_y = u64_from_le_bytes(slice_subrange(data, 16, 24));
        let bits = u64_from_le_bytes(slice_subrange(data, 24, 32));
        let expiration = bits_to_i64(bits);
        proof {
            lemma_bits_to_i64_round_trip(bits as int);
        }
        let ix = Deposit { amount, max_x, max_y, expiration };
        proof {
            assert(data@ =~= spec_deposit_bytes(ix));
        }
        Ok(ix)
    }
}

impl Withdraw {
    /// Encodes this payload at its exact byte offsets.
    pub fn to_bytes(&self) -> (r: Vec<u8>)
        ensures
            r@ == spec_withdraw_bytes(*self),
            r@.len() == 32,
    {
        proof {
            lemma_auto_spec_u64_to_from_le_bytes();
        }
        let mut v = u64_to_le_bytes(self.amount);
        let mut part = u64_to_le_bytes(self.min_x);
        v.append(&mut part);
        let mut part = u64_to_le_bytes(self.min_y);
        v.append(&mut part);
        let mut part = u64_to_le_bytes(i64_to_bits(self.expiration));
        v.append(&mut part);
        proof {
            assert(v@ =~= spec_withdraw_bytes(*self));
        }
        v
    }

    /// Decodes a payload of exactly 32 bytes; anything else is malformed.
    pub fn try_from(data: &[u8]) -> (r: Result<Withdraw, AmmError>)
        ensures
            r is Ok <==> data@.len() == 32,
            r matches Ok(ix) ==> data@ == spec_withdraw_bytes(ix),
            r is Err ==> r === Err(AmmError::MalformedPayload),
    {
        proof {
            lemma_auto_spec_u64_to_from_le_bytes();
        }
        if data.len() != 32 {
            return Err(AmmError::MalformedPayload);
        }
        let amount = u64_from_le_bytes(slice_subrange(data, 0, 8));
        let min_x = u64_from_le_bytes(slice_subrange(data, 8, 16));
        let min_y = u64_from_le_bytes(slice_subrange(data, 16, 24));
        let bits = u64_from_le_bytes(slice_subrange(data, 24, 32));
        let expiration = bits_to_i64(bits);
        proof {
            lemma_bits_to_i64_round_trip(bits as int);
        }
        let ix = Withdraw { amount, min_x, min_y, expiration };
        proof {
            assert(data@ =~= spec_withdraw_bytes(ix));
        }
        Ok(ix)
    }
}

impl Swap {
    /// Encodes this payload at its exact byte offsets.
    pub fn to_bytes(&self) -> (r: Vec<u8>)
        ensures
            r@ == spec_swap_bytes(*self),
            r@.len() == 24,
    {
        proof {
            lemma_auto_spec_u64_to_from_le_bytes();
        }
        let mut v = u64_to_le_bytes(self.amount);
        let mut part = u64_to_le_bytes(self.min);
        v.append(&mut part);
        let mut part = u64_to_le_bytes(i64_to_bits(self.expiration));
        v.append(&mut part);
        proof {
            assert(v@ =~= spec_swap_bytes(*self));
        }
        v
    }

    /// Decodes a payload of exactly 24 bytes; anything else is malformed.
    pub fn try_from(data: &[u8]) -> (r: Result<Swap, AmmError>)
        ensures
            r is Ok <==> data@.len() == 24,
            r matches Ok(ix) ==> data@ == spec_swap_bytes(ix),
            r is Err ==> r === Err(AmmError::MalformedPayload),
    {
        proof {
            lemma_auto_spec_u64_to_from_le_bytes();
        }
        if data.len() != 24 {
            return Err(AmmError::MalformedPayload);
        }
        let amount = u64_from_le_bytes(slice_subrange(data, 0, 8));
        let min = u64_from_le_bytes(slice_subrange(data, 8, 16));
        let bits = u64_from_le_bytes(slice_subrange(data, 16, 24));
        let expiration = bits_to_i64(bits);
        proof {
            lemma_bits_to_i64_round_trip(bits as int);
        }
        let ix = Swap { amount, min, expiration };
        proof {
            assert(data@ =~= spec_swap_bytes(ix));
        }
        Ok(ix)
    }
}

/// A fully decoded instruction message.
#[derive(Debug, Clone, Copy, PartialEq, Eq)]
pub enum ParsedInstruction {
    /// Create a pool.
    Initialize(Initialize),
    /// Add liquidity for shares.
    Deposit(Deposit),
    /// Burn shares for liquidity.
    Withdraw(Withdraw),
    /// Trade one asset of the pair for the other.
    Swap(Swap),
    /// Change the lock state to the carried value.
    Lock(u8),
}

/// Whether a message has a defined discriminator and a payload of the
/// right width. A lock message tolerates trailing bytes after its state
/// byte; the fixed-width payloads must match exactly.
pub open spec fn spec_parseable(data: Seq<u8>) -> bool {
    data.len() > 0 && {
        let rest_len = data.len() - 1;
        ||| (data[0] == 0 && rest_len == 48)
        ||| (data[0] == 1 && rest_len == 32)
        ||| (data[0] == 2 && rest_len == 32)
        ||| (data[0] == 3 && rest_len == 24)
        ||| (data[0] == 4 && rest_len >= 1)
    }
}

/// Splits a message into discriminator and payload and decodes the
/// payload at its exact byte offsets.
pub fn parse_instruction(data: &[u8]) -> (r: Result<ParsedInstruction, AmmError>)
    ensures
        r is Ok <==> spec_parseable(data@),
        r matches Ok(p) ==> {
            let rest = data@.subrange(1, data@.len() as int);
            match p {
                ParsedInstruction::Initialize(ix) => data@[0] == 0 && rest
                    == spec_initialize_bytes(ix),
                ParsedInstruction::Deposit(ix) => data@[0] == 1 && rest == spec_deposit_bytes(ix),
                ParsedInstruction::Withdraw(ix) => data@[0] == 2 && rest == spec_withdraw_bytes(
                    ix,
                ),
                ParsedInstruction::Swap(ix) => data@[0] == 3 && rest == spec_swap_bytes(ix),
                ParsedInstruction::Lock(state) => data@[0] == 4 && rest.len() >= 1 && state
                    == rest[0],
            }
        },
        r is Err ==> r === Err(AmmError::MalformedPayload),
{
    if data.len() == 0 {
        return Err(AmmError::MalformedPayload);
    }
    let discriminator = data[0];
    let rest = slice_subrange(data, 1, data.len());
    match AMMInstructions::try_from(&discriminator) {
        Err(e) => Err(e),
        Ok(AMMInstructions::Initialize) => match Initialize::try_from(rest) {
            Ok(ix) => Ok(ParsedInstruction::Initialize(ix)),
            Err(e) => Err(e),
        },
        Ok(AMMInstructions::Deposit) => match Deposit::try_from(rest) {
            Ok(ix) => Ok(ParsedInstruction::Deposit(ix)),
            Err(e) => Err(e),
        },
        Ok(AMMInstructions::Withdraw) => match Withdraw::try_from(rest) {
            Ok(ix) => Ok(ParsedInstruction::Withdraw(ix)),
            Err(e) => Err(e),
        },
        Ok(AMMInstructions::Swap) => match Swap::try_from(rest) {
            Ok(ix) => Ok(ParsedInstruction::Swap(ix)),
            Err(e) => Err(e),
        },
        Ok(AMMInstructions::Lock) => {
            if rest.len() < 1 {
                Err(AmmError::MalformedPayload)
            } else {
                Ok(ParsedInstruction::Lock(rest[0]))
            }
        },
    }
}

} // verus!
