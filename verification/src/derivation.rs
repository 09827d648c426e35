//! Address derivation: every vault, liquidity-mint and pool-record
//! address is recomputed from its seeds and compared byte for byte; a
//! supplied address is never trusted. The derivation itself is the
//! ledger's deterministic hash, called through trusted wrappers; the
//! comparison logic around it is verified.

use vstd::bytes::spec_u64_to_le_bytes;
use vstd::bytes::u64_to_le_bytes;
use vstd::prelude::*;

use crate::codec::keys_equal;
use crate::error::AmmError;

verus! {

/// The address that the ledger derives from a seed phrase and a program
/// id, when the derivation succeeds.
pub uninterp spec fn derived_address(seeds: Seq<Seq<u8>>, program_id: Seq<u8>) -> Option<Seq<u8>>;

/// The address and bump that the ledger's bump search finds for a seed
/// phrase and a program id, when one exists.
pub uninterp spec fn found_program_address(seeds: Seq<Seq<u8>>, program_id: Seq<u8>) -> Option<
    (Seq<u8>, u8),
>;

/// Relies on solana_program's `Pubkey::create_program_address`: a
/// deterministic digest of the seed phrase and program id, refused when
/// the seed phrase is oversized or the digest lands on the ed25519 curve.
#[verifier::external_body]
fn create_derived_address(seeds: &Vec<Vec<u8>>, program_id: &[u8; 32]) -> (r: Option<[u8; 32]>)
    ensures
        match r {
            Some(a) => derived_address(seeds.deep_view(), program_id@) == Some(a@),
            None => derived_address(seeds.deep_view(), program_id@) is None,
        },
{
    let seed_refs: Vec<&[u8]> = seeds.iter().map(|s| s.as_slice()).collect();
    let pid = solana_program::pubkey::Pubkey::new_from_array(*program_id);
    match solana_program::pubkey::Pubkey::create_program_address(&seed_refs, &pid) {
        Ok(pk) => Some(pk.to_bytes()),
        Err(_) => None,
    }
}

/// Relies on solana_program's `Pubkey::try_find_program_address`: a
/// deterministic search downward from bump 255 that returns the first
/// bump whose derivation succeeds together with the derived address, so
/// appending that bump to the seed phrase re-derives the same address.
#[verifier::external_body]
fn find_derived_address(seeds: &Vec<Vec<u8>>, program_id: &[u8; 32]) -> (r: Option<([u8; 32], u8)>)
    ensures
        match r {
            Some(pair) => {
                &&& found_program_address(seeds.deep_view(), program_id@) == Some(
                    (pair.0@, pair.1),
                )
                &&& derived_address(seeds.deep_view().push(seq![pair.1]), program_id@) == Some(
                    pair.0@,
                )
            },
            None => found_program_address(seeds.deep_view(), program_id@) is None,
        },
{
    let seed_refs: Vec<&[u8]> = seeds.iter().map(|s| s.as_slice()).collect();
    let pid = solana_program::pubkey::Pubkey::new_from_array(*program_id);
    match solana_program::pubkey::Pubkey::try_find_program_address(&seed_refs, &pid) {
        Some((pk, bump)) => Some((pk.to_bytes(), bump)),
        None => None,
    }
}

/// Re-derives an address from a seed phrase that already carries its
/// bump and compares it byte for byte with the candidate; fails closed
/// on any mismatch or failed derivation.
pub fn check_eq_program_derived_address_with_bump(
    seeds: &Vec<Vec<u8>>,
    program_id: &[u8; 32],
    address: &[u8; 32],
) -> (r: Result<(), AmmError>)
    ensures
        r is Ok <==> derived_address(seeds.deep_view(), program_id@) == Some(address@),
        r is Err ==> r === Err(AmmError::AddressMismatch),
{
    match create_derived_address(seeds, program_id) {
        Some(derived) => {
            if keys_equal(&derived, address) {
                Ok(())
            } else {
                Err(AmmError::AddressMismatch)
            }
        },
        None => Err(AmmError::AddressMismatch),
    }
}

/// Searches for the bump of a seed phrase, compares the found address
/// byte for byte with the candidate, and hands the bump back; fails
/// closed on any mismatch or failed search.
pub fn check_eq_program_derived_address_and_get_bump(
    seeds: &Vec<Vec<u8>>,
    program_id: &[u8; 32],
    address: &[u8; 32],
) -> (r: Result<u8, AmmError>)
    ensures
        r is Ok <==> (found_program_address(seeds.deep_view(), program_id@) matches Some(pair)
            && pair.0 == address@),
        r matches Ok(b) ==> found_program_address(seeds.deep_view(), program_id@) == Some(
            (address@, b),
        ) && derived_address(seeds.deep_view().push(seq![b]), program_id@) == Some(address@),
        r is Err ==> r === Err(AmmError::AddressMismatch),
{
    match find_derived_address(seeds, program_id) {
        Some((found, bump)) => {
            if keys_equal(&found, address) {
                Ok(bump)
            } else {
                Err(AmmError::AddressMismatch)
            }
        },
        None => Err(AmmError::AddressMismatch),
    }
}

/// The seed tag of a pool record address: the bytes of `"config"`.
pub open spec fn spec_config_tag() -> Seq<u8> {
    seq![99u8, 111u8, 110u8, 102u8, 105u8, 103u8]
}

/// Seed phrase of a pool record address, without its bump: the record
/// tag and the pool's identity salt in little-endian.
pub open spec fn spec_config_seeds(seed: u64) -> Seq<Seq<u8>> {
    seq![spec_config_tag(), spec_u64_to_le_bytes(seed)]
}

/// Seed phrase of a vault address, without its bump: the asset id and
/// the pool record address.
pub open spec fn spec_vault_seeds(mint: Seq<u8>, config_key: Seq<u8>) -> Seq<Seq<u8>> {
    seq![mint, config_key]
}

/// Seed phrase of a liquidity-mint address, without its bump: the pool
/// record address alone.
pub open spec fn spec_liquidity_seeds(config_key: Seq<u8>) -> Seq<Seq<u8>> {
    seq![config_key]
}

/// Appends a one-byte bump to a seed phrase.
fn push_bump(seeds: &mut Vec<Vec<u8>>, bump: u8)
    ensures
        final (seeds).deep_view() == old(seeds).deep_view().push(seq![bump]),
{
    let mut tail: Vec<u8> = Vec::new();
    tail.push(bump);
    seeds.push(tail);
    proof {
        assert(tail@ =~= seq![bump]);
        assert(seeds.deep_view() =~~= old(seeds).deep_view().push(seq![bump]));
    }
}

/// Builds the seed phrase of a pool record address, without its bump.
pub fn config_seeds(seed: u64) -> (r: Vec<Vec<u8>>)
    ensures
        r.deep_view() == spec_config_seeds(seed),
{
    let mut tag: Vec<u8> = Vec::new();
    tag.push(99u8);
    tag.push(111u8);
    tag.push(110u8);
    tag.push(102u8);
    tag.push(105u8);
    tag.push(103u8);
    let mut r: Vec<Vec<u8>> = Vec::new();
    r.push(tag);
    r.push(u64_to_le_bytes(seed));
    proof {
        assert(tag@ =~= spec_config_tag());
        assert(r.deep_view() =~~= spec_config_seeds(seed));
    }
    r
}

/// Builds the seed phrase of a pool record address with its bump.
pub fn config_seeds_with_bump(seed: u64, bump: u8) -> (r: Vec<Vec<u8>>)
    ensures
        r.deep_view() == spec_config_seeds(seed).push(seq![bump]),
{
    let mut r = config_seeds(seed);
    push_bump(&mut r, bump);
    r
}

/// Builds the seed phrase of a vault address with its bump.
pub fn vault_seeds_with_bump(mint: &[u8; 32], config_key: &[u8; 32], bump: u8) -> (r: Vec<Vec<u8>>)
    ensures
        r.deep_view() == spec_vault_seeds(mint@, config_key@).push(seq![bump]),
{
    let mut r: Vec<Vec<u8>> = Vec::new();
    r.push(vstd::slice::slice_to_vec(mint.as_slice()));
    r.push(vstd::slice::slice_to_vec(config_key.as_slice()));
    proof {
        assert(r.deep_view() =~~= spec_vault_seeds(mint@, config_key@));
    }
    push_bump(&mut r, bump);
    r
}

/// Builds the seed phrase of a vault address, without its bump.
pub fn vault_seeds(mint: &[u8; 32], config_key: &[u8; 32]) -> (r: Vec<Vec<u8>>)
    ensures
        r.deep_view() == spec_vault_seeds(mint@, config_key@),
{
    let mut r: Vec<Vec<u8>> = Vec::new();
    r.push(vstd::slice::slice_to_vec(mint.as_slice()));
    r.push(vstd::slice::slice_to_vec(config_key.as_slice()));
    proof {
        assert(r.deep_view() =~~= spec_vault_seeds(mint@, config_key@));
    }
    r
}

/// Builds the seed phrase of a liquidity-mint address with its bump.
pub fn liquidity_seeds_with_bump(config_key: &[u8; 32], bump: u8) -> (r: Vec<Vec<u8>>)
    ensures
        r.deep_view() == spec_liquidity_seeds(config_key@).push(seq![bump]),
{
    let mut r: Vec<Vec<u8>> = Vec::new();
    r.push(vstd::slice::slice_to_vec(config_key.as_slice()));
    proof {
        assert(r.deep_view() =~~= spec_liquidity_seeds(config_key@));
    }
    push_bump(&mut r, bump);
    r
}

/// Builds the seed phrase of a liquidity-mint address, without its bump.
pub fn liquidity_seeds(config_key: &[u8; 32]) -> (r: Vec<Vec<u8>>)
    ensures
        r.deep_view() == spec_liquidity_seeds(config_key@),
{
    let mut r: Vec<Vec<u8>> = Vec::new();
    r.push(vstd::slice::slice_to_vec(config_key.as_slice()));
    proof {
        assert(r.deep_view() =~~= spec_liquidity_seeds(config_key@));
    }
    r
}

} // verus!
