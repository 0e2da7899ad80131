//! Token-2022 transfer hook.
//!
//! Every transfer of a portfolio NFT must move the portfolio account's owner
//! along with the token. Until the ownership-reassignment call into the
//! wrapper is wired, the hook's `Execute` handler rejects every transfer, so
//! no NFT transfer can complete and leave the portfolio's owner field out of
//! step with the token holder.

use vstd::prelude::*;

verus! {

// ═══════════════════════════════════════════════════════════════
// SPL TransferHook interface constants
// ═══════════════════════════════════════════════════════════════
/// Discriminator for the TransferHook `Execute` instruction:
/// the first 8 bytes of SHA256("spl-transfer-hook-interface:execute").
pub const EXECUTE_DISCRIMINATOR: [u8; 8] = [105, 37, 101, 197, 75, 251, 102, 26];

/// Address seed of the ExtraAccountMetaList account: the ASCII bytes of
/// `extra-account-metas`.
pub const EXTRA_METAS_SEED: [u8; 19] = [
    101, 120, 116, 114, 97, 45, 97, 99, 99, 111, 117, 110, 116, 45, 109, 101, 116, 97, 115,
];

/// The seeds of the ExtraAccountMetaList address of `mint`.
pub open spec fn extra_metas_seeds(mint: Seq<u8>) -> Seq<Seq<u8>> {
    seq![EXTRA_METAS_SEED@, mint]
}

/// The outcome of `Pubkey::try_find_program_address` for these seeds and this
/// program id: the program-derived address and its bump seed, or `None` when
/// no bump seed gives an address off the ed25519 curve.
pub uninterp spec fn program_address_search(seeds: Seq<Seq<u8>>, program_id: Seq<u8>) -> Option<
    (Seq<u8>, u8),
>;

/// Calls `solana_program::pubkey::Pubkey::try_find_program_address`, keys
/// taken and given as their 32 bytes. Trusted: its result is the named
/// outcome `program_address_search` of the seeds and the program id; nothing
/// more is stated of it.
#[verifier::external_body]
fn try_find_program_address(seeds: &[&[u8]], program_id: &[u8; 32]) -> (r: Option<([u8; 32], u8)>)
    ensures
        program_address_search(seeds.deep_view(), program_id@) == (match r {
            Some((address, bump)) => Some((address@, bump)),
            None => None,
        }),
{
    let program = solana_program::pubkey::Pubkey::new_from_array(*program_id);
    match solana_program::pubkey::Pubkey::try_find_program_address(seeds, &program) {
        Some((address, bump)) => Some((address.to_bytes(), bump)),
        None => None,
    }
}

/// The seed slices of the ExtraAccountMetaList address of `mint`.
fn extra_metas_seed_slices<'a>(mint: &'a [u8; 32]) -> (r: [&'a [u8]; 2])
    ensures
        r.deep_view() == extra_metas_seeds(mint@),
{
    let seed = EXTRA_METAS_SEED.as_slice();
    let key = mint.as_slice();
    assert(seed.deep_view() =~= EXTRA_METAS_SEED@);
    assert(key.deep_view() =~= mint@);
    let r: [&'a [u8]; 2] = [seed, key];
    assert(r.deep_view() =~= extra_metas_seeds(mint@));
    r
}

/// Derive the ExtraAccountMetaList address for a given mint, with its bump
/// seed. A bump seed exists for all but a statistically negligible set of
/// inputs; `try_extra_account_metas_pda` checks for it.
pub fn extra_account_metas_pda(mint: &[u8; 32], program_id: &[u8; 32]) -> (r: ([u8; 32], u8))
    requires
        program_address_search(extra_metas_seeds(mint@), program_id@) is Some,
    ensures
        program_address_search(extra_metas_seeds(mint@), program_id@) == Some((r.0@, r.1)),
{
    let seeds_array = extra_metas_seed_slices(mint);
    let seeds = seeds_array.as_slice();
    match try_find_program_address(seeds, program_id) {
        Some(found) => found,
        None => {
            assert(false);
            ([0u8; 32], 0)
        },
    }
}

/// Derive the ExtraAccountMetaList address for a given mint, or `None` when
/// no bump seed gives a valid program-derived address.
pub fn try_extra_account_metas_pda(mint: &[u8; 32], program_id: &[u8; 32]) -> (r: Option<
    ([u8; 32], u8),
>)
    ensures
        program_address_search(extra_metas_seeds(mint@), program_id@) == (match r {
            Some((address, bump)) => Some((address@, bump)),
            None => None,
        }),
{
    let seeds_array = extra_metas_seed_slices(mint);
    let seeds = seeds_array.as_slice();
    if try_find_program_address(seeds, program_id).is_some() {
        Some(extra_account_metas_pda(mint, program_id))
    } else {
        None
    }
}

// ═══════════════════════════════════════════════════════════════
// Execute — called by Token-2022 on every NFT transfer
// ═══════════════════════════════════════════════════════════════
/// Errors that the NFT program raises from this module.
#[derive(Clone, Copy, Debug, PartialEq, Eq)]
pub enum NftError {
    /// NFT transfers are disabled until ownership reassignment is wired.
    TransferBlocked,
}

/// Process the TransferHook `Execute` instruction: every transfer is rejected
/// with `TransferBlocked`, so the portfolio account's owner field stays in
/// step with the NFT holder.
pub fn process_execute(_program_id: &[u8; 32], _amount: u64) -> (r: Result<(), NftError>)
    ensures
        r == Err::<(), NftError>(NftError::TransferBlocked),
{
    Err(NftError::TransferBlocked)
}

} // verus!
