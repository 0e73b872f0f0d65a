use vstd::prelude::*;
use crate::address::{
    bump_of, derives_to, metadata_prefix, metadata_program_id, seed_list, verify, Address,
};
use crate::constants::{
    bytes_of, COLLECTION_HOLDER_SEED, COLLECTION_SEED, EDITION_SEED, GEM_ACCOUNT_SEED, LEDGER_SEED,
    MINTING_POOL_SEED, MINT_AUTHORITY_SEED,
};

verus! {

/// The seeds of the ledger cell.
pub open spec fn ledger_seeds() -> Seq<Seq<u8>> {
    seq![LEDGER_SEED@]
}

/// The seeds of the pool that collects the fees.
pub open spec fn minting_pool_seeds() -> Seq<Seq<u8>> {
    seq![MINTING_POOL_SEED@]
}

/// The seeds of the program-controlled signer.
pub open spec fn mint_authority_seeds() -> Seq<Seq<u8>> {
    seq![MINT_AUTHORITY_SEED@]
}

/// The seeds of the collection's mint.
pub open spec fn collection_mint_seeds() -> Seq<Seq<u8>> {
    seq![COLLECTION_SEED@]
}

/// The seeds of the identity that holds the collection's unit.
pub open spec fn collection_holder_seeds() -> Seq<Seq<u8>> {
    seq![COLLECTION_HOLDER_SEED@]
}

/// The seeds of the record cell of the gem with the mint `mint`.
pub open spec fn gem_account_seeds(mint: Seq<u8>) -> Seq<Seq<u8>> {
    seq![GEM_ACCOUNT_SEED@, mint]
}

/// The seeds of the metadata record of `mint`, under the metadata registry.
pub open spec fn metadata_seeds(mint: Seq<u8>) -> Seq<Seq<u8>> {
    seq![metadata_prefix(), metadata_program_id(), mint]
}

/// The seeds of the master edition record of `mint`, under the metadata
/// registry.
pub open spec fn edition_seeds(mint: Seq<u8>) -> Seq<Seq<u8>> {
    seq![metadata_prefix(), metadata_program_id(), mint, EDITION_SEED@]
}

/// Compares `provided` with the address that one constant seed designates
/// under `program`. On a match it returns the disambiguator.
pub fn verify_constant_role<const N: usize>(
    seed: &[u8; N],
    program: &Address,
    provided: &Address,
) -> (r: Option<u8>)
    ensures
        r is Some == derives_to(seq![seed@], program@, provided@),
        r matches Some(bump) ==> bump == bump_of(seq![seed@], program@),
{
    let mut seeds: Vec<Vec<u8>> = Vec::new();
    seeds.push(bytes_of(seed));
    assert(seed_list(&seeds) =~= seq![seed@]);
    verify(&seeds, program, provided)
}

/// Compares `provided` with the address of the record cell of the gem with
/// the mint `mint`. On a match it returns the disambiguator.
pub fn verify_gem_account(program: &Address, mint: &Address, provided: &Address) -> (r: Option<u8>)
    ensures
        r is Some == derives_to(gem_account_seeds(mint@), program@, provided@),
        r matches Some(bump) ==> bump == bump_of(gem_account_seeds(mint@), program@),
{
    let mut seeds: Vec<Vec<u8>> = Vec::new();
    seeds.push(bytes_of(&GEM_ACCOUNT_SEED));
    seeds.push(mint.to_seed());
    assert(seed_list(&seeds) =~= gem_account_seeds(mint@));
    verify(&seeds, program, provided)
}

/// Compares `provided` with the address of the metadata record of `mint`.
pub fn verify_metadata(mint: &Address, provided: &Address) -> (r: bool)
    ensures
        r == derives_to(metadata_seeds(mint@), metadata_program_id(), provided@),
{
    let registry = crate::address::metadata_program_address();
    let mut seeds: Vec<Vec<u8>> = Vec::new();
    seeds.push(crate::address::metadata_prefix_bytes());
    seeds.push(registry.to_seed());
    seeds.push(mint.to_seed());
    assert(seed_list(&seeds) =~= metadata_seeds(mint@));
    verify(&seeds, &registry, provided).is_some()
}

/// Compares `provided` with the address of the master edition record of `mint`.
pub fn verify_edition(mint: &Address, provided: &Address) -> (r: bool)
    ensures
        r == derives_to(edition_seeds(mint@), metadata_program_id(), provided@),
{
    let registry = crate::address::metadata_program_address();
    let mut seeds: Vec<Vec<u8>> = Vec::new();
    seeds.push(crate::address::metadata_prefix_bytes());
    seeds.push(registry.to_seed());
    seeds.push(mint.to_seed());
    seeds.push(bytes_of(&EDITION_SEED));
    assert(seed_list(&seeds) =~= edition_seeds(mint@));
    verify(&seeds, &registry, provided).is_some()
}

} // verus!
