use vstd::prelude::*;
use solana_program::pubkey::Pubkey;
use crate::constants::{
    ASSOCIATED_TOKEN_PROGRAM_ID, METADATA_PROGRAM_ID, METADATA_SEED, SYSTEM_PROGRAM_ID,
    TOKEN_PROGRAM_ID,
};

verus! {

/// The address of a storage cell, of a program or of a signer: 32 bytes.
#[derive(Clone, Copy, Debug, PartialEq, Eq)]
pub struct Address {
    pub bytes: [u8; 32],
}

impl View for Address {
    type V = Seq<u8>;

    open spec fn view(&self) -> Seq<u8> {
        self.bytes@
    }
}

impl Address {
    pub fn new(bytes: [u8; 32]) -> (r: Address)
        ensures
            r.bytes == bytes,
    {
        Address { bytes }
    }

    /// Whether two addresses hold the same bytes.
    pub fn same_as(&self, other: &Address) -> (r: bool)
        ensures
            r == (self@ == other@),
            r == (*self == *other),
    {
        let mut i: usize = 0;
        while i < 32
            invariant
                i <= 32,
                forall|k: int| 0 <= k < i ==> self.bytes@[k] == other.bytes@[k],
            decreases 32 - i,
        {
            if self.bytes[i] != other.bytes[i] {
                return false;
            }
            i += 1;
        }
        assert(self.bytes@ =~= other.bytes@);
        assert(self.bytes =~= other.bytes);
        true
    }

    /// The address as a seed of a derivation.
    pub fn to_seed(&self) -> (r: Vec<u8>)
        ensures
            r@ == self@,
    {
        crate::constants::bytes_of(&self.bytes)
    }
}

/// A list of seeds as the sequences of bytes it holds.
pub open spec fn seed_list(seeds: &Vec<Vec<u8>>) -> Seq<Seq<u8>> {
    Seq::new(seeds@.len(), |i: int| seeds@[i]@)
}

/// The address that a list of seeds designates under a program, with the
/// disambiguator that completes the seeds; `None` where the seeds designate
/// no address. It is what `Pubkey::try_find_program_address` computes.
pub uninterp spec fn program_address(seeds: Seq<Seq<u8>>, program: Seq<u8>) -> Option<(Seq<u8>, u8)>;

/// The address of the system program.
pub open spec fn system_program_id() -> Seq<u8> {
    SYSTEM_PROGRAM_ID@
}

/// The address of the token program.
pub open spec fn token_program_id() -> Seq<u8> {
    TOKEN_PROGRAM_ID@
}

/// The address of the program that keeps the holders' token accounts.
pub open spec fn associated_token_program_id() -> Seq<u8> {
    ASSOCIATED_TOKEN_PROGRAM_ID@
}

/// The address of the metadata registry.
pub open spec fn metadata_program_id() -> Seq<u8> {
    METADATA_PROGRAM_ID@
}

/// First seed of every record of the metadata registry.
pub open spec fn metadata_prefix() -> Seq<u8> {
    METADATA_SEED@
}

/// Calls `Pubkey::try_find_program_address` of solana_program. The contract
/// gives its result the name `program_address`: the call hashes the seeds, the
/// program's address and a marker, lowering the disambiguator from 255 until
/// the hash is no point of the curve, and depends on nothing else. It returns
/// `None` rather than panic where the seeds are too many or too long.
#[verifier::external_body]
fn find_program_address(seeds: &Vec<Vec<u8>>, program: &Address) -> (r: Option<(Address, u8)>)
    ensures
        match r {
            Some((address, bump)) => program_address(seed_list(seeds), program@) == Some(
                (address@, bump),
            ),
            None => program_address(seed_list(seeds), program@) is None,
        },
{
    let slices: Vec<&[u8]> = seeds.iter().map(|seed| seed.as_slice()).collect();
    let id = Pubkey::new_from_array(program.bytes);
    Pubkey::try_find_program_address(&slices, &id).map(
        |(key, bump)| (Address { bytes: key.to_bytes() }, bump),
    )
}

/// Calls `solana_program::system_program::id`, which returns the constant
/// address `11111111111111111111111111111111`: 32 zero bytes, those of
/// `SYSTEM_PROGRAM_ID`.
#[verifier::external_body]
pub(crate) fn system_program_address() -> (r: Address)
    ensures
        r@ == system_program_id(),
{
    Address { bytes: solana_program::system_program::id().to_bytes() }
}

/// Calls `spl_token::id`, which returns the constant address
/// `TokenkegQfeZyiNwAJbNbGKPFXCWuBvf9Ss623VQ5DA`: the bytes of
/// `TOKEN_PROGRAM_ID`.
#[verifier::external_body]
pub(crate) fn token_program_address() -> (r: Address)
    ensures
        r@ == token_program_id(),
{
    Address { bytes: spl_token::id().to_bytes() }
}

/// Calls `spl_associated_token_account::id`, which returns the constant
/// address `ATokenGPvbdGVxr1b2hvZbsiqW5xWH25efTNsLJA8knL`: the bytes of
/// `ASSOCIATED_TOKEN_PROGRAM_ID`.
#[verifier::external_body]
pub(crate) fn associated_token_program_address() -> (r: Address)
    ensures
        r@ == associated_token_program_id(),
{
    Address { bytes: spl_associated_token_account::id().to_bytes() }
}

/// Calls `mpl_token_metadata::id`, which returns the constant address
/// `metaqbxxUerdq28cj1RbAWkYQm3ybzjb6a8bt518x1s`: the bytes of
/// `METADATA_PROGRAM_ID`.
#[verifier::external_body]
pub(crate) fn metadata_program_address() -> (r: Address)
    ensures
        r@ == metadata_program_id(),
{
    Address { bytes: mpl_token_metadata::id().to_bytes() }
}

/// Reads the constant `mpl_token_metadata::state::PREFIX`, the text
/// `metadata`: the bytes of `METADATA_SEED`.
#[verifier::external_body]
pub(crate) fn metadata_prefix_bytes() -> (r: Vec<u8>)
    ensures
        r@ == metadata_prefix(),
{
    mpl_token_metadata::state::PREFIX.as_bytes().to_vec()
}

/// Whether `provided` is the address that `seeds` designate under `program`.
pub open spec fn derives_to(seeds: Seq<Seq<u8>>, program: Seq<u8>, provided: Seq<u8>) -> bool {
    match program_address(seeds, program) {
        Some((address, _)) => address == provided,
        None => false,
    }
}

/// The disambiguator that completes `seeds` under `program`.
pub open spec fn bump_of(seeds: Seq<Seq<u8>>, program: Seq<u8>) -> u8 {
    match program_address(seeds, program) {
        Some((_, bump)) => bump,
        None => 0,
    }
}

/// Derives the address that a list of role seeds designates under a program,
/// and the disambiguator that completes the seeds.
pub fn derive(seeds: &Vec<Vec<u8>>, program: &Address) -> (r: Option<(Address, u8)>)
    ensures
        match r {
            Some((address, bump)) => program_address(seed_list(seeds), program@) == Some(
                (address@, bump),
            ),
            None => program_address(seed_list(seeds), program@) is None,
        },
{
    find_program_address(seeds, program)
}

/// Re-derives the address that `seeds` designate and compares it with the one
/// the caller provided. On a match it returns the disambiguator.
pub fn verify(seeds: &Vec<Vec<u8>>, program: &Address, provided: &Address) -> (r: Option<u8>)
    ensures
        r is Some == derives_to(seed_list(seeds), program@, provided@),
        r matches Some(bump) ==> bump == bump_of(seed_list(seeds), program@),
{
    match find_program_address(seeds, program) {
        Some((address, bump)) => {
            if address.same_as(provided) {
                Some(bump)
            } else {
                None
            }
        },
        None => None,
    }
}

/// The seeds of a holder's token account for a mint.
pub open spec fn associated_token_seeds(wallet: Seq<u8>, mint: Seq<u8>) -> Seq<Seq<u8>> {
    seq![wallet, token_program_id(), mint]
}

/// Whether `provided` is the token account that belongs to `wallet` for `mint`.
pub open spec fn is_associated_token_address(wallet: Seq<u8>, mint: Seq<u8>, provided: Seq<u8>) -> bool {
    derives_to(associated_token_seeds(wallet, mint), associated_token_program_id(), provided)
}

/// Compares `provided` with the token account that belongs to `wallet` for
/// `mint`: the address that the wallet, the token program and the mint
/// designate under the program that keeps such accounts.
pub fn verify_associated_token_address(wallet: &Address, mint: &Address, provided: &Address) -> (r: bool)
    ensures
        r == is_associated_token_address(wallet@, mint@, provided@),
{
    let mut seeds: Vec<Vec<u8>> = Vec::new();
    seeds.push(wallet.to_seed());
    seeds.push(token_program_address().to_seed());
    seeds.push(mint.to_seed());
    assert(seed_list(&seeds) =~= associated_token_seeds(wallet@, mint@));
    verify(&seeds, &associated_token_program_address(), provided).is_some()
}

} // verus!
