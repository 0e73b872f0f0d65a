use vstd::prelude::*;

verus! {

/// Address of the system program: `11111111111111111111111111111111`.
pub const SYSTEM_PROGRAM_ID: [u8; 32] = [
    0, 0, 0, 0, 0, 0, 0, 0, 0, 0, 0, 0, 0, 0, 0, 0, 0, 0, 0, 0, 0, 0, 0, 0, 0, 0, 0, 0, 0, 0, 0, 0,
];

/// Address of the token program: `TokenkegQfeZyiNwAJbNbGKPFXCWuBvf9Ss623VQ5DA`.
pub const TOKEN_PROGRAM_ID: [u8; 32] = [
    6, 221, 246, 225, 215, 101, 161, 147, 217, 203, 225, 70, 206, 235, 121, 172, 28, 180, 133, 237,
    95, 91, 55, 145, 58, 140, 245, 133, 126, 255, 0, 169,
];

/// Address of the program that keeps the holders' token accounts:
/// `ATokenGPvbdGVxr1b2hvZbsiqW5xWH25efTNsLJA8knL`.
pub const ASSOCIATED_TOKEN_PROGRAM_ID: [u8; 32] = [
    140, 151, 37, 143, 78, 36, 137, 241, 187, 61, 16, 41, 20, 142, 13, 131, 11, 90, 19, 153, 218,
    255, 16, 132, 4, 142, 123, 216, 219, 233, 248, 89,
];

/// Address of the metadata registry: `metaqbxxUerdq28cj1RbAWkYQm3ybzjb6a8bt518x1s`.
pub const METADATA_PROGRAM_ID: [u8; 32] = [
    11, 112, 101, 177, 227, 209, 124, 69, 56, 157, 82, 127, 107, 4, 195, 205, 88, 184, 108, 115, 26,
    160, 253, 181, 73, 182, 209, 188, 3, 248, 41, 70,
];

/// First seed of every record of the metadata registry: `metadata`.
pub const METADATA_SEED: [u8; 8] = [109, 101, 116, 97, 100, 97, 116, 97];

/// Seed of a gem's record cell, followed by the gem's mint: `gem_account`.
pub const GEM_ACCOUNT_SEED: [u8; 11] = [103, 101, 109, 95, 97, 99, 99, 111, 117, 110, 116];

/// Seed of the issuance ledger: `global_gem_account`.
pub const LEDGER_SEED: [u8; 18] = [
    103, 108, 111, 98, 97, 108, 95, 103, 101, 109, 95, 97, 99, 99, 111, 117, 110, 116,
];

/// Seed of the pool that collects the fees: `minting_pool`.
pub const MINTING_POOL_SEED: [u8; 12] = [109, 105, 110, 116, 105, 110, 103, 95, 112, 111, 111, 108];

/// Seed of the program-controlled signer: `mint_authority`.
pub const MINT_AUTHORITY_SEED: [u8; 14] = [
    109, 105, 110, 116, 95, 97, 117, 116, 104, 111, 114, 105, 116, 121,
];

/// Seed of the collection's mint: `ingl_nft_collection_newer`.
pub const COLLECTION_SEED: [u8; 25] = [
    105, 110, 103, 108, 95, 110, 102, 116, 95, 99, 111, 108, 108, 101, 99, 116, 105, 111, 110, 95,
    110, 101, 119, 101, 114,
];

/// Seed of the identity that holds the collection's unit: `collection_holder`.
pub const COLLECTION_HOLDER_SEED: [u8; 17] = [
    99, 111, 108, 108, 101, 99, 116, 105, 111, 110, 95, 104, 111, 108, 100, 101, 114,
];

/// Last seed of a master edition record: `edition`.
pub const EDITION_SEED: [u8; 7] = [101, 100, 105, 116, 105, 111, 110];

/// Seconds between the lock and the instant whose prices decide the rarity.
pub const PRICE_TIME_INTERVAL: u32 = 20;

/// Size in bytes of a gem's record cell.
pub const GEM_ACCOUNT_SPACE: u64 = 50;

/// Size in bytes of the ledger cell.
pub const LEDGER_SPACE: u64 = 50;

/// Size in bytes of a mint, as the token program lays it out.
pub const MINT_SPACE: u64 = 82;

/// Royalty on secondary sales, in basis points.
pub const ROYALTY_BASIS_POINTS: u16 = 300;

/// Share of the royalties that goes to the single creator, in percent.
pub const CREATOR_SHARE: u8 = 100;

/// Name of a gem, before its sequence number: `Ingl Gem #`.
pub const GEM_NAME_PREFIX: [u8; 10] = [73, 110, 103, 108, 32, 71, 101, 109, 32, 35];

/// Symbol of a gem, before its sequence number: `I-Gem#`.
pub const GEM_SYMBOL_PREFIX: [u8; 6] = [73, 45, 71, 101, 109, 35];

/// Name of the collection: `Ingl-GemStone`.
pub const COLLECTION_NAME: [u8; 13] = [73, 110, 103, 108, 45, 71, 101, 109, 83, 116, 111, 110, 101];

/// Symbol of the collection: `I-GEM`.
pub const COLLECTION_SYMBOL: [u8; 5] = [73, 45, 71, 69, 77];

/// Where the collection's description is stored:
/// `https://arweave.net/V-GN01-V0OznWUpKEIf0XAMEA_-ndFOfYKNJoPdNpsE`.
pub const COLLECTION_URI: [u8; 63] = [
    104, 116, 116, 112, 115, 58, 47, 47, 97, 114, 119, 101, 97, 118, 101, 46, 110, 101, 116, 47,
    86, 45, 71, 78, 48, 49, 45, 86, 48, 79, 122, 110, 87, 85, 112, 75, 69, 73, 102, 48, 88, 65, 77,
    69, 65, 95, 45, 110, 100, 70, 79, 102, 89, 75, 78, 74, 111, 80, 100, 78, 112, 115, 69,
];

/// Identity of the BTC price feed: `8SXvChNYFhRq4EZuZvnhjrB3jJRQCv4k3P4W6hesH3Ee`.
pub const BTC_FEED: [u8; 32] = [
    110, 140, 73, 119, 131, 222, 0, 89, 100, 246, 146, 209, 91, 196, 213, 16, 34, 177, 117, 140,
    204, 0, 132, 41, 132, 70, 63, 11, 127, 223, 254, 159,
];

/// Identity of the price feed of the chain's own asset:
/// `GvDMxPzN1sCj7L26YDK2HnMRXEQmQ2aemov8YBtPS7vR`.
pub const SOL_FEED: [u8; 32] = [
    236, 129, 16, 81, 18, 162, 87, 214, 29, 244, 207, 95, 19, 238, 10, 27, 1, 145, 151, 200, 197,
    52, 59, 79, 42, 126, 200, 132, 106, 226, 44, 26,
];

/// Identity of the ETH price feed: `HNStfhaLnqwF2ZtJUizaA9uHDAVB976r2AgTUx9LrdEo`.
pub const ETH_FEED: [u8; 32] = [
    243, 57, 118, 112, 48, 64, 79, 249, 90, 127, 196, 85, 55, 166, 159, 156, 221, 95, 179, 197,
    138, 157, 188, 103, 199, 42, 20, 74, 223, 127, 2, 72,
];

/// Identity of the BNB price feed: `2steFGCbo9FNXksMBGDh9NwixtdG5PdQoaCuR4knyvrB`.
pub const BNB_FEED: [u8; 32] = [
    27, 229, 30, 142, 241, 13, 87, 95, 52, 228, 97, 126, 151, 112, 125, 226, 69, 253, 97, 155, 160,
    253, 19, 213, 70, 37, 62, 168, 222, 115, 14, 200,
];

/// The bytes of a constant, as a vector.
pub fn bytes_of<const N: usize>(constant: &[u8; N]) -> (r: Vec<u8>)
    ensures
        r@ == constant@,
{
    let mut r: Vec<u8> = Vec::new();
    let mut i: usize = 0;
    while i < N
        invariant
            i <= N,
            r@ == constant@.subrange(0, i as int),
        decreases N - i,
    {
        r.push(constant[i]);
        assert(constant@.subrange(0, i + 1) =~= constant@.subrange(0, i as int).push(constant@[i as int]));
        i += 1;
    }
    assert(constant@.subrange(0, N as int) =~= constant@);
    r
}

} // verus!
