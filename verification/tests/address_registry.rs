use ingl_gems::address::{verify, verify_associated_token_address, Address};
use ingl_gems::constants::{
    ASSOCIATED_TOKEN_PROGRAM_ID, METADATA_PROGRAM_ID, METADATA_SEED, SYSTEM_PROGRAM_ID,
    TOKEN_PROGRAM_ID,
};
use std::str::FromStr;
use ingl_gems::roles::{verify_constant_role, verify_edition, verify_gem_account, verify_metadata};
use solana_program::pubkey::Pubkey;

fn address(key: &Pubkey) -> Address {
    Address::new(key.to_bytes())
}

fn program() -> Pubkey {
    Pubkey::new_from_array([7u8; 32])
}

#[test]
fn derive_agrees_with_the_host_derivation() {
    let seeds = vec![b"global_gem_account".to_vec()];
    let (expected, bump) = Pubkey::find_program_address(&[b"global_gem_account"], &program());
    assert_eq!(ingl_gems::address::derive(&seeds, &address(&program())), Some((address(&expected), bump)));
}

#[test]
fn derive_is_deterministic() {
    let seeds = vec![b"gem_account".to_vec(), vec![3u8; 32]];
    let first = ingl_gems::address::derive(&seeds, &address(&program()));
    let second = ingl_gems::address::derive(&seeds, &address(&program()));
    assert!(first.is_some());
    assert_eq!(first, second);
}

#[test]
fn derive_does_not_return_its_argument() {
    let seeds = vec![b"minting_pool".to_vec()];
    let (derived, _) = ingl_gems::address::derive(&seeds, &address(&program())).unwrap();
    assert_ne!(derived, address(&program()));
}

#[test]
fn derive_depends_on_the_seeds_and_on_the_program() {
    let pool = ingl_gems::address::derive(&vec![b"minting_pool".to_vec()], &address(&program())).unwrap();
    let authority = ingl_gems::address::derive(&vec![b"mint_authority".to_vec()], &address(&program())).unwrap();
    let other = ingl_gems::address::derive(&vec![b"minting_pool".to_vec()], &Address::new([8u8; 32])).unwrap();
    assert_ne!(pool.0, authority.0);
    assert_ne!(pool.0, other.0);
}

#[test]
fn derive_refuses_a_seed_that_is_too_long() {
    let seeds = vec![vec![1u8; 33]];
    assert_eq!(ingl_gems::address::derive(&seeds, &address(&program())), None);
}

#[test]
fn derive_refuses_too_many_seeds() {
    let seeds = vec![vec![1u8]; 17];
    assert_eq!(ingl_gems::address::derive(&seeds, &address(&program())), None);
}

#[test]
fn verify_accepts_the_derived_address_and_gives_the_bump() {
    let seeds = vec![b"mint_authority".to_vec()];
    let (expected, bump) = Pubkey::find_program_address(&[b"mint_authority"], &program());
    assert_eq!(verify(&seeds, &address(&program()), &address(&expected)), Some(bump));
}

#[test]
fn verify_refuses_any_other_address() {
    let seeds = vec![b"mint_authority".to_vec()];
    let (expected, _) = Pubkey::find_program_address(&[b"mint_authority"], &program());
    let mut bytes = expected.to_bytes();
    bytes[31] ^= 1;
    assert_eq!(verify(&seeds, &address(&program()), &Address::new(bytes)), None);
    assert_eq!(verify(&seeds, &address(&program()), &address(&program())), None);
}

#[test]
fn verify_refuses_where_nothing_can_be_derived() {
    let seeds = vec![vec![0u8; 40]];
    assert_eq!(verify(&seeds, &address(&program()), &Address::new([0u8; 32])), None);
}

#[test]
fn same_as_compares_every_byte() {
    let a = Address::new([5u8; 32]);
    let mut bytes = [5u8; 32];
    assert!(a.same_as(&Address::new(bytes)));
    bytes[0] = 6;
    assert!(!a.same_as(&Address::new(bytes)));
    bytes[0] = 5;
    bytes[31] = 6;
    assert!(!a.same_as(&Address::new(bytes)));
}

#[test]
fn to_seed_gives_the_bytes() {
    let mut bytes = [0u8; 32];
    for (i, byte) in bytes.iter_mut().enumerate() {
        *byte = i as u8;
    }
    assert_eq!(Address::new(bytes).to_seed(), bytes.to_vec());
}

#[test]
fn associated_token_address_agrees_with_the_token_account_program() {
    let wallet = Pubkey::new_from_array([1u8; 32]);
    let mint = Pubkey::new_from_array([2u8; 32]);
    let expected = spl_associated_token_account::get_associated_token_address(&wallet, &mint);
    assert!(verify_associated_token_address(&address(&wallet), &address(&mint), &address(&expected)));
    assert!(!verify_associated_token_address(&address(&mint), &address(&wallet), &address(&expected)));
    assert!(!verify_associated_token_address(&address(&wallet), &address(&mint), &address(&wallet)));
}

#[test]
fn constant_role_is_the_derivation_of_its_one_seed() {
    let (pool, bump) = Pubkey::find_program_address(&[b"minting_pool"], &program());
    assert_eq!(
        verify_constant_role(&ingl_gems::constants::MINTING_POOL_SEED, &address(&program()), &address(&pool)),
        Some(bump)
    );
    assert_eq!(
        verify_constant_role(&ingl_gems::constants::LEDGER_SEED, &address(&program()), &address(&pool)),
        None
    );
}

#[test]
fn gem_account_is_derived_from_the_mint() {
    let mint = Pubkey::new_from_array([2u8; 32]);
    let (gem, bump) = Pubkey::find_program_address(&[b"gem_account", mint.as_ref()], &program());
    assert_eq!(verify_gem_account(&address(&program()), &address(&mint), &address(&gem)), Some(bump));
    let other = Pubkey::new_from_array([3u8; 32]);
    assert_eq!(verify_gem_account(&address(&program()), &address(&other), &address(&gem)), None);
}

#[test]
fn metadata_address_agrees_with_the_registry() {
    let mint = Pubkey::new_from_array([2u8; 32]);
    let (metadata, _) = mpl_token_metadata::pda::find_metadata_account(&mint);
    assert!(verify_metadata(&address(&mint), &address(&metadata)));
    assert!(!verify_edition(&address(&mint), &address(&metadata)));
}

#[test]
fn edition_address_agrees_with_the_registry() {
    let mint = Pubkey::new_from_array([2u8; 32]);
    let (edition, _) = mpl_token_metadata::pda::find_master_edition_account(&mint);
    assert!(verify_edition(&address(&mint), &address(&edition)));
    assert!(!verify_metadata(&address(&mint), &address(&edition)));
}

#[test]
fn seed_constants_spell_their_roles() {
    assert_eq!(&ingl_gems::constants::GEM_ACCOUNT_SEED[..], b"gem_account");
    assert_eq!(&ingl_gems::constants::LEDGER_SEED[..], b"global_gem_account");
    assert_eq!(&ingl_gems::constants::MINTING_POOL_SEED[..], b"minting_pool");
    assert_eq!(&ingl_gems::constants::MINT_AUTHORITY_SEED[..], b"mint_authority");
    assert_eq!(&ingl_gems::constants::COLLECTION_SEED[..], b"ingl_nft_collection_newer");
    assert_eq!(&ingl_gems::constants::COLLECTION_HOLDER_SEED[..], b"collection_holder");
    assert_eq!(&ingl_gems::constants::EDITION_SEED[..], b"edition");
}

#[test]
fn feed_constants_are_the_addresses_in_their_comments() {
    let feeds = [
        (ingl_gems::constants::BTC_FEED, "8SXvChNYFhRq4EZuZvnhjrB3jJRQCv4k3P4W6hesH3Ee"),
        (ingl_gems::constants::SOL_FEED, "GvDMxPzN1sCj7L26YDK2HnMRXEQmQ2aemov8YBtPS7vR"),
        (ingl_gems::constants::ETH_FEED, "HNStfhaLnqwF2ZtJUizaA9uHDAVB976r2AgTUx9LrdEo"),
        (ingl_gems::constants::BNB_FEED, "2steFGCbo9FNXksMBGDh9NwixtdG5PdQoaCuR4knyvrB"),
    ];
    for (bytes, text) in feeds {
        assert_eq!(Pubkey::from_str(text).unwrap().to_bytes(), bytes);
    }
}

#[test]
fn program_constants_are_the_addresses_of_the_programs() {
    assert_eq!(SYSTEM_PROGRAM_ID, solana_program::system_program::id().to_bytes());
    assert_eq!(TOKEN_PROGRAM_ID, spl_token::id().to_bytes());
    assert_eq!(ASSOCIATED_TOKEN_PROGRAM_ID, spl_associated_token_account::id().to_bytes());
    assert_eq!(METADATA_PROGRAM_ID, mpl_token_metadata::id().to_bytes());
    assert_eq!(&METADATA_SEED[..], mpl_token_metadata::state::PREFIX.as_bytes());
    assert_eq!(&ingl_gems::constants::EDITION_SEED[..], mpl_token_metadata::state::EDITION.as_bytes());
}
