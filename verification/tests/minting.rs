use ingl_gems::account::Account;
use ingl_gems::action::{Action, MetadataText, Signer};
use ingl_gems::address::Address;
use ingl_gems::error::{ProcessError, Role};
use ingl_gems::processor::{mint_collection, mint_nft};
use ingl_gems::state::{AssetRecord, Class, Ledger, ValueLocation};
use solana_program::pubkey::Pubkey;

fn address(key: &Pubkey) -> Address {
    Address::new(key.to_bytes())
}

fn program() -> Pubkey {
    Pubkey::new_from_array([7u8; 32])
}

fn pda(seeds: &[&[u8]]) -> (Pubkey, u8) {
    Pubkey::find_program_address(seeds, &program())
}

fn account(key: &Pubkey, data: Vec<u8>) -> Account {
    let lamports = if data.is_empty() { 0 } else { 1_461_600 };
    Account { key: address(key), is_signer: false, lamports, data }
}

fn payer() -> Pubkey {
    Pubkey::new_from_array([1u8; 32])
}

fn gem_mint() -> Pubkey {
    Pubkey::new_from_array([2u8; 32])
}

fn ledger_cell(ledger: Ledger) -> Vec<u8> {
    let mut cell = ledger.pack();
    cell.resize(50, 0);
    cell
}

fn mint_nft_accounts(ledger: Vec<u8>) -> Vec<Account> {
    let mint = gem_mint();
    let collection = pda(&[b"ingl_nft_collection_newer"]).0;
    vec![
        Account { key: address(&payer()), is_signer: true, lamports: 600_000_000, data: vec![] },
        account(&mint, vec![]),
        account(&pda(&[b"mint_authority"]).0, vec![]),
        account(&spl_associated_token_account::get_associated_token_address(&payer(), &mint), vec![]),
        account(&spl_token::id(), vec![]),
        account(&solana_program::sysvar::rent::id(), vec![]),
        account(&solana_program::system_program::id(), vec![]),
        account(&mpl_token_metadata::pda::find_metadata_account(&mint).0, vec![]),
        account(&pda(&[b"minting_pool"]).0, vec![]),
        account(&pda(&[b"global_gem_account"]).0, ledger),
        account(&pda(&[b"gem_account", mint.as_ref()]).0, vec![]),
        account(&solana_program::sysvar::clock::id(), vec![]),
        account(&mpl_token_metadata::pda::find_master_edition_account(&collection).0, vec![]),
        account(&collection, vec![]),
        account(&mpl_token_metadata::pda::find_metadata_account(&collection).0, vec![]),
    ]
}

fn mint_collection_accounts() -> Vec<Account> {
    let mint = pda(&[b"ingl_nft_collection_newer"]).0;
    let holder = pda(&[b"collection_holder"]).0;
    vec![
        Account { key: address(&payer()), is_signer: true, lamports: 600_000_000, data: vec![] },
        account(&holder, vec![]),
        account(&mint, vec![]),
        account(&pda(&[b"mint_authority"]).0, vec![]),
        account(&spl_associated_token_account::get_associated_token_address(&holder, &mint), vec![]),
        account(&spl_token::id(), vec![]),
        account(&solana_program::sysvar::rent::id(), vec![]),
        account(&solana_program::system_program::id(), vec![]),
        account(&mpl_token_metadata::pda::find_metadata_account(&mint).0, vec![]),
        account(&pda(&[b"global_gem_account"]).0, vec![]),
        account(&mpl_token_metadata::pda::find_master_edition_account(&mint).0, vec![]),
    ]
}

fn other() -> Address {
    Address::new([0xeeu8; 32])
}

#[test]
fn mint_of_the_cheapest_tier_on_an_empty_ledger() {
    let accounts = mint_nft_accounts(ledger_cell(Ledger::initialize()));
    let plan = mint_nft(&address(&program()), &accounts, Class::Benitoite, 1_660_000_000).unwrap();
    let authority = accounts[2].key;
    let signer = Signer::MintAuthority { bump: pda(&[b"mint_authority"]).1 };
    let expected = vec![
        Action::CreateCell {
            payer: accounts[0].key,
            cell: accounts[10].key,
            space: 50,
            owner: address(&program()),
            signer: Signer::GemAccount {
                mint: accounts[1].key,
                bump: pda(&[b"gem_account", gem_mint().as_ref()]).1,
            },
        },
        Action::StoreLedger {
            cell: accounts[9].key,
            ledger: Ledger { issued_count: 1, total_value_collected: 1_000_000 },
        },
        Action::Transfer { from: accounts[0].key, to: accounts[8].key, amount: 1_000_000 },
        Action::CreateCell {
            payer: accounts[0].key,
            cell: accounts[1].key,
            space: 82,
            owner: address(&spl_token::id()),
            signer: Signer::Caller,
        },
        Action::InitializeMint {
            mint: accounts[1].key,
            authority,
            freeze_authority: authority,
            decimals: 0,
        },
        Action::CreateHolderAccount {
            payer: accounts[0].key,
            wallet: accounts[0].key,
            mint: accounts[1].key,
            holder_account: accounts[3].key,
        },
        Action::MintUnits {
            mint: accounts[1].key,
            holder_account: accounts[3].key,
            authority,
            amount: 1,
            signer,
        },
        Action::RegisterMetadata {
            metadata: accounts[7].key,
            mint: accounts[1].key,
            authority,
            payer: accounts[0].key,
            text: MetadataText::Gem { number: 1, class: Class::Benitoite },
            creator_verified: true,
            creator_share: 100,
            royalty_basis_points: 300,
            update_authority_is_signer: true,
            is_mutable: true,
            signer,
        },
        Action::RevokeMintAuthority { mint: accounts[1].key, authority, signer },
        Action::MarkPrimarySale {
            metadata: accounts[7].key,
            owner: accounts[0].key,
            holder_account: accounts[3].key,
        },
        Action::StoreRecord {
            cell: accounts[10].key,
            record: AssetRecord {
                creation_time: 1_660_000_000,
                redeemable_time: 1_660_000_000,
                sequence_number: 1,
                rarity: None,
                value_location: ValueLocation::HeldInPool,
                reveal_commit_time: None,
            },
        },
    ];
    assert_eq!(plan, expected);
}

#[test]
fn mint_charges_the_tariff_of_each_tier() {
    let before = Ledger { issued_count: 10, total_value_collected: 77 };
    for class in [
        Class::Ruby,
        Class::Diamond,
        Class::Sapphire,
        Class::Emerald,
        Class::Serendibite,
        Class::Benitoite,
    ] {
        let accounts = mint_nft_accounts(ledger_cell(before));
        let plan = mint_nft(&address(&program()), &accounts, class, 5).unwrap();
        let fee = class.get_class_lamports();
        assert_eq!(
            plan[1],
            Action::StoreLedger {
                cell: accounts[9].key,
                ledger: Ledger { issued_count: 11, total_value_collected: 77 + fee },
            }
        );
        assert_eq!(
            plan[2],
            Action::Transfer { from: accounts[0].key, to: accounts[8].key, amount: fee }
        );
    }
}

fn stored_ledger(plan: &[Action]) -> Ledger {
    match plan[1] {
        Action::StoreLedger { ledger, .. } => ledger,
        _ => panic!("no ledger is stored"),
    }
}

fn stored_number(plan: &[Action]) -> u32 {
    match plan[plan.len() - 1] {
        Action::StoreRecord { record, .. } => record.sequence_number,
        _ => panic!("no record is stored"),
    }
}

#[test]
fn successive_mints_get_successive_numbers() {
    let mut cell = ledger_cell(Ledger::initialize());
    let mut last = 0;
    for class in [Class::Benitoite, Class::Ruby, Class::Emerald] {
        let accounts = mint_nft_accounts(cell.clone());
        let plan = mint_nft(&address(&program()), &accounts, class, 9).unwrap();
        assert_eq!(stored_number(&plan), last + 1);
        last = stored_number(&plan);
        cell = ingl_gems::bytes::overwrite(&cell, &stored_ledger(&plan).pack());
    }
    assert_eq!(
        Ledger::unpack(&cell),
        Some(Ledger { issued_count: 3, total_value_collected: 511_000_000 })
    );
}

#[test]
fn a_refused_mint_uses_up_no_number() {
    let cell = ledger_cell(Ledger { issued_count: 4, total_value_collected: 0 });
    let mut accounts = mint_nft_accounts(cell.clone());
    accounts[8].key = other();
    assert!(mint_nft(&address(&program()), &accounts, Class::Ruby, 9).is_err());
    let accounts = mint_nft_accounts(cell);
    let plan = mint_nft(&address(&program()), &accounts, Class::Ruby, 9).unwrap();
    assert_eq!(stored_number(&plan), 5);
}

#[test]
fn the_ledger_is_written_before_the_fee_moves() {
    let accounts = mint_nft_accounts(ledger_cell(Ledger::initialize()));
    let plan = mint_nft(&address(&program()), &accounts, Class::Emerald, 9).unwrap();
    let at = |wanted: fn(&Action) -> bool| plan.iter().position(wanted).unwrap();
    let ledger = at(|a| matches!(a, Action::StoreLedger { .. }));
    let transfer = at(|a| matches!(a, Action::Transfer { .. }));
    let mint = at(|a| matches!(a, Action::InitializeMint { .. }));
    let units = at(|a| matches!(a, Action::MintUnits { .. }));
    let revoke = at(|a| matches!(a, Action::RevokeMintAuthority { .. }));
    assert!(ledger < transfer && transfer < mint && mint < units && units < revoke);
}

#[test]
fn mint_refuses_every_misplaced_account() {
    let cases = [
        (10usize, Role::GemAccount),
        (9, Role::Ledger),
        (8, Role::MintingPool),
        (2, Role::MintAuthority),
        (3, Role::AssociatedTokenAccount),
        (6, Role::SystemProgram),
        (4, Role::TokenProgram),
        (7, Role::Metadata),
        (13, Role::CollectionMint),
        (14, Role::CollectionMetadata),
        (12, Role::Edition),
    ];
    for (at, role) in cases {
        let mut accounts = mint_nft_accounts(ledger_cell(Ledger::initialize()));
        accounts[at].key = other();
        assert_eq!(
            mint_nft(&address(&program()), &accounts, Class::Ruby, 9),
            Err(ProcessError::KeyPairMismatch(role))
        );
    }
}

#[test]
fn mint_reports_the_first_misplaced_account() {
    let mut accounts = mint_nft_accounts(ledger_cell(Ledger::initialize()));
    accounts[12].key = other();
    accounts[8].key = other();
    assert_eq!(
        mint_nft(&address(&program()), &accounts, Class::Ruby, 9),
        Err(ProcessError::KeyPairMismatch(Role::MintingPool))
    );
}

#[test]
fn mint_for_another_mint_needs_that_mint_s_accounts() {
    let mut accounts = mint_nft_accounts(ledger_cell(Ledger::initialize()));
    accounts[1].key = Address::new([3u8; 32]);
    assert_eq!(
        mint_nft(&address(&program()), &accounts, Class::Ruby, 9),
        Err(ProcessError::KeyPairMismatch(Role::GemAccount))
    );
}

#[test]
fn mint_under_another_program_is_refused() {
    let accounts = mint_nft_accounts(ledger_cell(Ledger::initialize()));
    assert_eq!(
        mint_nft(&Address::new([8u8; 32]), &accounts, Class::Ruby, 9),
        Err(ProcessError::KeyPairMismatch(Role::GemAccount))
    );
}

#[test]
fn mint_needs_all_its_accounts() {
    let mut accounts = mint_nft_accounts(ledger_cell(Ledger::initialize()));
    accounts.pop();
    assert_eq!(
        mint_nft(&address(&program()), &accounts, Class::Ruby, 9),
        Err(ProcessError::NotEnoughAccountKeys)
    );
    assert_eq!(
        mint_nft(&address(&program()), &[], Class::Ruby, 9),
        Err(ProcessError::NotEnoughAccountKeys)
    );
}

#[test]
fn mint_needs_a_ledger_in_the_ledger_cell() {
    let accounts = mint_nft_accounts(vec![0u8; 11]);
    assert_eq!(
        mint_nft(&address(&program()), &accounts, Class::Ruby, 9),
        Err(ProcessError::InvalidAccountData)
    );
}

#[test]
fn mint_refuses_a_ledger_that_would_overflow() {
    let full = Ledger { issued_count: u32::MAX, total_value_collected: 0 };
    let accounts = mint_nft_accounts(ledger_cell(full));
    assert_eq!(
        mint_nft(&address(&program()), &accounts, Class::Ruby, 9),
        Err(ProcessError::ArithmeticOverflow)
    );
    let rich = Ledger { issued_count: 0, total_value_collected: u64::MAX - 999_999 };
    let accounts = mint_nft_accounts(ledger_cell(rich));
    assert_eq!(
        mint_nft(&address(&program()), &accounts, Class::Benitoite, 9),
        Err(ProcessError::ArithmeticOverflow)
    );
}

#[test]
fn the_signers_of_a_mint_sign_for_their_addresses() {
    let accounts = mint_nft_accounts(ledger_cell(Ledger::initialize()));
    let plan = mint_nft(&address(&program()), &accounts, Class::Ruby, 9).unwrap();
    for action in plan {
        let (signer, signed_for) = match action {
            Action::CreateCell { signer, cell, .. } => (signer, cell),
            Action::MintUnits { signer, authority, .. } => (signer, authority),
            Action::RegisterMetadata { signer, authority, .. } => (signer, authority),
            Action::RevokeMintAuthority { signer, authority, .. } => (signer, authority),
            _ => continue,
        };
        let seeds = signer.seeds();
        if signer == Signer::Caller {
            assert!(seeds.is_empty());
            continue;
        }
        let slices: Vec<&[u8]> = seeds.iter().map(|seed| seed.as_slice()).collect();
        let derived = Pubkey::create_program_address(&slices, &program()).unwrap();
        assert_eq!(address(&derived), signed_for);
    }
}

#[test]
fn the_text_of_a_gem_embeds_its_number() {
    let text = MetadataText::Gem { number: 1, class: Class::Ruby };
    assert_eq!(text.name(), b"Ingl Gem #1".to_vec());
    assert_eq!(text.symbol(), b"I-Gem#1".to_vec());
    assert_eq!(text.uri(), None);
    let text = MetadataText::Gem { number: 4_294_967_295, class: Class::Emerald };
    assert_eq!(text.name(), b"Ingl Gem #4294967295".to_vec());
    assert_eq!(text.symbol(), b"I-Gem#4294967295".to_vec());
}

#[test]
fn the_text_of_the_collection_is_fixed() {
    assert_eq!(MetadataText::Collection.name(), b"Ingl-GemStone".to_vec());
    assert_eq!(MetadataText::Collection.symbol(), b"I-GEM".to_vec());
    assert_eq!(
        MetadataText::Collection.uri(),
        Some(b"https://arweave.net/V-GN01-V0OznWUpKEIf0XAMEA_-ndFOfYKNJoPdNpsE".to_vec())
    );
}

#[test]
fn signer_seeds_end_with_the_bump() {
    assert_eq!(Signer::Caller.seeds(), Vec::<Vec<u8>>::new());
    assert_eq!(
        Signer::Ledger { bump: 254 }.seeds(),
        vec![b"global_gem_account".to_vec(), vec![254]]
    );
    assert_eq!(
        Signer::GemAccount { mint: Address::new([2u8; 32]), bump: 3 }.seeds(),
        vec![b"gem_account".to_vec(), vec![2u8; 32], vec![3]]
    );
    assert_eq!(
        Signer::CollectionMint { bump: 0 }.seeds(),
        vec![b"ingl_nft_collection_newer".to_vec(), vec![0]]
    );
    assert_eq!(
        Signer::MintAuthority { bump: 255 }.seeds(),
        vec![b"mint_authority".to_vec(), vec![255]]
    );
}

#[test]
fn mint_of_the_collection() {
    let accounts = mint_collection_accounts();
    let plan = mint_collection(&address(&program()), &accounts).unwrap();
    let authority = accounts[3].key;
    let signer = Signer::MintAuthority { bump: pda(&[b"mint_authority"]).1 };
    let expected = vec![
        Action::CreateCell {
            payer: accounts[0].key,
            cell: accounts[9].key,
            space: 50,
            owner: address(&program()),
            signer: Signer::Ledger { bump: pda(&[b"global_gem_account"]).1 },
        },
        Action::StoreLedger {
            cell: accounts[9].key,
            ledger: Ledger { issued_count: 0, total_value_collected: 0 },
        },
        Action::CreateCell {
            payer: accounts[0].key,
            cell: accounts[2].key,
            space: 82,
            owner: address(&spl_token::id()),
            signer: Signer::CollectionMint { bump: pda(&[b"ingl_nft_collection_newer"]).1 },
        },
        Action::InitializeMint {
            mint: accounts[2].key,
            authority,
            freeze_authority: authority,
            decimals: 0,
        },
        Action::CreateHolderAccount {
            payer: accounts[0].key,
            wallet: accounts[1].key,
            mint: accounts[2].key,
            holder_account: accounts[4].key,
        },
        Action::MintUnits {
            mint: accounts[2].key,
            holder_account: accounts[4].key,
            authority,
            amount: 1,
            signer,
        },
        Action::RegisterMetadata {
            metadata: accounts[8].key,
            mint: accounts[2].key,
            authority,
            payer: accounts[0].key,
            text: MetadataText::Collection,
            creator_verified: true,
            creator_share: 100,
            royalty_basis_points: 300,
            update_authority_is_signer: true,
            is_mutable: true,
            signer,
        },
        Action::CreateMasterEdition {
            edition: accounts[10].key,
            mint: accounts[2].key,
            authority,
            metadata: accounts[8].key,
            payer: accounts[0].key,
            max_supply: None,
            signer,
        },
    ];
    assert_eq!(plan, expected);
}

#[test]
fn the_collection_is_not_minted_over_a_ledger_that_exists() {
    let mut accounts = mint_collection_accounts();
    accounts[9].data = ledger_cell(Ledger::initialize());
    assert_eq!(
        mint_collection(&address(&program()), &accounts),
        Err(ProcessError::AccountAlreadyInitialized)
    );
    accounts[9].data = vec![0];
    assert_eq!(
        mint_collection(&address(&program()), &accounts),
        Err(ProcessError::AccountAlreadyInitialized)
    );
}

#[test]
fn the_collection_refuses_every_misplaced_account() {
    let cases = [
        (9usize, Role::Ledger),
        (2, Role::CollectionMint),
        (3, Role::MintAuthority),
        (1, Role::CollectionHolder),
        (4, Role::AssociatedTokenAccount),
        (7, Role::SystemProgram),
        (5, Role::TokenProgram),
        (8, Role::Metadata),
        (10, Role::Edition),
    ];
    for (at, role) in cases {
        let mut accounts = mint_collection_accounts();
        accounts[at].key = other();
        assert_eq!(
            mint_collection(&address(&program()), &accounts),
            Err(ProcessError::KeyPairMismatch(role))
        );
    }
}

#[test]
fn the_collection_needs_all_its_accounts() {
    let mut accounts = mint_collection_accounts();
    accounts.truncate(10);
    assert_eq!(
        mint_collection(&address(&program()), &accounts),
        Err(ProcessError::NotEnoughAccountKeys)
    );
}

#[test]
fn a_mint_after_the_collection_reads_the_ledger_that_it_started() {
    let accounts = mint_collection_accounts();
    let plan = mint_collection(&address(&program()), &accounts).unwrap();
    let cell = ingl_gems::bytes::overwrite(&[0u8; 50], &stored_ledger(&plan).pack());
    let accounts = mint_nft_accounts(cell);
    let plan = mint_nft(&address(&program()), &accounts, Class::Diamond, 9).unwrap();
    assert_eq!(stored_number(&plan), 1);
    assert_eq!(
        stored_ledger(&plan),
        Ledger { issued_count: 1, total_value_collected: 100_000_000 }
    );
}

#[test]
fn a_refused_call_changes_no_cell() {
    for at in [2usize, 3, 8, 9, 10, 12, 13, 14] {
        let mut accounts = mint_nft_accounts(ledger_cell(Ledger { issued_count: 3, total_value_collected: 9 }));
        accounts[at].key = other();
        let before = accounts.clone();
        let outcome = mint_nft(&address(&program()), &accounts, Class::Ruby, 9);
        assert!(matches!(outcome, Err(ProcessError::KeyPairMismatch(_))));
        assert_eq!(accounts, before);
    }
}

#[test]
fn mint_needs_the_fee_in_the_payer_s_account() {
    let mut accounts = mint_nft_accounts(ledger_cell(Ledger::initialize()));
    accounts[0].lamports = 999_999;
    assert_eq!(
        mint_nft(&address(&program()), &accounts, Class::Benitoite, 9),
        Err(ProcessError::InsufficientFunds)
    );
    accounts[0].lamports = 1_000_000;
    assert!(mint_nft(&address(&program()), &accounts, Class::Benitoite, 9).is_ok());
    assert_eq!(
        mint_nft(&address(&program()), &accounts, Class::Serendibite, 9),
        Err(ProcessError::InsufficientFunds)
    );
    accounts[0].lamports = 0;
    assert_eq!(
        mint_nft(&address(&program()), &accounts, Class::Ruby, 9),
        Err(ProcessError::InsufficientFunds)
    );
}

#[test]
fn a_gem_is_minted_once_for_its_mint() {
    let mut accounts = mint_nft_accounts(ledger_cell(Ledger::initialize()));
    accounts[10].data = AssetRecord::minted(5, 1).pack();
    assert_eq!(
        mint_nft(&address(&program()), &accounts, Class::Ruby, 9),
        Err(ProcessError::AccountAlreadyInitialized)
    );
    accounts[10].data = vec![];
    accounts[10].lamports = 1;
    assert_eq!(
        mint_nft(&address(&program()), &accounts, Class::Ruby, 9),
        Err(ProcessError::AccountAlreadyInitialized)
    );
}

#[test]
fn the_collection_is_not_minted_over_a_cell_that_holds_value() {
    let mut accounts = mint_collection_accounts();
    accounts[9].lamports = 1;
    assert_eq!(
        mint_collection(&address(&program()), &accounts),
        Err(ProcessError::AccountAlreadyInitialized)
    );
}

#[test]
fn an_account_is_occupied_by_value_or_by_data() {
    let mut account = account(&payer(), vec![]);
    assert!(!account.is_occupied());
    account.lamports = 1;
    assert!(account.is_occupied());
    account.lamports = 0;
    account.data = vec![0];
    assert!(account.is_occupied());
}
