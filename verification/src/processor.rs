use vstd::prelude::*;
use crate::account::{account_views, cell_exists, Account, AccountView};
use crate::action::{Action, MetadataText, Signer};
use crate::address::{
    bump_of, derives_to, is_associated_token_address, metadata_program_id, system_program_id,
    token_program_id, verify_associated_token_address, Address,
};
use crate::constants::{
    COLLECTION_HOLDER_SEED, COLLECTION_SEED, CREATOR_SHARE, GEM_ACCOUNT_SPACE, LEDGER_SEED,
    LEDGER_SPACE, MINTING_POOL_SEED, MINT_AUTHORITY_SEED, MINT_SPACE, ROYALTY_BASIS_POINTS,
};
use crate::error::{ProcessError, Role};
use crate::roles::{
    collection_holder_seeds, collection_mint_seeds, edition_seeds, gem_account_seeds,
    ledger_seeds, metadata_seeds, mint_authority_seeds, minting_pool_seeds, verify_constant_role,
    verify_edition, verify_gem_account, verify_metadata,
};
use crate::constants::{BNB_FEED, BTC_FEED, ETH_FEED, SOL_FEED};
use crate::oracle::{feed_sample, history_framed, no_sample_at_or_before, read_feed};
use crate::rarity::{derive_rarity, rarity_of, PriceSample};
use crate::state::{
    class_of_tag, issuance, ledger_from_bytes, locked, minted_record, record_from_bytes, tariff,
    AssetRecord, Class, Ledger,
};
use crate::bytes::u64_at;
use crate::token::{
    holds_single_unit, single_unit, token_balance, TOKEN_ACCOUNT_LEN, TOKEN_BALANCE_AT,
};

verus! {

/// How many accounts minting a gem takes: the payer, the gem's mint, the mint
/// authority, the payer's token account, the token program, the rent cell,
/// the system program, the gem's metadata, the fee pool, the ledger, the
/// gem's record, the clock cell, the collection's edition, the collection's
/// mint and the collection's metadata, in this order.
pub const MINT_NFT_ACCOUNTS: usize = 15;

/// The first account of a gem's minting that is not where its role requires
/// it, if there is one.
pub open spec fn mint_nft_mismatch(program: Address, accounts: Seq<AccountView>) -> Option<Role> {
    let payer = accounts[0].key@;
    let mint = accounts[1].key@;
    let collection = accounts[13].key@;
    if !derives_to(gem_account_seeds(mint), program@, accounts[10].key@) {
        Some(Role::GemAccount)
    } else if !derives_to(ledger_seeds(), program@, accounts[9].key@) {
        Some(Role::Ledger)
    } else if !derives_to(minting_pool_seeds(), program@, accounts[8].key@) {
        Some(Role::MintingPool)
    } else if !derives_to(mint_authority_seeds(), program@, accounts[2].key@) {
        Some(Role::MintAuthority)
    } else if !is_associated_token_address(payer, mint, accounts[3].key@) {
        Some(Role::AssociatedTokenAccount)
    } else if accounts[6].key@ != system_program_id() {
        Some(Role::SystemProgram)
    } else if accounts[4].key@ != token_program_id() {
        Some(Role::TokenProgram)
    } else if !derives_to(metadata_seeds(mint), metadata_program_id(), accounts[7].key@) {
        Some(Role::Metadata)
    } else if !derives_to(collection_mint_seeds(), program@, collection) {
        Some(Role::CollectionMint)
    } else if !derives_to(metadata_seeds(collection), metadata_program_id(), accounts[14].key@) {
        Some(Role::CollectionMetadata)
    } else if !derives_to(edition_seeds(collection), metadata_program_id(), accounts[12].key@) {
        Some(Role::Edition)
    } else {
        None
    }
}

/// What the host does for a gem that is minted under the sequence number
/// `number`, with `ledger` as the ledger after it: it creates the record
/// cell, writes the ledger, moves the fee into the pool, creates the mint and
/// the payer's token account, mints the single unit, registers the
/// metadata, gives up the authority to mint, marks the primary sale and
/// writes the record.
pub open spec fn mint_nft_actions(
    program: Address,
    accounts: Seq<AccountView>,
    class: Class,
    now: u32,
    ledger: Ledger,
    number: u32,
) -> Seq<Action> {
    let payer = accounts[0].key;
    let mint = accounts[1].key;
    let authority = accounts[2].key;
    let holder_account = accounts[3].key;
    let metadata = accounts[7].key;
    let gem = accounts[10].key;
    let signer = Signer::MintAuthority { bump: bump_of(mint_authority_seeds(), program@) };
    seq![
        Action::CreateCell {
            payer,
            cell: gem,
            space: GEM_ACCOUNT_SPACE,
            owner: program,
            signer: Signer::GemAccount { mint, bump: bump_of(gem_account_seeds(mint@), program@) },
        },
        Action::StoreLedger { cell: accounts[9].key, ledger },
        Action::Transfer { from: payer, to: accounts[8].key, amount: tariff(class) },
        Action::CreateCell {
            payer,
            cell: mint,
            space: MINT_SPACE,
            owner: accounts[4].key,
            signer: Signer::Caller,
        },
        Action::InitializeMint { mint, authority, freeze_authority: authority, decimals: 0 },
        Action::CreateHolderAccount { payer, wallet: payer, mint, holder_account },
        Action::MintUnits { mint, holder_account, authority, amount: 1, signer },
        Action::RegisterMetadata {
            metadata,
            mint,
            authority,
            payer,
            text: MetadataText::Gem { number, class },
            creator_verified: true,
            creator_share: CREATOR_SHARE,
            royalty_basis_points: ROYALTY_BASIS_POINTS,
            update_authority_is_signer: true,
            is_mutable: true,
            signer,
        },
        Action::RevokeMintAuthority { mint, authority, signer },
        Action::MarkPrimarySale { metadata, owner: payer, holder_account },
        Action::StoreRecord { cell: gem, record: minted_record(now, number) },
    ]
}

/// What minting a gem of tier `class` at `now` comes to: the actions of the
/// host, or why the call is refused. Every address is checked before
/// anything else; then the gem's record cell must not exist yet, the ledger
/// is read and the gem is counted, and the payer must hold the fee.
pub open spec fn mint_nft_plan(program: Address, accounts: Seq<AccountView>, class: Class, now: u32) -> Result<
    Seq<Action>,
    ProcessError,
> {
    if accounts.len() < MINT_NFT_ACCOUNTS {
        Err(ProcessError::NotEnoughAccountKeys)
    } else {
        match mint_nft_mismatch(program, accounts) {
            Some(role) => Err(ProcessError::KeyPairMismatch(role)),
            None => if cell_exists(accounts[10]) {
                Err(ProcessError::AccountAlreadyInitialized)
            } else {
                match ledger_from_bytes(accounts[9].data) {
                    None => Err(ProcessError::InvalidAccountData),
                    Some(ledger) => match issuance(ledger, tariff(class)) {
                        None => Err(ProcessError::ArithmeticOverflow),
                        Some((next, number)) => if accounts[0].lamports < tariff(class) {
                            Err(ProcessError::InsufficientFunds)
                        } else {
                            Ok(mint_nft_actions(program, accounts, class, now, next, number))
                        },
                    },
                }
            },
        }
    }
}

/// Whether a call's outcome is the one that a plan describes.
pub open spec fn follows(outcome: Result<Vec<Action>, ProcessError>, plan: Result<Seq<Action>, ProcessError>) -> bool {
    match outcome {
        Ok(actions) => plan == Ok::<Seq<Action>, ProcessError>(actions@),
        Err(e) => plan == Err::<Seq<Action>, ProcessError>(e),
    }
}

/// Mints a gem of tier `class` at the time `now`, for the payer.
///
/// The call is refused, before any action is planned, where fewer accounts
/// are supplied than it takes, where an account is not at the address that
/// its role requires, where the gem's record cell exists already, where the
/// ledger cell holds no ledger, where the ledger's counters would overflow,
/// or where the payer holds less than the tier's fee. Otherwise the gem gets
/// the ledger's next sequence number, the tier's fee is charged, and the
/// actions come back in the order in which the host carries them out.
pub fn mint_nft(program_id: &Address, accounts: &[Account], class: Class, now: u32) -> (r: Result<
    Vec<Action>,
    ProcessError,
>)
    ensures
        follows(r, mint_nft_plan(*program_id, account_views(accounts@), class, now)),
{
    if accounts.len() < MINT_NFT_ACCOUNTS {
        return Err(ProcessError::NotEnoughAccountKeys);
    }
    let payer = accounts[0].key;
    let mint = accounts[1].key;
    let authority = accounts[2].key;
    let holder_account = accounts[3].key;
    let metadata = accounts[7].key;
    let gem = accounts[10].key;
    let collection = accounts[13].key;

    let gem_bump = match verify_gem_account(program_id, &mint, &gem) {
        Some(bump) => bump,
        None => {
            return Err(ProcessError::KeyPairMismatch(Role::GemAccount));
        },
    };
    if verify_constant_role(&LEDGER_SEED, program_id, &accounts[9].key).is_none() {
        return Err(ProcessError::KeyPairMismatch(Role::Ledger));
    }
    if verify_constant_role(&MINTING_POOL_SEED, program_id, &accounts[8].key).is_none() {
        return Err(ProcessError::KeyPairMismatch(Role::MintingPool));
    }
    let authority_bump = match verify_constant_role(&MINT_AUTHORITY_SEED, program_id, &authority) {
        Some(bump) => bump,
        None => {
            return Err(ProcessError::KeyPairMismatch(Role::MintAuthority));
        },
    };
    if !verify_associated_token_address(&payer, &mint, &holder_account) {
        return Err(ProcessError::KeyPairMismatch(Role::AssociatedTokenAccount));
    }
    if !accounts[6].key.same_as(&crate::address::system_program_address()) {
        return Err(ProcessError::KeyPairMismatch(Role::SystemProgram));
    }
    if !accounts[4].key.same_as(&crate::address::token_program_address()) {
        return Err(ProcessError::KeyPairMismatch(Role::TokenProgram));
    }
    if !verify_metadata(&mint, &metadata) {
        return Err(ProcessError::KeyPairMismatch(Role::Metadata));
    }
    if verify_constant_role(&COLLECTION_SEED, program_id, &collection).is_none() {
        return Err(ProcessError::KeyPairMismatch(Role::CollectionMint));
    }
    if !verify_metadata(&collection, &accounts[14].key) {
        return Err(ProcessError::KeyPairMismatch(Role::CollectionMetadata));
    }
    if !verify_edition(&collection, &accounts[12].key) {
        return Err(ProcessError::KeyPairMismatch(Role::Edition));
    }
    assert(mint_nft_mismatch(*program_id, account_views(accounts@)) is None);
    if accounts[10].is_occupied() {
        return Err(ProcessError::AccountAlreadyInitialized);
    }

    let mut ledger = match Ledger::unpack(accounts[9].data.as_slice()) {
        Some(ledger) => ledger,
        None => {
            return Err(ProcessError::InvalidAccountData);
        },
    };
    let fee = class.get_class_lamports();
    let number = match ledger.record_issuance(fee) {
        Ok(number) => number,
        Err(e) => {
            return Err(e);
        },
    };
    if accounts[0].lamports < fee {
        return Err(ProcessError::InsufficientFunds);
    }

    let signer = Signer::MintAuthority { bump: authority_bump };
    let mut actions: Vec<Action> = Vec::new();
    actions.push(
        Action::CreateCell {
            payer,
            cell: gem,
            space: GEM_ACCOUNT_SPACE,
            owner: *program_id,
            signer: Signer::GemAccount { mint, bump: gem_bump },
        },
    );
    actions.push(Action::StoreLedger { cell: accounts[9].key, ledger });
    actions.push(Action::Transfer { from: payer, to: accounts[8].key, amount: fee });
    actions.push(
        Action::CreateCell {
            payer,
            cell: mint,
            space: MINT_SPACE,
            owner: accounts[4].key,
            signer: Signer::Caller,
        },
    );
    actions.push(Action::InitializeMint { mint, authority, freeze_authority: authority, decimals: 0 });
    actions.push(Action::CreateHolderAccount { payer, wallet: payer, mint, holder_account });
    actions.push(Action::MintUnits { mint, holder_account, authority, amount: 1, signer });
    actions.push(
        Action::RegisterMetadata {
            metadata,
            mint,
            authority,
            payer,
            text: MetadataText::Gem { number, class },
            creator_verified: true,
            creator_share: CREATOR_SHARE,
            royalty_basis_points: ROYALTY_BASIS_POINTS,
            update_authority_is_signer: true,
            is_mutable: true,
            signer,
        },
    );
    actions.push(Action::RevokeMintAuthority { mint, authority, signer });
    actions.push(Action::MarkPrimarySale { metadata, owner: payer, holder_account });
    actions.push(Action::StoreRecord { cell: gem, record: AssetRecord::minted(now, number) });
    assert(actions@ =~= mint_nft_actions(*program_id, account_views(accounts@), class, now, ledger, number));
    Ok(actions)
}

/// How many accounts minting the collection takes: the payer, the holder of
/// the collection, the collection's mint, the mint authority, the holder's
/// token account, the token program, the rent cell, the system program, the
/// collection's metadata, the ledger and the collection's edition, in this
/// order.
pub const MINT_COLLECTION_ACCOUNTS: usize = 11;

/// The first account of the collection's minting that is not where its role
/// requires it, if there is one.
pub open spec fn mint_collection_mismatch(program: Address, accounts: Seq<AccountView>) -> Option<Role> {
    let holder = accounts[1].key@;
    let mint = accounts[2].key@;
    if !derives_to(ledger_seeds(), program@, accounts[9].key@) {
        Some(Role::Ledger)
    } else if !derives_to(collection_mint_seeds(), program@, mint) {
        Some(Role::CollectionMint)
    } else if !derives_to(mint_authority_seeds(), program@, accounts[3].key@) {
        Some(Role::MintAuthority)
    } else if !derives_to(collection_holder_seeds(), program@, holder) {
        Some(Role::CollectionHolder)
    } else if !is_associated_token_address(holder, mint, accounts[4].key@) {
        Some(Role::AssociatedTokenAccount)
    } else if accounts[7].key@ != system_program_id() {
        Some(Role::SystemProgram)
    } else if accounts[5].key@ != token_program_id() {
        Some(Role::TokenProgram)
    } else if !derives_to(metadata_seeds(mint), metadata_program_id(), accounts[8].key@) {
        Some(Role::Metadata)
    } else if !derives_to(edition_seeds(mint), metadata_program_id(), accounts[10].key@) {
        Some(Role::Edition)
    } else {
        None
    }
}

/// What the host does to mint the collection: it creates the ledger cell and
/// writes the empty ledger, creates the collection's mint and the holder's
/// token account, mints the single unit, registers the metadata and marks
/// the mint as a master edition.
pub open spec fn mint_collection_actions(program: Address, accounts: Seq<AccountView>) -> Seq<Action> {
    let payer = accounts[0].key;
    let mint = accounts[2].key;
    let authority = accounts[3].key;
    let holder_account = accounts[4].key;
    let metadata = accounts[8].key;
    let ledger = accounts[9].key;
    let signer = Signer::MintAuthority { bump: bump_of(mint_authority_seeds(), program@) };
    seq![
        Action::CreateCell {
            payer,
            cell: ledger,
            space: LEDGER_SPACE,
            owner: program,
            signer: Signer::Ledger { bump: bump_of(ledger_seeds(), program@) },
        },
        Action::StoreLedger {
            cell: ledger,
            ledger: Ledger { issued_count: 0, total_value_collected: 0 },
        },
        Action::CreateCell {
            payer,
            cell: mint,
            space: MINT_SPACE,
            owner: accounts[5].key,
            signer: Signer::CollectionMint { bump: bump_of(collection_mint_seeds(), program@) },
        },
        Action::InitializeMint { mint, authority, freeze_authority: authority, decimals: 0 },
        Action::CreateHolderAccount { payer, wallet: accounts[1].key, mint, holder_account },
        Action::MintUnits { mint, holder_account, authority, amount: 1, signer },
        Action::RegisterMetadata {
            metadata,
            mint,
            authority,
            payer,
            text: MetadataText::Collection,
            creator_verified: true,
            creator_share: CREATOR_SHARE,
            royalty_basis_points: ROYALTY_BASIS_POINTS,
            update_authority_is_signer: true,
            is_mutable: true,
            signer,
        },
        Action::CreateMasterEdition {
            edition: accounts[10].key,
            mint,
            authority,
            metadata,
            payer,
            max_supply: None,
            signer,
        },
    ]
}

/// What minting the collection comes to: the actions of the host, or why the
/// call is refused.
pub open spec fn mint_collection_plan(program: Address, accounts: Seq<AccountView>) -> Result<
    Seq<Action>,
    ProcessError,
> {
    if accounts.len() < MINT_COLLECTION_ACCOUNTS {
        Err(ProcessError::NotEnoughAccountKeys)
    } else {
        match mint_collection_mismatch(program, accounts) {
            Some(role) => Err(ProcessError::KeyPairMismatch(role)),
            None => if cell_exists(accounts[9]) {
                Err(ProcessError::AccountAlreadyInitialized)
            } else {
                Ok(mint_collection_actions(program, accounts))
            },
        }
    }
}

/// Mints the collection and starts the ledger, once and for all.
///
/// The call is refused, before any action is planned, where fewer accounts
/// are supplied than it takes, where an account is not at the address that
/// its role requires, or where the ledger cell exists already. Otherwise
/// the actions come back in the order in which the host carries them out.
pub fn mint_collection(program_id: &Address, accounts: &[Account]) -> (r: Result<
    Vec<Action>,
    ProcessError,
>)
    ensures
        follows(r, mint_collection_plan(*program_id, account_views(accounts@))),
{
    if accounts.len() < MINT_COLLECTION_ACCOUNTS {
        return Err(ProcessError::NotEnoughAccountKeys);
    }
    let payer = accounts[0].key;
    let holder = accounts[1].key;
    let mint = accounts[2].key;
    let authority = accounts[3].key;
    let holder_account = accounts[4].key;
    let metadata = accounts[8].key;
    let ledger = accounts[9].key;

    let ledger_bump = match verify_constant_role(&LEDGER_SEED, program_id, &ledger) {
        Some(bump) => bump,
        None => {
            return Err(ProcessError::KeyPairMismatch(Role::Ledger));
        },
    };
    let mint_bump = match verify_constant_role(&COLLECTION_SEED, program_id, &mint) {
        Some(bump) => bump,
        None => {
            return Err(ProcessError::KeyPairMismatch(Role::CollectionMint));
        },
    };
    let authority_bump = match verify_constant_role(&MINT_AUTHORITY_SEED, program_id, &authority) {
        Some(bump) => bump,
        None => {
            return Err(ProcessError::KeyPairMismatch(Role::MintAuthority));
        },
    };
    if verify_constant_role(&COLLECTION_HOLDER_SEED, program_id, &holder).is_none() {
        return Err(ProcessError::KeyPairMismatch(Role::CollectionHolder));
    }
    if !verify_associated_token_address(&holder, &mint, &holder_account) {
        return Err(ProcessError::KeyPairMismatch(Role::AssociatedTokenAccount));
    }
    if !accounts[7].key.same_as(&crate::address::system_program_address()) {
        return Err(ProcessError::KeyPairMismatch(Role::SystemProgram));
    }
    if !accounts[5].key.same_as(&crate::address::token_program_address()) {
        return Err(ProcessError::KeyPairMismatch(Role::TokenProgram));
    }
    if !verify_metadata(&mint, &metadata) {
        return Err(ProcessError::KeyPairMismatch(Role::Metadata));
    }
    if !verify_edition(&mint, &accounts[10].key) {
        return Err(ProcessError::KeyPairMismatch(Role::Edition));
    }
    assert(mint_collection_mismatch(*program_id, account_views(accounts@)) is None);
    if accounts[9].is_occupied() {
        return Err(ProcessError::AccountAlreadyInitialized);
    }

    let signer = Signer::MintAuthority { bump: authority_bump };
    let mut actions: Vec<Action> = Vec::new();
    actions.push(
        Action::CreateCell {
            payer,
            cell: ledger,
            space: LEDGER_SPACE,
            owner: *program_id,
            signer: Signer::Ledger { bump: ledger_bump },
        },
    );
    actions.push(Action::StoreLedger { cell: ledger, ledger: Ledger::initialize() });
    actions.push(
        Action::CreateCell {
            payer,
            cell: mint,
            space: MINT_SPACE,
            owner: accounts[5].key,
            signer: Signer::CollectionMint { bump: mint_bump },
        },
    );
    actions.push(Action::InitializeMint { mint, authority, freeze_authority: authority, decimals: 0 });
    actions.push(Action::CreateHolderAccount { payer, wallet: holder, mint, holder_account });
    actions.push(Action::MintUnits { mint, holder_account, authority, amount: 1, signer });
    actions.push(
        Action::RegisterMetadata {
            metadata,
            mint,
            authority,
            payer,
            text: MetadataText::Collection,
            creator_verified: true,
            creator_share: CREATOR_SHARE,
            royalty_basis_points: ROYALTY_BASIS_POINTS,
            update_authority_is_signer: true,
            is_mutable: true,
            signer,
        },
    );
    actions.push(
        Action::CreateMasterEdition {
            edition: accounts[10].key,
            mint,
            authority,
            metadata,
            payer,
            max_supply: None,
            signer,
        },
    );
    assert(actions@ =~= mint_collection_actions(*program_id, account_views(accounts@)));
    Ok(actions)
}

/// How many accounts a lock takes: the holder, the gem's record, the gem's
/// mint, the holder's token account and the freeze authority, in this order.
/// A reveal takes the same five, then the four feeds.
pub const HOLDER_ACCOUNTS: usize = 5;

/// How many accounts a reveal takes: those of a lock, then the feeds of BTC,
/// of the chain's own asset, of ETH and of BNB, in this order.
pub const REVEAL_ACCOUNTS: usize = 9;

/// What the check of a gem's holder comes to, for a lock as for a reveal:
/// the disambiguator of the freeze authority, or why the call is refused.
/// The record, the token account and the authority have to be where the
/// program, the holder and the mint put them; the holder has to have signed;
/// the token account has to hold exactly one unit.
pub open spec fn holder_check(program: Address, accounts: Seq<AccountView>) -> Result<u8, ProcessError> {
    let holder = accounts[0];
    let mint = accounts[2].key@;
    if !derives_to(gem_account_seeds(mint), program@, accounts[1].key@) {
        Err(ProcessError::KeyPairMismatch(Role::GemAccount))
    } else if !is_associated_token_address(holder.key@, mint, accounts[3].key@) {
        Err(ProcessError::KeyPairMismatch(Role::AssociatedTokenAccount))
    } else if !derives_to(mint_authority_seeds(), program@, accounts[4].key@) {
        Err(ProcessError::KeyPairMismatch(Role::FreezeAuthority))
    } else if !holder.is_signer {
        Err(ProcessError::MissingRequiredSignature)
    } else {
        match single_unit(token_balance(accounts[3].data)) {
            Err(e) => Err(e),
            Ok(_) => Ok(bump_of(mint_authority_seeds(), program@)),
        }
    }
}

/// Whether the holder's token account, as its bytes read, holds exactly one
/// unit.
pub open spec fn holds_one_unit(accounts: Seq<AccountView>) -> bool {
    accounts[3].data.len() == TOKEN_ACCOUNT_LEN && u64_at(
        accounts[3].data,
        TOKEN_BALANCE_AT as int,
    ) == 1
}

/// Checks that the caller of a lock or a reveal is the gem's holder, and
/// that every account is the one that its role requires.
pub fn check_holder(program_id: &Address, accounts: &[Account]) -> (r: Result<u8, ProcessError>)
    requires
        accounts@.len() >= HOLDER_ACCOUNTS,
    ensures
        r == holder_check(*program_id, account_views(accounts@)),
        r is Ok ==> accounts@[0].is_signer && holds_one_unit(account_views(accounts@)),
{
    let mint = accounts[2].key;
    if verify_gem_account(program_id, &mint, &accounts[1].key).is_none() {
        return Err(ProcessError::KeyPairMismatch(Role::GemAccount));
    }
    if !verify_associated_token_address(&accounts[0].key, &mint, &accounts[3].key) {
        return Err(ProcessError::KeyPairMismatch(Role::AssociatedTokenAccount));
    }
    let bump = match verify_constant_role(&MINT_AUTHORITY_SEED, program_id, &accounts[4].key) {
        Some(bump) => bump,
        None => {
            return Err(ProcessError::KeyPairMismatch(Role::FreezeAuthority));
        },
    };
    if !accounts[0].is_signer {
        return Err(ProcessError::MissingRequiredSignature);
    }
    match holds_single_unit(accounts[3].data.as_slice()) {
        Err(e) => Err(e),
        Ok(_) => Ok(bump),
    }
}

/// What the host does for a lock: it writes the record with its reveal time,
/// then freezes the holder's token account in the name of the freeze
/// authority.
pub open spec fn init_rarity_imprint_actions(accounts: Seq<AccountView>, bump: u8, next: AssetRecord) -> Seq<
    Action,
> {
    seq![
        Action::StoreRecord { cell: accounts[1].key, record: next },
        Action::FreezeHolderAccount {
            holder_account: accounts[3].key,
            mint: accounts[2].key,
            authority: accounts[4].key,
            signer: Signer::MintAuthority { bump },
        },
    ]
}

/// What a lock at `now` comes to: the actions of the host, or why the call
/// is refused.
pub open spec fn init_rarity_imprint_plan(program: Address, accounts: Seq<AccountView>, now: u32) -> Result<
    Seq<Action>,
    ProcessError,
> {
    if accounts.len() < HOLDER_ACCOUNTS {
        Err(ProcessError::NotEnoughAccountKeys)
    } else {
        match holder_check(program, accounts) {
            Err(e) => Err(e),
            Ok(bump) => match record_from_bytes(accounts[1].data) {
                None => Err(ProcessError::InvalidAccountData),
                Some(record) => match locked(record, now) {
                    Err(e) => Err(e),
                    Ok(next) => Ok(init_rarity_imprint_actions(accounts, bump, next)),
                },
            },
        }
    }
}

/// Locks a gem at the time `now`: commits the time whose prices will decide
/// the rarity, and freezes the holder's unit until the reveal.
///
/// The call is refused, before any action is planned, where fewer accounts
/// are supplied than it takes, where an account is not at the address that
/// its role requires, where the holder did not sign or does not hold exactly
/// one unit, where the record cell holds no record, where the rarity is set
/// already, or where the reveal time would not fit its field.
pub fn init_rarity_imprint(program_id: &Address, accounts: &[Account], now: u32) -> (r: Result<
    Vec<Action>,
    ProcessError,
>)
    ensures
        follows(r, init_rarity_imprint_plan(*program_id, account_views(accounts@), now)),
        r is Ok ==> accounts@[0].is_signer && holds_one_unit(account_views(accounts@)),
{
    if accounts.len() < HOLDER_ACCOUNTS {
        return Err(ProcessError::NotEnoughAccountKeys);
    }
    let bump = match check_holder(program_id, accounts) {
        Ok(bump) => bump,
        Err(e) => {
            return Err(e);
        },
    };
    let record = match AssetRecord::unpack(accounts[1].data.as_slice()) {
        Some(record) => record,
        None => {
            return Err(ProcessError::InvalidAccountData);
        },
    };
    let next = match record.lock(now) {
        Ok(next) => next,
        Err(e) => {
            return Err(e);
        },
    };
    let mut actions: Vec<Action> = Vec::new();
    actions.push(Action::StoreRecord { cell: accounts[1].key, record: next });
    actions.push(
        Action::FreezeHolderAccount {
            holder_account: accounts[3].key,
            mint: accounts[2].key,
            authority: accounts[4].key,
            signer: Signer::MintAuthority { bump },
        },
    );
    assert(actions@ =~= init_rarity_imprint_actions(account_views(accounts@), bump, next));
    Ok(actions)
}

/// The first feed of a reveal that is not the one feed that the program
/// accepts in its place, if there is one. The feeds are compared with
/// constants: nothing that a caller supplies decides where prices come from.
pub open spec fn feed_mismatch(accounts: Seq<AccountView>) -> Option<Role> {
    if accounts[5].key@ != BTC_FEED@ {
        Some(Role::BtcFeed)
    } else if accounts[6].key@ != SOL_FEED@ {
        Some(Role::SolFeed)
    } else if accounts[7].key@ != ETH_FEED@ {
        Some(Role::EthFeed)
    } else if accounts[8].key@ != BNB_FEED@ {
        Some(Role::BnbFeed)
    } else {
        None
    }
}

/// Compares the four feeds of a reveal with the feeds that the program
/// accepts.
pub fn check_feeds(accounts: &[Account]) -> (r: Option<Role>)
    requires
        accounts@.len() >= REVEAL_ACCOUNTS,
    ensures
        r == feed_mismatch(account_views(accounts@)),
{
    if !accounts[5].key.same_as(&Address::new(BTC_FEED)) {
        Some(Role::BtcFeed)
    } else if !accounts[6].key.same_as(&Address::new(SOL_FEED)) {
        Some(Role::SolFeed)
    } else if !accounts[7].key.same_as(&Address::new(ETH_FEED)) {
        Some(Role::EthFeed)
    } else if !accounts[8].key.same_as(&Address::new(BNB_FEED)) {
        Some(Role::BnbFeed)
    } else {
        None
    }
}

/// Whether the history of one of the four feeds of a reveal has no row that
/// was sampled at or before a time.
pub open spec fn some_feed_lacks_sample(accounts: Seq<AccountView>, time: int) -> bool {
    ||| no_sample_at_or_before(accounts[5].data, time)
    ||| no_sample_at_or_before(accounts[6].data, time)
    ||| no_sample_at_or_before(accounts[7].data, time)
    ||| no_sample_at_or_before(accounts[8].data, time)
}

/// Whether the cells of all four feeds of a reveal hold a history.
pub open spec fn feeds_framed(accounts: Seq<AccountView>) -> bool {
    &&& history_framed(accounts[5].data)
    &&& history_framed(accounts[6].data)
    &&& history_framed(accounts[7].data)
    &&& history_framed(accounts[8].data)
}

/// The samples that the four feeds of a reveal give for a time, in the order
/// BTC, the chain's own asset, ETH, BNB; or the failure of the first feed
/// that gives none.
pub open spec fn feed_samples(accounts: Seq<AccountView>, time: u32) -> Result<
    (PriceSample, PriceSample, PriceSample, PriceSample),
    ProcessError,
> {
    match feed_sample(accounts[5].data, time, Role::BtcFeed) {
        Err(e) => Err(e),
        Ok(btc) => match feed_sample(accounts[6].data, time, Role::SolFeed) {
            Err(e) => Err(e),
            Ok(sol) => match feed_sample(accounts[7].data, time, Role::EthFeed) {
                Err(e) => Err(e),
                Ok(eth) => match feed_sample(accounts[8].data, time, Role::BnbFeed) {
                    Err(e) => Err(e),
                    Ok(bnb) => Ok((btc, sol, eth, bnb)),
                },
            },
        },
    }
}

/// Reads the four feeds of a reveal for a time. Every sample that comes back
/// is a row of its feed's history, taken at or before the time; where a
/// history has no such row the reading fails for the missing sample.
pub fn read_feeds(accounts: &[Account], time: u32) -> (r: Result<
    (PriceSample, PriceSample, PriceSample, PriceSample),
    ProcessError,
>)
    requires
        accounts@.len() >= REVEAL_ACCOUNTS,
    ensures
        r == feed_samples(account_views(accounts@), time),
        r is Ok ==> !some_feed_lacks_sample(account_views(accounts@), time as int),
        feeds_framed(account_views(accounts@)) && some_feed_lacks_sample(account_views(accounts@), time as int) ==> r matches Err(
            ProcessError::MissingSample(_),
        ),
{
    let btc = match read_feed(accounts[5].data.as_slice(), time, Role::BtcFeed) {
        Ok(sample) => sample,
        Err(e) => {
            return Err(e);
        },
    };
    let sol = match read_feed(accounts[6].data.as_slice(), time, Role::SolFeed) {
        Ok(sample) => sample,
        Err(e) => {
            return Err(e);
        },
    };
    let eth = match read_feed(accounts[7].data.as_slice(), time, Role::EthFeed) {
        Ok(sample) => sample,
        Err(e) => {
            return Err(e);
        },
    };
    let bnb = match read_feed(accounts[8].data.as_slice(), time, Role::BnbFeed) {
        Ok(sample) => sample,
        Err(e) => {
            return Err(e);
        },
    };
    Ok((btc, sol, eth, bnb))
}

/// What the host does for a reveal: it thaws the holder's token account in
/// the name of the freeze authority, then writes the record with its rarity.
pub open spec fn imprint_rarity_actions(accounts: Seq<AccountView>, bump: u8, next: AssetRecord) -> Seq<
    Action,
> {
    seq![
        Action::ThawHolderAccount {
            holder_account: accounts[3].key,
            mint: accounts[2].key,
            authority: accounts[4].key,
            signer: Signer::MintAuthority { bump },
        },
        Action::StoreRecord { cell: accounts[1].key, record: next },
    ]
}

/// What a reveal comes to: the actions of the host, or why the call is
/// refused. The record gets the rarity that the prices at its reveal time
/// decide.
pub open spec fn imprint_rarity_plan(program: Address, accounts: Seq<AccountView>) -> Result<
    Seq<Action>,
    ProcessError,
> {
    if accounts.len() < REVEAL_ACCOUNTS {
        Err(ProcessError::NotEnoughAccountKeys)
    } else {
        match holder_check(program, accounts) {
            Err(e) => Err(e),
            Ok(bump) => match feed_mismatch(accounts) {
                Some(role) => Err(ProcessError::KeyPairMismatch(role)),
                None => match record_from_bytes(accounts[1].data) {
                    None => Err(ProcessError::InvalidAccountData),
                    Some(record) => if record.rarity is Some {
                        Err(ProcessError::AlreadyRevealed)
                    } else {
                        match record.reveal_commit_time {
                            None => Err(ProcessError::NotLocked),
                            Some(time) => match feed_samples(accounts, time) {
                                Err(e) => Err(e),
                                Ok((btc, sol, eth, bnb)) => Ok(
                                    imprint_rarity_actions(
                                        accounts,
                                        bump,
                                        AssetRecord {
                                            rarity: Some(rarity_of(btc, sol, eth, bnb) as u16),
                                            ..record
                                        },
                                    ),
                                ),
                            },
                        }
                    },
                },
            },
        }
    }
}

/// Whether a reveal gets as far as reading the feeds: the holder, the feeds
/// and the record are in order, and the gem is locked and not yet revealed.
pub open spec fn reveal_reads_feeds(program: Address, accounts: Seq<AccountView>) -> bool {
    &&& accounts.len() >= REVEAL_ACCOUNTS
    &&& holder_check(program, accounts) is Ok
    &&& feed_mismatch(accounts) is None
    &&& record_from_bytes(accounts[1].data) is Some
    &&& record_from_bytes(accounts[1].data)->Some_0.rarity is None
    &&& record_from_bytes(accounts[1].data)->Some_0.reveal_commit_time is Some
}

/// The reveal time that the record of a reveal's gem commits to.
pub open spec fn committed_time(accounts: Seq<AccountView>) -> int {
    record_from_bytes(accounts[1].data)->Some_0.reveal_commit_time->Some_0 as int
}

/// Reveals the rarity of a locked gem: thaws the holder's unit and sets the
/// rarity that the prices of the four feeds at the committed time decide.
///
/// The call is refused, before any action is planned, where fewer accounts
/// are supplied than it takes, where an account or a feed is not the one
/// that its role requires, where the holder did not sign or does not hold
/// exactly one unit, where the record cell holds no record, where the gem
/// was never locked or its rarity is set already, where a feed's cell holds
/// no history, or where a feed has no sample at or before the committed
/// time. No clock is read: a reveal that comes too early finds no sample.
pub fn imprint_rarity(program_id: &Address, accounts: &[Account]) -> (r: Result<
    Vec<Action>,
    ProcessError,
>)
    ensures
        follows(r, imprint_rarity_plan(*program_id, account_views(accounts@))),
        r is Ok ==> accounts@[0].is_signer && holds_one_unit(account_views(accounts@)),
        r is Ok ==> !some_feed_lacks_sample(account_views(accounts@), committed_time(account_views(accounts@))),
        reveal_reads_feeds(*program_id, account_views(accounts@)) && feeds_framed(account_views(accounts@))
            && some_feed_lacks_sample(account_views(accounts@), committed_time(account_views(accounts@))) ==> r matches Err(
            ProcessError::MissingSample(_),
        ),
{
    if accounts.len() < REVEAL_ACCOUNTS {
        return Err(ProcessError::NotEnoughAccountKeys);
    }
    let bump = match check_holder(program_id, accounts) {
        Ok(bump) => bump,
        Err(e) => {
            return Err(e);
        },
    };
    match check_feeds(accounts) {
        Some(role) => {
            return Err(ProcessError::KeyPairMismatch(role));
        },
        None => {},
    }
    let record = match AssetRecord::unpack(accounts[1].data.as_slice()) {
        Some(record) => record,
        None => {
            return Err(ProcessError::InvalidAccountData);
        },
    };
    if record.rarity.is_some() {
        return Err(ProcessError::AlreadyRevealed);
    }
    let time = match record.reveal_commit_time {
        Some(time) => time,
        None => {
            return Err(ProcessError::NotLocked);
        },
    };
    let (btc, sol, eth, bnb) = match read_feeds(accounts, time) {
        Ok(samples) => samples,
        Err(e) => {
            return Err(e);
        },
    };
    let rarity = derive_rarity(&btc, &sol, &eth, &bnb);
    let next = match record.imprint(rarity) {
        Ok(next) => next,
        Err(e) => {
            return Err(e);
        },
    };
    let mut actions: Vec<Action> = Vec::new();
    actions.push(
        Action::ThawHolderAccount {
            holder_account: accounts[3].key,
            mint: accounts[2].key,
            authority: accounts[4].key,
            signer: Signer::MintAuthority { bump },
        },
    );
    actions.push(Action::StoreRecord { cell: accounts[1].key, record: next });
    assert(actions@ =~= imprint_rarity_actions(account_views(accounts@), bump, next));
    Ok(actions)
}

/// An operation of the program, as its instruction data names it.
#[derive(Clone, Copy, Debug, PartialEq, Eq, Structural)]
pub enum Instruction {
    /// Mint the collection and start the ledger.
    MintNewCollection,
    /// Mint a gem of this tier.
    MintNft(Class),
    /// Lock a gem.
    InitRarityImprint,
    /// Reveal the rarity of a locked gem.
    ImprintRarity,
}

/// The operation that instruction data names: a tag byte, and behind the tag
/// of a gem's minting the tag of its tier. `None` where the data is empty,
/// the tag names no operation, or the tier is missing or names none.
pub open spec fn decoded(data: Seq<u8>) -> Option<Instruction> {
    if data.len() == 0 {
        None
    } else if data[0] == 0 {
        Some(Instruction::MintNewCollection)
    } else if data[0] == 1 {
        if data.len() < 2 {
            None
        } else {
            match class_of_tag(data[1]) {
                Some(class) => Some(Instruction::MintNft(class)),
                None => None,
            }
        }
    } else if data[0] == 2 {
        Some(Instruction::InitRarityImprint)
    } else if data[0] == 3 {
        Some(Instruction::ImprintRarity)
    } else {
        None
    }
}

impl Instruction {
    /// Reads the operation that instruction data names.
    pub fn decode(data: &[u8]) -> (r: Option<Instruction>)
        ensures
            r == decoded(data@),
    {
        if data.len() == 0 {
            None
        } else if data[0] == 0 {
            Some(Instruction::MintNewCollection)
        } else if data[0] == 1 {
            if data.len() < 2 {
                None
            } else {
                match Class::from_tag(data[1]) {
                    Some(class) => Some(Instruction::MintNft(class)),
                    None => None,
                }
            }
        } else if data[0] == 2 {
            Some(Instruction::InitRarityImprint)
        } else if data[0] == 3 {
            Some(Instruction::ImprintRarity)
        } else {
            None
        }
    }
}

/// What a call comes to: the plan of the operation that its instruction data
/// names, or a refusal of data that names none.
pub open spec fn process_instruction_plan(
    program: Address,
    accounts: Seq<AccountView>,
    data: Seq<u8>,
    now: u32,
) -> Result<Seq<Action>, ProcessError> {
    match decoded(data) {
        None => Err(ProcessError::InvalidInstructionData),
        Some(Instruction::MintNewCollection) => mint_collection_plan(program, accounts),
        Some(Instruction::MintNft(class)) => mint_nft_plan(program, accounts, class, now),
        Some(Instruction::InitRarityImprint) => init_rarity_imprint_plan(program, accounts, now),
        Some(Instruction::ImprintRarity) => imprint_rarity_plan(program, accounts),
    }
}

/// The entry point of the program: reads the operation that the instruction
/// data names and hands the call to it, with `now` as the time of the call.
pub fn process_instruction(
    program_id: &Address,
    accounts: &[Account],
    instruction_data: &[u8],
    now: u32,
) -> (r: Result<Vec<Action>, ProcessError>)
    ensures
        follows(r, process_instruction_plan(*program_id, account_views(accounts@), instruction_data@, now)),
{
    match Instruction::decode(instruction_data) {
        None => Err(ProcessError::InvalidInstructionData),
        Some(Instruction::MintNewCollection) => mint_collection(program_id, accounts),
        Some(Instruction::MintNft(class)) => mint_nft(program_id, accounts, class, now),
        Some(Instruction::InitRarityImprint) => init_rarity_imprint(program_id, accounts, now),
        Some(Instruction::ImprintRarity) => imprint_rarity(program_id, accounts),
    }
}

} // verus!
