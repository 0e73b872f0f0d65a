use vstd::prelude::*;
use crate::address::Address;
use crate::constants::{
    bytes_of, COLLECTION_NAME, COLLECTION_SEED, COLLECTION_SYMBOL, COLLECTION_URI,
    GEM_ACCOUNT_SEED, GEM_NAME_PREFIX, GEM_SYMBOL_PREFIX, LEDGER_SEED, MINT_AUTHORITY_SEED,
};
use crate::decimal::{decimal_digits, push_decimal};
use crate::state::{AssetRecord, Class, Ledger};

verus! {

/// The derived address in whose name the program signs an action.
#[derive(Clone, Copy, Debug, PartialEq, Eq)]
pub enum Signer {
    /// The program signs for nothing: the caller's own signatures do.
    Caller,
    /// The ledger cell.
    Ledger { bump: u8 },
    /// The record cell of the gem with this mint.
    GemAccount { mint: Address, bump: u8 },
    /// The mint of the collection.
    CollectionMint { bump: u8 },
    /// The program-controlled signer that owns every mint.
    MintAuthority { bump: u8 },
}

/// The seeds that the program signs with: those of the address, then its
/// disambiguator. Empty where the program does not sign.
pub open spec fn signer_seeds(signer: Signer) -> Seq<Seq<u8>> {
    match signer {
        Signer::Caller => seq![],
        Signer::Ledger { bump } => seq![LEDGER_SEED@, seq![bump]],
        Signer::GemAccount { mint, bump } => seq![GEM_ACCOUNT_SEED@, mint@, seq![bump]],
        Signer::CollectionMint { bump } => seq![COLLECTION_SEED@, seq![bump]],
        Signer::MintAuthority { bump } => seq![MINT_AUTHORITY_SEED@, seq![bump]],
    }
}

impl Signer {
    /// The seeds to sign with.
    pub fn seeds(&self) -> (r: Vec<Vec<u8>>)
        ensures
            crate::address::seed_list(&r) == signer_seeds(*self),
    {
        let mut r: Vec<Vec<u8>> = Vec::new();
        match self {
            Signer::Caller => {},
            Signer::Ledger { bump } => {
                r.push(bytes_of(&LEDGER_SEED));
                r.push(one_byte(*bump));
            },
            Signer::GemAccount { mint, bump } => {
                r.push(bytes_of(&GEM_ACCOUNT_SEED));
                r.push(mint.to_seed());
                r.push(one_byte(*bump));
            },
            Signer::CollectionMint { bump } => {
                r.push(bytes_of(&COLLECTION_SEED));
                r.push(one_byte(*bump));
            },
            Signer::MintAuthority { bump } => {
                r.push(bytes_of(&MINT_AUTHORITY_SEED));
                r.push(one_byte(*bump));
            },
        }
        assert(crate::address::seed_list(&r) =~= signer_seeds(*self));
        r
    }
}

fn one_byte(byte: u8) -> (r: Vec<u8>)
    ensures
        r@ == seq![byte],
{
    let mut r: Vec<u8> = Vec::new();
    r.push(byte);
    r
}

/// Whose name, symbol and description a metadata record carries.
#[derive(Clone, Copy, Debug, PartialEq, Eq)]
pub enum MetadataText {
    /// The collection as a whole.
    Collection,
    /// One gem, with the sequence number that its name embeds and the tier
    /// by which its description is looked up.
    Gem { number: u32, class: Class },
}

/// The name in a metadata record.
pub open spec fn metadata_name(text: MetadataText) -> Seq<u8> {
    match text {
        MetadataText::Collection => COLLECTION_NAME@,
        MetadataText::Gem { number, .. } => GEM_NAME_PREFIX@ + decimal_digits(number as nat),
    }
}

/// The symbol in a metadata record.
pub open spec fn metadata_symbol(text: MetadataText) -> Seq<u8> {
    match text {
        MetadataText::Collection => COLLECTION_SYMBOL@,
        MetadataText::Gem { number, .. } => GEM_SYMBOL_PREFIX@ + decimal_digits(number as nat),
    }
}

impl MetadataText {
    /// The name, in ASCII.
    pub fn name(&self) -> (r: Vec<u8>)
        ensures
            r@ == metadata_name(*self),
    {
        match self {
            MetadataText::Collection => bytes_of(&COLLECTION_NAME),
            MetadataText::Gem { number, .. } => {
                let mut r = bytes_of(&GEM_NAME_PREFIX);
                push_decimal(&mut r, *number as u128);
                r
            },
        }
    }

    /// The symbol, in ASCII.
    pub fn symbol(&self) -> (r: Vec<u8>)
        ensures
            r@ == metadata_symbol(*self),
    {
        match self {
            MetadataText::Collection => bytes_of(&COLLECTION_SYMBOL),
            MetadataText::Gem { number, .. } => {
                let mut r = bytes_of(&GEM_SYMBOL_PREFIX);
                push_decimal(&mut r, *number as u128);
                r
            },
        }
    }

    /// Where the description is stored, in ASCII, for the collection. That of
    /// a gem is looked up by its tier outside this library.
    pub fn uri(&self) -> (r: Option<Vec<u8>>)
        ensures
            match *self {
                MetadataText::Collection => r matches Some(uri) && uri@ == COLLECTION_URI@,
                MetadataText::Gem { .. } => r is None,
            },
    {
        match self {
            MetadataText::Collection => Some(bytes_of(&COLLECTION_URI)),
            MetadataText::Gem { .. } => None,
        }
    }
}

/// One thing that the host has to do for a call that was accepted. The
/// actions of a call are carried out in their order, all or none.
#[derive(Clone, Copy, Debug, PartialEq, Eq)]
pub enum Action {
    /// Allocate a cell of `space` bytes at `cell`, owned by `owner`, paid for
    /// by `payer` with what keeps a cell of that size alive.
    CreateCell { payer: Address, cell: Address, space: u64, owner: Address, signer: Signer },
    /// Write the ledger at the start of its cell.
    StoreLedger { cell: Address, ledger: Ledger },
    /// Write a gem's record at the start of its cell.
    StoreRecord { cell: Address, record: AssetRecord },
    /// Move `amount` units of value.
    Transfer { from: Address, to: Address, amount: u64 },
    /// Make `mint` a mint with `decimals` decimals whose units
    /// `authority` mints and `freeze_authority` freezes and thaws.
    InitializeMint { mint: Address, authority: Address, freeze_authority: Address, decimals: u8 },
    /// Create the token account of `wallet` for `mint`.
    CreateHolderAccount { payer: Address, wallet: Address, mint: Address, holder_account: Address },
    /// Mint `amount` units into a token account.
    MintUnits {
        mint: Address,
        holder_account: Address,
        authority: Address,
        amount: u64,
        signer: Signer,
    },
    /// Register the metadata of a mint: its text, and `authority` as the mint
    /// authority, as the update authority and as the only creator, with
    /// `creator_share` percent of the royalties.
    RegisterMetadata {
        metadata: Address,
        mint: Address,
        authority: Address,
        payer: Address,
        text: MetadataText,
        creator_verified: bool,
        creator_share: u8,
        royalty_basis_points: u16,
        update_authority_is_signer: bool,
        is_mutable: bool,
        signer: Signer,
    },
    /// Mark the mint as a master edition, of which at most `max_supply`
    /// prints can be made, or any number where no limit is given.
    CreateMasterEdition {
        edition: Address,
        mint: Address,
        authority: Address,
        metadata: Address,
        payer: Address,
        max_supply: Option<u64>,
        signer: Signer,
    },
    /// Give up the authority to mint: the supply stays what it is.
    RevokeMintAuthority { mint: Address, authority: Address, signer: Signer },
    /// Mark the primary sale as done, with the holder's unit as the proof.
    MarkPrimarySale { metadata: Address, owner: Address, holder_account: Address },
    /// Freeze a token account: its unit cannot move.
    FreezeHolderAccount { holder_account: Address, mint: Address, authority: Address, signer: Signer },
    /// Thaw a token account.
    ThawHolderAccount { holder_account: Address, mint: Address, authority: Address, signer: Signer },
}

} // verus!
