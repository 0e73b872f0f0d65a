use vstd::prelude::*;

verus! {

/// The logical role that a caller-supplied account plays in a call.
#[derive(Clone, Copy, Debug, PartialEq, Eq, Structural)]
pub enum Role {
    /// The cell that holds one gem's record.
    GemAccount,
    /// The cell that holds the issuance ledger.
    Ledger,
    /// The pool that collects the minting fees.
    MintingPool,
    /// The program-controlled signer that owns every mint.
    MintAuthority,
    /// The holder's token account for the mint.
    AssociatedTokenAccount,
    /// The system program.
    SystemProgram,
    /// The token program.
    TokenProgram,
    /// The metadata record of the mint.
    Metadata,
    /// The master edition record.
    Edition,
    /// The mint of the collection.
    CollectionMint,
    /// The metadata record of the collection.
    CollectionMetadata,
    /// The identity that holds the collection's single unit.
    CollectionHolder,
    /// The program-controlled signer, in its role as freeze authority.
    FreezeAuthority,
    /// The BTC price feed.
    BtcFeed,
    /// The price feed of the chain's own asset.
    SolFeed,
    /// The ETH price feed.
    EthFeed,
    /// The BNB price feed.
    BnbFeed,
}

/// Why a call was refused. A refused call plans no action at all.
#[derive(Clone, Copy, Debug, PartialEq, Eq, Structural)]
pub enum ProcessError {
    /// Fewer accounts were supplied than the operation takes.
    NotEnoughAccountKeys,
    /// The account in this role is not at the address its role requires.
    KeyPairMismatch(Role),
    /// The holder did not sign the call.
    MissingRequiredSignature,
    /// The holder's token account does not hold exactly one unit, or the
    /// payer does not hold the fee.
    InsufficientFunds,
    /// An account's data is not in the layout its role requires.
    InvalidAccountData,
    /// The instruction data names no supported operation.
    InvalidInstructionData,
    /// A cell that the call would create exists already.
    AccountAlreadyInitialized,
    /// A ledger counter or a reveal time would leave its field's range.
    ArithmeticOverflow,
    /// The gem was never locked, so no reveal time is committed.
    NotLocked,
    /// The gem's rarity is already set.
    AlreadyRevealed,
    /// The feed in this role has no sample at or before the reveal time.
    MissingSample(Role),
}

} // verus!
