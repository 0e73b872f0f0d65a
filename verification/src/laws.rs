use vstd::prelude::*;
use crate::account::AccountView;
use crate::action::{signer_seeds, Action, Signer};
use crate::address::{
    bump_of, derives_to, is_associated_token_address, metadata_program_id, system_program_id,
    token_program_id, Address,
};
use crate::bytes::overwritten;
use crate::constants::{BNB_FEED, BTC_FEED, ETH_FEED, SOL_FEED};
use crate::decimal::{lemma_text_injective, pow10, price_text};
use crate::error::ProcessError;
use crate::oracle::{history_framed, history_sample};
use crate::processor::{
    feed_mismatch, holder_check, imprint_rarity_plan, init_rarity_imprint_plan,
    mint_collection_plan, mint_nft_plan, HOLDER_ACCOUNTS, MINT_COLLECTION_ACCOUNTS,
    MINT_NFT_ACCOUNTS, REVEAL_ACCOUNTS,
};
use crate::rarity::{rarity_of, rarity_preimage, PriceSample};
use crate::roles::{
    collection_holder_seeds, collection_mint_seeds, edition_seeds, gem_account_seeds,
    ledger_seeds, metadata_seeds, mint_authority_seeds, minting_pool_seeds,
};
use crate::state::{
    issuance, ledger_bytes, ledger_from_bytes, lemma_ledger_round_trip, minted_record,
    record_from_bytes, tariff, Class, Ledger,
};

verus! {

/// A mint that is accepted charges the fee of its tier, no more and no less:
/// the payer holds the fee, the ledger that the mint writes counts one gem
/// more and the tier's fee more than the ledger that it read, the transfer
/// that it plans moves the tier's fee from the payer into the pool, and the
/// gem's record carries the new count as its sequence number and no rarity.
/// The ledger is written before the fee moves, and the fee moves before the
/// mint is created.
pub proof fn lemma_mint_charges_tariff(program: Address, accounts: Seq<AccountView>, class: Class, now: u32)
    requires
        mint_nft_plan(program, accounts, class, now) is Ok,
    ensures
        ({
            let plan = mint_nft_plan(program, accounts, class, now)->Ok_0;
            let before = ledger_from_bytes(accounts[9].data)->Some_0;
            &&& ledger_from_bytes(accounts[9].data) is Some
            &&& accounts[0].lamports >= tariff(class)
            &&& before.issued_count + 1 <= u32::MAX
            &&& before.total_value_collected + tariff(class) <= u64::MAX
            &&& plan.len() == 11
            &&& plan[1] == Action::StoreLedger {
                cell: accounts[9].key,
                ledger: Ledger {
                    issued_count: (before.issued_count + 1) as u32,
                    total_value_collected: (before.total_value_collected + tariff(class)) as u64,
                },
            }
            &&& plan[2] == Action::Transfer {
                from: accounts[0].key,
                to: accounts[8].key,
                amount: tariff(class),
            }
            &&& plan[3] is CreateCell
            &&& plan[10] == Action::StoreRecord {
                cell: accounts[10].key,
                record: minted_record(now, (before.issued_count + 1) as u32),
            }
        }),
{
}

/// The unit of a gem is the only one there will ever be: a mint that is
/// accepted makes the program-controlled signer the only authority of the
/// new mint, mints one unit, once, into the payer's token account, and then
/// gives up the authority to mint.
pub proof fn lemma_mint_fixes_the_supply(program: Address, accounts: Seq<AccountView>, class: Class, now: u32)
    requires
        mint_nft_plan(program, accounts, class, now) is Ok,
    ensures
        ({
            let plan = mint_nft_plan(program, accounts, class, now)->Ok_0;
            let signer = Signer::MintAuthority { bump: bump_of(mint_authority_seeds(), program@) };
            &&& derives_to(mint_authority_seeds(), program@, accounts[2].key@)
            &&& plan[4] == Action::InitializeMint {
                mint: accounts[1].key,
                authority: accounts[2].key,
                freeze_authority: accounts[2].key,
                decimals: 0,
            }
            &&& plan[6] == Action::MintUnits {
                mint: accounts[1].key,
                holder_account: accounts[3].key,
                authority: accounts[2].key,
                amount: 1,
                signer,
            }
            &&& plan[8] == Action::RevokeMintAuthority {
                mint: accounts[1].key,
                authority: accounts[2].key,
                signer,
            }
            &&& forall|i: int| 0 <= i < plan.len() && i != 6 ==> !(#[trigger] plan[i] is MintUnits)
        }),
{
}

/// Where the program signs an action of a mint, it signs with the seeds
/// that derive the address it signs for, completed by their disambiguator.
pub proof fn lemma_mint_signs_for_derived_addresses(
    program: Address,
    accounts: Seq<AccountView>,
    class: Class,
    now: u32,
)
    requires
        mint_nft_plan(program, accounts, class, now) is Ok,
    ensures
        ({
            let plan = mint_nft_plan(program, accounts, class, now)->Ok_0;
            let mint = accounts[1].key@;
            &&& plan[0] is CreateCell
            &&& derives_to(gem_account_seeds(mint), program@, plan[0]->CreateCell_cell@)
            &&& signer_seeds(plan[0]->CreateCell_signer) == gem_account_seeds(mint).push(
                seq![bump_of(gem_account_seeds(mint), program@)],
            )
            &&& plan[6] is MintUnits
            &&& derives_to(mint_authority_seeds(), program@, plan[6]->MintUnits_authority@)
            &&& signer_seeds(plan[6]->MintUnits_signer) == mint_authority_seeds().push(
                seq![bump_of(mint_authority_seeds(), program@)],
            )
        }),
{
    let mint = accounts[1].key@;
    assert(seq![crate::constants::GEM_ACCOUNT_SEED@, mint, seq![bump_of(gem_account_seeds(mint), program@)]]
        =~= gem_account_seeds(mint).push(seq![bump_of(gem_account_seeds(mint), program@)]));
    assert(seq![
        crate::constants::MINT_AUTHORITY_SEED@,
        seq![bump_of(mint_authority_seeds(), program@)],
    ] =~= mint_authority_seeds().push(seq![bump_of(mint_authority_seeds(), program@)]));
}

/// The ledger after the gems of `fees` were issued one after the other;
/// `None` where a counter would overflow on the way.
pub open spec fn ledger_after(ledger: Ledger, fees: Seq<u64>) -> Option<Ledger>
    decreases fees.len(),
{
    if fees.len() == 0 {
        Some(ledger)
    } else {
        match ledger_after(ledger, fees.drop_last()) {
            None => None,
            Some(before) => match issuance(before, fees.last()) {
                None => None,
                Some((after, _)) => Some(after),
            },
        }
    }
}

/// The sum of a sequence of fees.
pub open spec fn total_of(fees: Seq<u64>) -> nat
    decreases fees.len(),
{
    if fees.len() == 0 {
        0
    } else {
        total_of(fees.drop_last()) + fees.last() as nat
    }
}

/// After any number of issuances the ledger counts exactly as many gems more,
/// and the sum of their fees more.
pub proof fn lemma_ledger_counts(ledger: Ledger, fees: Seq<u64>)
    requires
        ledger_after(ledger, fees) is Some,
    ensures
        ledger_after(ledger, fees)->Some_0.issued_count == ledger.issued_count + fees.len(),
        ledger_after(ledger, fees)->Some_0.total_value_collected == ledger.total_value_collected
            + total_of(fees),
    decreases fees.len(),
{
    if fees.len() > 0 {
        lemma_ledger_counts(ledger, fees.drop_last());
    }
}

/// Sequence numbers rise by one from gem to gem: the gem that is issued
/// after `earlier` others gets the number that follows theirs, so no two
/// gems share a number, a later gem has a higher number, and no number is
/// left out.
pub proof fn lemma_sequence_numbers_increase(ledger: Ledger, earlier: Seq<u64>, fee: u64)
    requires
        ledger_after(ledger, earlier) is Some,
        issuance(ledger_after(ledger, earlier)->Some_0, fee) is Some,
    ensures
        issuance(ledger_after(ledger, earlier)->Some_0, fee)->Some_0.1 == ledger.issued_count
            + earlier.len() + 1,
{
    lemma_ledger_counts(ledger, earlier);
}

/// Of two mints that are accepted one after the other, the second gets the
/// sequence number that follows the first one's. Between them the ledger
/// cell holds what the first mint wrote; a mint that is refused writes
/// nothing, so it uses up no number.
pub proof fn lemma_successive_mints(
    program: Address,
    first: Seq<AccountView>,
    first_class: Class,
    first_now: u32,
    second: Seq<AccountView>,
    second_class: Class,
    second_now: u32,
)
    requires
        mint_nft_plan(program, first, first_class, first_now) is Ok,
        mint_nft_plan(program, second, second_class, second_now) is Ok,
        second[9].data == overwritten(
            first[9].data,
            ledger_bytes(mint_nft_plan(program, first, first_class, first_now)->Ok_0[1]->StoreLedger_ledger),
        ),
    ensures
        ({
            let first_plan = mint_nft_plan(program, first, first_class, first_now)->Ok_0;
            let second_plan = mint_nft_plan(program, second, second_class, second_now)->Ok_0;
            &&& first_plan[1] is StoreLedger
            &&& first_plan[10] is StoreRecord
            &&& second_plan[10] is StoreRecord
            &&& second_plan[10]->StoreRecord_record.sequence_number
                == first_plan[10]->StoreRecord_record.sequence_number + 1
        }),
{
    lemma_mint_charges_tariff(program, first, first_class, first_now);
    lemma_mint_charges_tariff(program, second, second_class, second_now);
    let before = ledger_from_bytes(first[9].data)->Some_0;
    let written = Ledger {
        issued_count: (before.issued_count + 1) as u32,
        total_value_collected: (before.total_value_collected + tariff(first_class)) as u64,
    };
    lemma_ledger_round_trip(
        written,
        first[9].data.subrange(ledger_bytes(written).len() as int, first[9].data.len() as int),
    );
    assert(ledger_from_bytes(second[9].data) == Some(written));
}

/// A reveal finds a sample in every feed or is refused: where the holder,
/// the feeds and the record are in order but the history of a feed has no
/// sample at or before the record's reveal time, the reveal is refused for
/// the missing sample. It never goes on with another sample in its place.
pub proof fn lemma_missing_sample_refuses(program: Address, accounts: Seq<AccountView>)
    requires
        accounts.len() >= REVEAL_ACCOUNTS,
        holder_check(program, accounts) is Ok,
        feed_mismatch(accounts) is None,
        ({
            let record = record_from_bytes(accounts[1].data);
            let time = record->Some_0.reveal_commit_time->Some_0 as i64;
            &&& record is Some
            &&& record->Some_0.rarity is None
            &&& record->Some_0.reveal_commit_time is Some
            &&& history_framed(accounts[5].data)
            &&& history_framed(accounts[6].data)
            &&& history_framed(accounts[7].data)
            &&& history_framed(accounts[8].data)
            &&& (history_sample(accounts[5].data, time) is None || history_sample(
                accounts[6].data,
                time,
            ) is None || history_sample(accounts[7].data, time) is None || history_sample(
                accounts[8].data,
                time,
            ) is None)
        }),
    ensures
        imprint_rarity_plan(program, accounts) matches Err(ProcessError::MissingSample(_)),
{
}

/// A reveal that is accepted had a sample from each of the four feeds.
pub proof fn lemma_reveal_had_samples(program: Address, accounts: Seq<AccountView>)
    requires
        imprint_rarity_plan(program, accounts) is Ok,
    ensures
        ({
            let record = record_from_bytes(accounts[1].data);
            let time = record->Some_0.reveal_commit_time->Some_0 as i64;
            &&& record is Some
            &&& record->Some_0.reveal_commit_time is Some
            &&& history_sample(accounts[5].data, time) is Some
            &&& history_sample(accounts[6].data, time) is Some
            &&& history_sample(accounts[7].data, time) is Some
            &&& history_sample(accounts[8].data, time) is Some
        }),
{
}

/// The rarity is a function of the four samples' mantissas and scales, in
/// the order of the feeds: the same prices give the same rarity, whenever
/// and wherever it is derived, and whatever the samples' timestamps are.
pub proof fn lemma_rarity_is_a_function(
    btc: PriceSample,
    sol: PriceSample,
    eth: PriceSample,
    bnb: PriceSample,
    other_btc: PriceSample,
    other_sol: PriceSample,
    other_eth: PriceSample,
    other_bnb: PriceSample,
)
    requires
        btc.mantissa == other_btc.mantissa && btc.scale == other_btc.scale,
        sol.mantissa == other_sol.mantissa && sol.scale == other_sol.scale,
        eth.mantissa == other_eth.mantissa && eth.scale == other_eth.scale,
        bnb.mantissa == other_bnb.mantissa && bnb.scale == other_bnb.scale,
    ensures
        rarity_preimage(btc, sol, eth, bnb) == rarity_preimage(
            other_btc,
            other_sol,
            other_eth,
            other_bnb,
        ),
        rarity_of(btc, sol, eth, bnb) == rarity_of(other_btc, other_sol, other_eth, other_bnb),
{
}

/// The integer price that a sample stands for.
pub open spec fn price(sample: PriceSample) -> int {
    sample.mantissa * pow10(sample.scale as nat)
}

/// The text of a sample's price.
pub open spec fn text_of(sample: PriceSample) -> Seq<u8> {
    price_text(sample.mantissa, sample.scale)
}

/// The text that is hashed for four samples, given in the order of the feeds.
pub open spec fn preimage_of(feeds: Seq<PriceSample>) -> Seq<u8> {
    rarity_preimage(feeds[0], feeds[1], feeds[2], feeds[3])
}

/// The samples with those of two feeds exchanged.
pub open spec fn exchanged(feeds: Seq<PriceSample>, first: int, second: int) -> Seq<PriceSample> {
    feeds.update(first, feeds[second]).update(second, feeds[first])
}

/// Two texts that start alike and go on with different blocks of one length
/// are different texts.
proof fn lemma_block_differs(start: Seq<u8>, block: Seq<u8>, other: Seq<u8>, end: Seq<u8>, other_end: Seq<u8>)
    requires
        block.len() == other.len(),
        block != other,
    ensures
        start + block + end != start + other + other_end,
{
    let left = start + block + end;
    let right = start + other + other_end;
    if left == right {
        let from = start.len() as int;
        assert(left.subrange(from, from + block.len()) =~= block);
        assert(right.subrange(from, from + other.len()) =~= other);
    }
}

/// The order of the feeds counts: where two feeds give different prices that
/// are written with equally many characters, exchanging the two changes the
/// text that is hashed.
pub proof fn lemma_feed_order_is_significant(feeds: Seq<PriceSample>, first: int, second: int)
    requires
        feeds.len() == 4,
        0 <= first < second < 4,
        price(feeds[first]) != price(feeds[second]),
        text_of(feeds[first]).len() == text_of(feeds[second]).len(),
    ensures
        preimage_of(feeds) != preimage_of(exchanged(feeds, first, second)),
{
    let other = exchanged(feeds, first, second);
    let block = text_of(feeds[first]);
    let other_block = text_of(feeds[second]);
    if block == other_block {
        lemma_text_injective(price(feeds[first]), price(feeds[second]));
    }
    let empty = Seq::<u8>::empty();
    if first == 0 {
        let end = text_of(feeds[1]) + text_of(feeds[2]) + text_of(feeds[3]);
        let other_end = text_of(other[1]) + text_of(other[2]) + text_of(other[3]);
        lemma_block_differs(empty, block, other_block, end, other_end);
        assert(preimage_of(feeds) =~= empty + block + end);
        assert(preimage_of(other) =~= empty + other_block + other_end);
    } else if first == 1 {
        let start = text_of(feeds[0]);
        let end = text_of(feeds[2]) + text_of(feeds[3]);
        let other_end = text_of(other[2]) + text_of(other[3]);
        lemma_block_differs(start, block, other_block, end, other_end);
        assert(preimage_of(feeds) =~= start + block + end);
        assert(preimage_of(other) =~= start + other_block + other_end);
    } else {
        let start = text_of(feeds[0]) + text_of(feeds[1]);
        let end = text_of(feeds[3]);
        let other_end = text_of(other[3]);
        lemma_block_differs(start, block, other_block, end, other_end);
        assert(preimage_of(feeds) =~= start + block + end);
        assert(preimage_of(other) =~= start + other_block + other_end);
    }
}

/// A gem's minting with an address that does not match its derivation is
/// refused, whichever address it is. A refusal carries no action, and the
/// call was handed nothing that it could have changed.
pub proof fn lemma_mint_nft_refuses_mismatch(program: Address, accounts: Seq<AccountView>, class: Class, now: u32)
    requires
        accounts.len() >= MINT_NFT_ACCOUNTS,
        ({
            let payer = accounts[0].key@;
            let mint = accounts[1].key@;
            let collection = accounts[13].key@;
            ||| !derives_to(gem_account_seeds(mint), program@, accounts[10].key@)
            ||| !derives_to(ledger_seeds(), program@, accounts[9].key@)
            ||| !derives_to(minting_pool_seeds(), program@, accounts[8].key@)
            ||| !derives_to(mint_authority_seeds(), program@, accounts[2].key@)
            ||| !is_associated_token_address(payer, mint, accounts[3].key@)
            ||| accounts[6].key@ != system_program_id()
            ||| accounts[4].key@ != token_program_id()
            ||| !derives_to(metadata_seeds(mint), metadata_program_id(), accounts[7].key@)
            ||| !derives_to(collection_mint_seeds(), program@, collection)
            ||| !derives_to(metadata_seeds(collection), metadata_program_id(), accounts[14].key@)
            ||| !derives_to(edition_seeds(collection), metadata_program_id(), accounts[12].key@)
        }),
    ensures
        mint_nft_plan(program, accounts, class, now) matches Err(ProcessError::KeyPairMismatch(_)),
{
}

/// The collection's minting with an address that does not match its
/// derivation is refused, whichever address it is.
pub proof fn lemma_mint_collection_refuses_mismatch(program: Address, accounts: Seq<AccountView>)
    requires
        accounts.len() >= MINT_COLLECTION_ACCOUNTS,
        ({
            let holder = accounts[1].key@;
            let mint = accounts[2].key@;
            ||| !derives_to(ledger_seeds(), program@, accounts[9].key@)
            ||| !derives_to(collection_mint_seeds(), program@, mint)
            ||| !derives_to(mint_authority_seeds(), program@, accounts[3].key@)
            ||| !derives_to(collection_holder_seeds(), program@, holder)
            ||| !is_associated_token_address(holder, mint, accounts[4].key@)
            ||| accounts[7].key@ != system_program_id()
            ||| accounts[5].key@ != token_program_id()
            ||| !derives_to(metadata_seeds(mint), metadata_program_id(), accounts[8].key@)
            ||| !derives_to(edition_seeds(mint), metadata_program_id(), accounts[10].key@)
        }),
    ensures
        mint_collection_plan(program, accounts) matches Err(ProcessError::KeyPairMismatch(_)),
{
}

/// A lock with an address that does not match its derivation is refused.
pub proof fn lemma_lock_refuses_mismatch(program: Address, accounts: Seq<AccountView>, now: u32)
    requires
        accounts.len() >= HOLDER_ACCOUNTS,
        ({
            let mint = accounts[2].key@;
            ||| !derives_to(gem_account_seeds(mint), program@, accounts[1].key@)
            ||| !is_associated_token_address(accounts[0].key@, mint, accounts[3].key@)
            ||| !derives_to(mint_authority_seeds(), program@, accounts[4].key@)
        }),
    ensures
        init_rarity_imprint_plan(program, accounts, now) matches Err(
            ProcessError::KeyPairMismatch(_),
        ),
{
}

/// A reveal with an address that does not match its derivation, or with a
/// feed that is not the one the program accepts, is refused.
pub proof fn lemma_reveal_refuses_mismatch(program: Address, accounts: Seq<AccountView>)
    requires
        accounts.len() >= REVEAL_ACCOUNTS,
        ({
            let mint = accounts[2].key@;
            ||| !derives_to(gem_account_seeds(mint), program@, accounts[1].key@)
            ||| !is_associated_token_address(accounts[0].key@, mint, accounts[3].key@)
            ||| !derives_to(mint_authority_seeds(), program@, accounts[4].key@)
            ||| accounts[5].key@ != BTC_FEED@
            ||| accounts[6].key@ != SOL_FEED@
            ||| accounts[7].key@ != ETH_FEED@
            ||| accounts[8].key@ != BNB_FEED@
        }),
    ensures
        imprint_rarity_plan(program, accounts) is Err,
{
}

} // verus!
