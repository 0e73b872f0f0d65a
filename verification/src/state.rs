use vstd::prelude::*;
use crate::bytes::{
    lemma_u16_round_trip, lemma_u32_round_trip, lemma_u64_round_trip, push_u16, push_u32, push_u64,
    read_u16, read_u32, read_u64, u16_at, u16_le, u32_at, u32_le, u64_at, u64_le,
};
use crate::constants::PRICE_TIME_INTERVAL;
use crate::error::ProcessError;

verus! {

/// The tier of a gem, chosen by whoever mints it. The tier sets the fee.
#[derive(Clone, Copy, Debug, PartialEq, Eq, Structural)]
pub enum Class {
    Ruby,
    Diamond,
    Sapphire,
    Emerald,
    Serendibite,
    Benitoite,
}

/// The fee of each tier, in the smallest unit of value.
pub open spec fn tariff(class: Class) -> u64 {
    match class {
        Class::Ruby => 500_000_000,
        Class::Diamond => 100_000_000,
        Class::Sapphire => 50_000_000,
        Class::Emerald => 10_000_000,
        Class::Serendibite => 5_000_000,
        Class::Benitoite => 1_000_000,
    }
}

/// The tier that a tag byte names.
pub open spec fn class_of_tag(tag: u8) -> Option<Class> {
    match tag {
        0 => Some(Class::Ruby),
        1 => Some(Class::Diamond),
        2 => Some(Class::Sapphire),
        3 => Some(Class::Emerald),
        4 => Some(Class::Serendibite),
        5 => Some(Class::Benitoite),
        _ => None,
    }
}

impl Class {
    /// The fee that minting a gem of this tier costs.
    pub fn get_class_lamports(self) -> (fee: u64)
        ensures
            fee == tariff(self),
    {
        match self {
            Class::Ruby => 500_000_000,
            Class::Diamond => 100_000_000,
            Class::Sapphire => 50_000_000,
            Class::Emerald => 10_000_000,
            Class::Serendibite => 5_000_000,
            Class::Benitoite => 1_000_000,
        }
    }

    /// The tier that a tag byte names, if any.
    pub fn from_tag(tag: u8) -> (r: Option<Class>)
        ensures
            r == class_of_tag(tag),
    {
        match tag {
            0 => Some(Class::Ruby),
            1 => Some(Class::Diamond),
            2 => Some(Class::Sapphire),
            3 => Some(Class::Emerald),
            4 => Some(Class::Serendibite),
            5 => Some(Class::Benitoite),
            _ => None,
        }
    }
}

/// The issuance ledger: how many gems were issued, and what they brought in.
#[derive(Clone, Copy, Debug, PartialEq, Eq, Structural)]
pub struct Ledger {
    pub issued_count: u32,
    pub total_value_collected: u64,
}

/// Number of bytes that a ledger takes at the start of its cell.
pub const LEDGER_LEN: usize = 12;

/// The bytes of a ledger: the count, then the total, least significant byte first.
pub open spec fn ledger_bytes(ledger: Ledger) -> Seq<u8> {
    u32_le(ledger.issued_count) + u64_le(ledger.total_value_collected)
}

/// The ledger at the start of a cell; `None` where the cell is too short.
pub open spec fn ledger_from_bytes(data: Seq<u8>) -> Option<Ledger> {
    if data.len() < LEDGER_LEN {
        None
    } else {
        Some(Ledger { issued_count: u32_at(data, 0), total_value_collected: u64_at(data, 4) })
    }
}

/// The ledger after one more gem was issued for `fee`, with the gem's
/// sequence number; `None` where a counter would overflow.
pub open spec fn issuance(ledger: Ledger, fee: u64) -> Option<(Ledger, u32)> {
    if ledger.issued_count + 1 > u32::MAX || ledger.total_value_collected + fee > u64::MAX {
        None
    } else {
        Some(
            (
                Ledger {
                    issued_count: (ledger.issued_count + 1) as u32,
                    total_value_collected: (ledger.total_value_collected + fee) as u64,
                },
                (ledger.issued_count + 1) as u32,
            ),
        )
    }
}

impl Ledger {
    /// The ledger before any gem was issued.
    pub fn initialize() -> (ledger: Ledger)
        ensures
            ledger.issued_count == 0,
            ledger.total_value_collected == 0,
    {
        Ledger { issued_count: 0, total_value_collected: 0 }
    }

    /// Counts one more gem and adds its fee to the total. Returns the gem's
    /// sequence number: the new count. Where a counter would overflow the
    /// ledger stays as it was.
    pub fn record_issuance(&mut self, fee: u64) -> (r: Result<u32, ProcessError>)
        ensures
            match r {
                Ok(number) => issuance(*old(self), fee) == Some((*final(self), number)),
                Err(e) => e == ProcessError::ArithmeticOverflow && issuance(*old(self), fee) is None
                    && *final(self) == *old(self),
            },
    {
        if self.issued_count == u32::MAX || self.total_value_collected > u64::MAX - fee {
            return Err(ProcessError::ArithmeticOverflow);
        }
        self.issued_count = self.issued_count + 1;
        self.total_value_collected = self.total_value_collected + fee;
        Ok(self.issued_count)
    }

    /// The bytes that stand for this ledger in its cell.
    pub fn pack(&self) -> (r: Vec<u8>)
        ensures
            r@ == ledger_bytes(*self),
            r@.len() == LEDGER_LEN,
            ledger_from_bytes(r@) == Some(*self),
    {
        let mut r: Vec<u8> = Vec::new();
        push_u32(&mut r, self.issued_count);
        push_u64(&mut r, self.total_value_collected);
        assert(r@ =~= ledger_bytes(*self));
        proof {
            lemma_ledger_round_trip(*self, Seq::empty());
            assert(ledger_bytes(*self) + Seq::<u8>::empty() =~= ledger_bytes(*self));
        }
        r
    }

    /// Reads the ledger at the start of a cell.
    pub fn unpack(data: &[u8]) -> (r: Option<Ledger>)
        ensures
            r == ledger_from_bytes(data@),
    {
        if data.len() < LEDGER_LEN {
            return None;
        }
        Some(Ledger { issued_count: read_u32(data, 0), total_value_collected: read_u64(data, 4) })
    }
}

/// Where the value paid for a gem is.
#[derive(Clone, Copy, Debug, PartialEq, Eq, Structural)]
pub enum ValueLocation {
    HeldInPool,
    Released,
}

/// The record of one gem.
#[derive(Clone, Copy, Debug, PartialEq, Eq, Structural)]
pub struct AssetRecord {
    pub creation_time: u32,
    pub redeemable_time: u32,
    pub sequence_number: u32,
    pub rarity: Option<u16>,
    pub value_location: ValueLocation,
    pub reveal_commit_time: Option<u32>,
}

/// Where a gem stands between its minting and the reveal of its rarity.
#[derive(Clone, Copy, Debug, PartialEq, Eq, Structural)]
pub enum ImprintState {
    Minted,
    Locked(u32),
    Revealed(u16),
}

/// The tag of the only layout of a record.
pub const RECORD_VERSION: u8 = 0;

/// Number of bytes that a record takes at the start of its cell.
pub const RECORD_LEN: usize = 22;

/// The byte that says whether an optional field is set.
pub open spec fn presence_tag<T>(value: Option<T>) -> u8 {
    if value is Some {
        1
    } else {
        0
    }
}

/// The byte of a location.
pub open spec fn location_tag(location: ValueLocation) -> u8 {
    match location {
        ValueLocation::HeldInPool => 0,
        ValueLocation::Released => 1,
    }
}

/// The bytes of a record, every field at a fixed place: the version tag, the
/// two times and the sequence number, the rarity behind its presence tag, the
/// location, the reveal time behind its presence tag. A field that is not set
/// leaves zeros behind its tag.
pub open spec fn record_bytes(record: AssetRecord) -> Seq<u8> {
    seq![RECORD_VERSION] + u32_le(record.creation_time) + u32_le(record.redeemable_time) + u32_le(
        record.sequence_number,
    ) + seq![presence_tag(record.rarity)] + u16_le(
        match record.rarity {
            Some(rarity) => rarity,
            None => 0,
        },
    ) + seq![location_tag(record.value_location), presence_tag(record.reveal_commit_time)]
        + u32_le(
        match record.reveal_commit_time {
            Some(time) => time,
            None => 0,
        },
    )
}

/// The record at the start of a cell; `None` where the cell is too short,
/// holds another version, or a tag that names nothing.
pub open spec fn record_from_bytes(data: Seq<u8>) -> Option<AssetRecord> {
    if data.len() < RECORD_LEN || data[0] != RECORD_VERSION || data[13] > 1 || data[16] > 1
        || data[17] > 1 {
        None
    } else {
        Some(
            AssetRecord {
                creation_time: u32_at(data, 1),
                redeemable_time: u32_at(data, 5),
                sequence_number: u32_at(data, 9),
                rarity: if data[13] == 1 {
                    Some(u16_at(data, 14))
                } else {
                    None
                },
                value_location: if data[16] == 1 {
                    ValueLocation::Released
                } else {
                    ValueLocation::HeldInPool
                },
                reveal_commit_time: if data[17] == 1 {
                    Some(u32_at(data, 18))
                } else {
                    None
                },
            },
        )
    }
}

/// The record of a gem that was minted at `now` under `number`.
pub open spec fn minted_record(now: u32, number: u32) -> AssetRecord {
    AssetRecord {
        creation_time: now,
        redeemable_time: now,
        sequence_number: number,
        rarity: None,
        value_location: ValueLocation::HeldInPool,
        reveal_commit_time: None,
    }
}

/// The record after a lock at `now`, or why the lock is refused.
pub open spec fn locked(record: AssetRecord, now: u32) -> Result<AssetRecord, ProcessError> {
    if record.rarity is Some {
        Err(ProcessError::AlreadyRevealed)
    } else if now + PRICE_TIME_INTERVAL > u32::MAX {
        Err(ProcessError::ArithmeticOverflow)
    } else {
        Ok(AssetRecord { reveal_commit_time: Some((now + PRICE_TIME_INTERVAL) as u32), ..record })
    }
}

/// The record after its rarity was revealed, or why the reveal is refused.
pub open spec fn revealed(record: AssetRecord, rarity: u16) -> Result<AssetRecord, ProcessError> {
    if record.rarity is Some {
        Err(ProcessError::AlreadyRevealed)
    } else if record.reveal_commit_time is None {
        Err(ProcessError::NotLocked)
    } else {
        Ok(AssetRecord { rarity: Some(rarity), ..record })
    }
}

impl AssetRecord {
    /// A rarity is only ever set on a record that was locked before.
    pub open spec fn wf(&self) -> bool {
        self.rarity is Some ==> self.reveal_commit_time is Some
    }

    /// Where the gem stands.
    pub open spec fn state(&self) -> ImprintState {
        match (self.rarity, self.reveal_commit_time) {
            (Some(rarity), _) => ImprintState::Revealed(rarity),
            (None, Some(time)) => ImprintState::Locked(time),
            (None, None) => ImprintState::Minted,
        }
    }

    /// The record of a gem minted at `now` under the sequence number `number`.
    pub fn minted(now: u32, number: u32) -> (record: AssetRecord)
        ensures
            record == minted_record(now, number),
            record.wf(),
            record.state() == ImprintState::Minted,
    {
        AssetRecord {
            creation_time: now,
            redeemable_time: now,
            sequence_number: number,
            rarity: None,
            value_location: ValueLocation::HeldInPool,
            reveal_commit_time: None,
        }
    }

    /// Commits the reveal time: `now` plus the fixed interval. A record that
    /// is locked already is locked anew; one whose rarity is set is not.
    pub fn lock(&self, now: u32) -> (r: Result<AssetRecord, ProcessError>)
        ensures
            r == locked(*self, now),
            r matches Ok(next) ==> next.state() == ImprintState::Locked(
                (now + PRICE_TIME_INTERVAL) as u32,
            ) && (self.wf() ==> next.wf()),
    {
        if self.rarity.is_some() {
            return Err(ProcessError::AlreadyRevealed);
        }
        match now.checked_add(PRICE_TIME_INTERVAL) {
            None => Err(ProcessError::ArithmeticOverflow),
            Some(time) => Ok(
                AssetRecord {
                    creation_time: self.creation_time,
                    redeemable_time: self.redeemable_time,
                    sequence_number: self.sequence_number,
                    rarity: self.rarity,
                    value_location: self.value_location,
                    reveal_commit_time: Some(time),
                },
            ),
        }
    }

    /// Sets the rarity of a locked record. The rarity is set at most once.
    pub fn imprint(&self, rarity: u16) -> (r: Result<AssetRecord, ProcessError>)
        ensures
            r == revealed(*self, rarity),
            r matches Ok(next) ==> next.state() == ImprintState::Revealed(rarity) && next.wf()
                && self.state() is Locked,
    {
        if self.rarity.is_some() {
            return Err(ProcessError::AlreadyRevealed);
        }
        if self.reveal_commit_time.is_none() {
            return Err(ProcessError::NotLocked);
        }
        Ok(
            AssetRecord {
                creation_time: self.creation_time,
                redeemable_time: self.redeemable_time,
                sequence_number: self.sequence_number,
                rarity: Some(rarity),
                value_location: self.value_location,
                reveal_commit_time: self.reveal_commit_time,
            },
        )
    }

    /// The bytes that stand for this record in its cell.
    pub fn pack(&self) -> (r: Vec<u8>)
        ensures
            r@ == record_bytes(*self),
            r@.len() == RECORD_LEN,
            record_from_bytes(r@) == Some(*self),
    {
        let mut r: Vec<u8> = Vec::new();
        r.push(RECORD_VERSION);
        push_u32(&mut r, self.creation_time);
        push_u32(&mut r, self.redeemable_time);
        push_u32(&mut r, self.sequence_number);
        match self.rarity {
            Some(rarity) => {
                r.push(1u8);
                push_u16(&mut r, rarity);
            },
            None => {
                r.push(0u8);
                push_u16(&mut r, 0);
            },
        }
        match self.value_location {
            ValueLocation::HeldInPool => {
                r.push(0u8);
            },
            ValueLocation::Released => {
                r.push(1u8);
            },
        }
        match self.reveal_commit_time {
            Some(time) => {
                r.push(1u8);
                push_u32(&mut r, time);
            },
            None => {
                r.push(0u8);
                push_u32(&mut r, 0);
            },
        }
        assert(r@ =~= record_bytes(*self));
        proof {
            lemma_record_round_trip(*self, Seq::empty());
            assert(record_bytes(*self) + Seq::<u8>::empty() =~= record_bytes(*self));
        }
        r
    }

    /// Reads the record at the start of a cell.
    pub fn unpack(data: &[u8]) -> (r: Option<AssetRecord>)
        ensures
            r == record_from_bytes(data@),
    {
        if data.len() < RECORD_LEN || data[0] != RECORD_VERSION || data[13] > 1 || data[16] > 1
            || data[17] > 1 {
            return None;
        }
        Some(
            AssetRecord {
                creation_time: read_u32(data, 1),
                redeemable_time: read_u32(data, 5),
                sequence_number: read_u32(data, 9),
                rarity: if data[13] == 1 {
                    Some(read_u16(data, 14))
                } else {
                    None
                },
                value_location: if data[16] == 1 {
                    ValueLocation::Released
                } else {
                    ValueLocation::HeldInPool
                },
                reveal_commit_time: if data[17] == 1 {
                    Some(read_u32(data, 18))
                } else {
                    None
                },
            },
        )
    }
}

/// Writing a ledger into a cell and reading the cell gives the ledger back,
/// whatever follows it in the cell.
pub proof fn lemma_ledger_round_trip(ledger: Ledger, rest: Seq<u8>)
    ensures
        ledger_from_bytes(ledger_bytes(ledger) + rest) == Some(ledger),
{
    let data = ledger_bytes(ledger) + rest;
    let empty = Seq::<u8>::empty();
    assert(data =~= empty + u32_le(ledger.issued_count) + (u64_le(ledger.total_value_collected)
        + rest));
    lemma_u32_round_trip(ledger.issued_count, empty, u64_le(ledger.total_value_collected) + rest);
    assert(data =~= u32_le(ledger.issued_count) + u64_le(ledger.total_value_collected) + rest);
    lemma_u64_round_trip(ledger.total_value_collected, u32_le(ledger.issued_count), rest);
}

/// Writing a record into a cell and reading the cell gives the record back
/// with every field as it was, in each of the states a gem goes through and
/// whatever follows the record in the cell.
pub proof fn lemma_record_round_trip(record: AssetRecord, rest: Seq<u8>)
    ensures
        record_from_bytes(record_bytes(record) + rest) == Some(record),
{
    let data = record_bytes(record) + rest;
    let rarity: u16 = match record.rarity {
        Some(rarity) => rarity,
        None => 0,
    };
    let time: u32 = match record.reveal_commit_time {
        Some(time) => time,
        None => 0,
    };
    let version = seq![RECORD_VERSION];
    let times = version + u32_le(record.creation_time) + u32_le(record.redeemable_time);
    let upto_rarity = times + u32_le(record.sequence_number) + seq![presence_tag(record.rarity)];
    let upto_time = upto_rarity + u16_le(rarity) + seq![
        location_tag(record.value_location),
        presence_tag(record.reveal_commit_time),
    ];
    assert(data =~= upto_time + u32_le(time) + rest);
    assert(data.len() >= RECORD_LEN);
    assert(data[0] == RECORD_VERSION);
    assert(data[13] == presence_tag(record.rarity));
    assert(data[16] == location_tag(record.value_location));
    assert(data[17] == presence_tag(record.reveal_commit_time));
    assert(u32_at(data, 1) == record.creation_time) by {
        assert(data =~= version + u32_le(record.creation_time) + data.skip(5));
        lemma_u32_round_trip(record.creation_time, version, data.skip(5));
    }
    assert(u32_at(data, 5) == record.redeemable_time) by {
        assert(data =~= data.take(5) + u32_le(record.redeemable_time) + data.skip(9));
        lemma_u32_round_trip(record.redeemable_time, data.take(5), data.skip(9));
    }
    assert(u32_at(data, 9) == record.sequence_number) by {
        assert(data =~= data.take(9) + u32_le(record.sequence_number) + data.skip(13));
        lemma_u32_round_trip(record.sequence_number, data.take(9), data.skip(13));
    }
    assert(u16_at(data, 14) == rarity) by {
        assert(data =~= data.take(14) + u16_le(rarity) + data.skip(16));
        lemma_u16_round_trip(rarity, data.take(14), data.skip(16));
    }
    assert(u32_at(data, 18) == time) by {
        assert(data =~= data.take(18) + u32_le(time) + data.skip(22));
        lemma_u32_round_trip(time, data.take(18), data.skip(22));
    }
}

/// The three states are all there is, and a transition never skips one: a
/// lock leads from `Minted` or `Locked` to `Locked`, a reveal from `Locked` to
/// `Revealed`, and nothing leads out of `Revealed`.
pub proof fn lemma_transitions(record: AssetRecord, now: u32, rarity: u16)
    ensures
        locked(record, now) matches Ok(next) ==> !(record.state() is Revealed) && next.state()
            is Locked,
        revealed(record, rarity) matches Ok(next) ==> record.state() is Locked && next.state()
            == ImprintState::Revealed(rarity),
        record.state() is Revealed ==> locked(record, now) is Err && revealed(record, rarity)
            is Err,
        record.state() is Minted ==> revealed(record, rarity) is Err,
{
}

} // verus!
