use vstd::prelude::*;
use solana_program::account_info::AccountInfo;
use solana_program::pubkey::Pubkey;
use switchboard_v2::AggregatorHistoryBuffer;
use crate::bytes::{i128_at, i64_at, read_i128, read_i64, read_u32, u32_at};
use crate::error::{ProcessError, Role};
use crate::rarity::PriceSample;

verus! {

/// The tag at the start of a price history: `BUFFERxx`.
pub const HISTORY_TAG: [u8; 8] = [66, 85, 70, 70, 69, 82, 120, 120];

/// Number of bytes before the rows of a history: the tag and the index of
/// the row that was written last.
pub const HISTORY_HEADER: usize = 12;

/// Number of bytes of one row: a timestamp, a mantissa and a scale.
pub const HISTORY_ROW: usize = 28;

/// Whether the contents of a cell are framed as a price history: the tag,
/// the index of the row that was written last, and whole rows, of which
/// that index names one.
pub open spec fn history_framed(data: Seq<u8>) -> bool {
    &&& data.len() >= HISTORY_HEADER
    &&& data.subrange(0, 8) == HISTORY_TAG@
    &&& (data.len() - HISTORY_HEADER) % (HISTORY_ROW as int) == 0
    &&& u32_at(data, 8) < (data.len() - HISTORY_HEADER) / (HISTORY_ROW as int)
}

/// Decides whether the contents of a cell are framed as a price history.
pub fn is_history_framed(data: &[u8]) -> (r: bool)
    ensures
        r == history_framed(data@),
{
    let length = data.len();
    if length < HISTORY_HEADER {
        return false;
    }
    let mut i: usize = 0;
    while i < 8
        invariant
            i <= 8,
            length == data@.len(),
            length >= HISTORY_HEADER,
            forall|k: int| 0 <= k < i ==> data@[k] == HISTORY_TAG@[k],
        decreases 8 - i,
    {
        if data[i] != HISTORY_TAG[i] {
            assert(data@.subrange(0, 8)[i as int] != HISTORY_TAG@[i as int]);
            return false;
        }
        i += 1;
    }
    assert(data@.subrange(0, 8) =~= HISTORY_TAG@);
    let rows = (length - HISTORY_HEADER) / HISTORY_ROW;
    (length - HISTORY_HEADER) % HISTORY_ROW == 0 && (read_u32(data, 8) as usize) < rows
}

/// How many rows a framed history holds.
pub open spec fn history_rows(data: Seq<u8>) -> int {
    (data.len() - HISTORY_HEADER) / (HISTORY_ROW as int)
}

/// The row of a history at an index: its timestamp, its mantissa and its
/// scale, one after the other and least significant byte first.
pub open spec fn history_row(data: Seq<u8>, row: int) -> (i64, i128, u32) {
    let at = HISTORY_HEADER + HISTORY_ROW * row;
    (i64_at(data, at), i128_at(data, at + 8), u32_at(data, at + 24))
}

/// Whether a sample is one of the rows of a history.
pub open spec fn is_row(data: Seq<u8>, sample: (i64, i128, u32)) -> bool {
    exists|row: int| 0 <= row < history_rows(data) && #[trigger] history_row(data, row) == sample
}

/// Whether no row of a history was sampled at or before a time.
pub open spec fn no_sample_at_or_before(data: Seq<u8>, time: int) -> bool {
    forall|row: int| 0 <= row < history_rows(data) ==> (#[trigger] history_row(data, row)).0 > time
}

/// Reads one row of a framed history.
pub fn read_row(data: &[u8], row: usize) -> (r: PriceSample)
    requires
        history_framed(data@),
        row < history_rows(data@),
    ensures
        (r.timestamp, r.mantissa, r.scale) == history_row(data@, row as int),
{
    let length = data.len();
    assert(HISTORY_HEADER + HISTORY_ROW * row + HISTORY_ROW <= length) by (nonlinear_arith)
        requires
            row < (length - HISTORY_HEADER) / (HISTORY_ROW as int),
            length >= HISTORY_HEADER,
    ;
    let at = HISTORY_HEADER + HISTORY_ROW * row;
    PriceSample {
        timestamp: read_i64(data, at),
        mantissa: read_i128(data, at + 8),
        scale: read_u32(data, at + 24),
    }
}

/// The sample that a price history gives for a time, as
/// `AggregatorHistoryBuffer::lower_bound` of switchboard_v2 finds it; `None`
/// where it finds none.
pub uninterp spec fn history_sample(data: Seq<u8>, timestamp: i64) -> Option<(i64, i128, u32)>;

/// Calls `AggregatorHistoryBuffer::new` and then `lower_bound` of
/// switchboard_v2 on a copy of the contents, placed where the four bytes of
/// the index are aligned, as `new` reads them in place. `new` fails on
/// another tag and panics on contents that are no whole rows behind the
/// header; `lower_bound` panics on an index that names no row: `requires`
/// leaves all of these out. The contract gives the result a name, as it
/// depends on the contents and the time alone, and says of it what the body
/// of `lower_bound` shows: what it hands out is a copy of one of the rows.
/// The rows are read in the byte order of the machine, which is least
/// significant byte first wherever the host runs.
#[verifier::external_body]
fn lower_bound(data: &[u8], timestamp: i64) -> (r: Option<PriceSample>)
    requires
        history_framed(data@),
    ensures
        match r {
            Some(sample) => history_sample(data@, timestamp) == Some(
                (sample.timestamp, sample.mantissa, sample.scale),
            ) && is_row(data@, (sample.timestamp, sample.mantissa, sample.scale)),
            None => history_sample(data@, timestamp) is None,
        },
{
    let mut buffer = vec![0u8; data.len() + 3];
    let start = buffer.as_ptr().align_offset(4);
    let cell = &mut buffer[start..start + data.len()];
    cell.copy_from_slice(data);
    let (key, mut lamports) = (Pubkey::new_from_array([0u8; 32]), 0u64);
    let account = AccountInfo::new(&key, false, false, &mut lamports, cell, &key, false, 0);
    let history = AggregatorHistoryBuffer::new(&account).ok()?;
    history.lower_bound(timestamp).map(
        |row| PriceSample { timestamp: row.timestamp, mantissa: row.value.mantissa, scale: row.value.scale },
    )
}

/// What reading a feed for a time comes to: the sample that the history
/// gives, or that the cell holds no history, or that the history gives no
/// sample, or none that is at or before the time.
pub open spec fn feed_sample(data: Seq<u8>, time: u32, role: Role) -> Result<PriceSample, ProcessError> {
    if !history_framed(data) {
        Err(ProcessError::InvalidAccountData)
    } else {
        match history_sample(data, time as i64) {
            Some((timestamp, mantissa, scale)) => if timestamp <= time {
                Ok(PriceSample { timestamp, mantissa, scale })
            } else {
                Err(ProcessError::MissingSample(role))
            },
            None => Err(ProcessError::MissingSample(role)),
        }
    }
}

/// Reads from a feed's history the sample for `time`. The sample is a row of
/// the history, taken at or before `time`: a history without such a row is
/// a failure, never a reason to go on with a later sample.
pub fn read_feed(data: &[u8], time: u32, role: Role) -> (r: Result<PriceSample, ProcessError>)
    ensures
        r == feed_sample(data@, time, role),
        r matches Ok(sample) ==> sample.timestamp <= time && is_row(
            data@,
            (sample.timestamp, sample.mantissa, sample.scale),
        ),
        history_framed(data@) && no_sample_at_or_before(data@, time as int) ==> r == Err::<
            PriceSample,
            ProcessError,
        >(ProcessError::MissingSample(role)),
{
    if !is_history_framed(data) {
        return Err(ProcessError::InvalidAccountData);
    }
    match lower_bound(data, time as i64) {
        Some(sample) => if sample.timestamp <= time as i64 {
            Ok(sample)
        } else {
            Err(ProcessError::MissingSample(role))
        },
        None => Err(ProcessError::MissingSample(role)),
    }
}

} // verus!
