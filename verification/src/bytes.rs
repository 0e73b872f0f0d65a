use vstd::prelude::*;

verus! {

/// The two bytes of a `u16`, least significant first.
pub open spec fn u16_le(x: u16) -> Seq<u8> {
    seq![(x % 256) as u8, (x / 256) as u8]
}

/// The four bytes of a `u32`, least significant first.
pub open spec fn u32_le(x: u32) -> Seq<u8> {
    seq![
        (x % 256) as u8,
        (x / 0x100 % 256) as u8,
        (x / 0x1_0000 % 256) as u8,
        (x / 0x100_0000) as u8,
    ]
}

/// The eight bytes of a `u64`, least significant first.
pub open spec fn u64_le(x: u64) -> Seq<u8> {
    u32_le((x % 0x1_0000_0000) as u32) + u32_le((x / 0x1_0000_0000) as u32)
}

/// The `u16` that two bytes at `at` encode, least significant first.
pub open spec fn u16_at(data: Seq<u8>, at: int) -> u16 {
    (data[at] + 0x100 * data[at + 1]) as u16
}

/// The `u32` that four bytes at `at` encode, least significant first.
pub open spec fn u32_at(data: Seq<u8>, at: int) -> u32 {
    (data[at] + 0x100 * data[at + 1] + 0x1_0000 * data[at + 2] + 0x100_0000 * data[at + 3]) as u32
}

/// The `u64` that eight bytes at `at` encode, least significant first.
pub open spec fn u64_at(data: Seq<u8>, at: int) -> u64 {
    (u32_at(data, at) + 0x1_0000_0000 * u32_at(data, at + 4)) as u64
}

/// Reading back what `u16_le` wrote gives the number.
pub proof fn lemma_u16_round_trip(x: u16, before: Seq<u8>, after: Seq<u8>)
    ensures
        u16_at(before + u16_le(x) + after, before.len() as int) == x,
{
}

/// Reading back what `u32_le` wrote gives the number.
pub proof fn lemma_u32_round_trip(x: u32, before: Seq<u8>, after: Seq<u8>)
    ensures
        u32_at(before + u32_le(x) + after, before.len() as int) == x,
{
}

/// Reading back what `u64_le` wrote gives the number.
pub proof fn lemma_u64_round_trip(x: u64, before: Seq<u8>, after: Seq<u8>)
    ensures
        u64_at(before + u64_le(x) + after, before.len() as int) == x,
{
    let low = (x % 0x1_0000_0000) as u32;
    let high = (x / 0x1_0000_0000) as u32;
    let data = before + u64_le(x) + after;
    assert(data =~= before + u32_le(low) + (u32_le(high) + after));
    lemma_u32_round_trip(low, before, u32_le(high) + after);
    assert(data =~= (before + u32_le(low)) + u32_le(high) + after);
    lemma_u32_round_trip(high, before + u32_le(low), after);
}

/// Appends the two bytes of `x`.
pub fn push_u16(out: &mut Vec<u8>, x: u16)
    ensures
        final(out)@ == old(out)@ + u16_le(x),
{
    out.push((x % 256) as u8);
    out.push((x / 256) as u8);
    assert(out@ =~= old(out)@ + u16_le(x));
}

/// Appends the four bytes of `x`.
pub fn push_u32(out: &mut Vec<u8>, x: u32)
    ensures
        final(out)@ == old(out)@ + u32_le(x),
{
    out.push((x % 256) as u8);
    out.push((x / 0x100 % 256) as u8);
    out.push((x / 0x1_0000 % 256) as u8);
    out.push((x / 0x100_0000) as u8);
    assert(out@ =~= old(out)@ + u32_le(x));
}

/// Appends the eight bytes of `x`.
pub fn push_u64(out: &mut Vec<u8>, x: u64)
    ensures
        final(out)@ == old(out)@ + u64_le(x),
{
    push_u32(out, (x % 0x1_0000_0000) as u32);
    push_u32(out, (x / 0x1_0000_0000) as u32);
    assert(out@ =~= old(out)@ + u64_le(x));
}

/// Reads the `u16` at `at`.
pub fn read_u16(data: &[u8], at: usize) -> (r: u16)
    requires
        at + 2 <= data@.len(),
    ensures
        r == u16_at(data@, at as int),
{
    data[at] as u16 + 0x100 * (data[at + 1] as u16)
}

/// Reads the `u32` at `at`.
pub fn read_u32(data: &[u8], at: usize) -> (r: u32)
    requires
        at + 4 <= data@.len(),
    ensures
        r == u32_at(data@, at as int),
{
    data[at] as u32 + 0x100 * (data[at + 1] as u32) + 0x1_0000 * (data[at + 2] as u32) + 0x100_0000
        * (data[at + 3] as u32)
}

/// Reads the `u64` at `at`.
pub fn read_u64(data: &[u8], at: usize) -> (r: u64)
    requires
        at + 8 <= data@.len(),
    ensures
        r == u64_at(data@, at as int),
{
    let length = data.len();
    assert(at + 8 <= length);
    read_u32(data, at) as u64 + 0x1_0000_0000 * (read_u32(data, at + 4) as u64)
}

/// The `u128` that sixteen bytes at `at` encode, least significant first.
pub open spec fn u128_at(data: Seq<u8>, at: int) -> u128 {
    (u64_at(data, at) + 0x1_0000_0000_0000_0000 * u64_at(data, at + 8)) as u128
}

/// The `i64` that eight bytes at `at` encode in two's complement, least
/// significant first.
pub open spec fn i64_at(data: Seq<u8>, at: int) -> i64 {
    let raw = u64_at(data, at);
    if raw >= 0x8000_0000_0000_0000 {
        (raw - 0x1_0000_0000_0000_0000) as i64
    } else {
        raw as i64
    }
}

/// The `i128` that sixteen bytes at `at` encode in two's complement, least
/// significant first.
pub open spec fn i128_at(data: Seq<u8>, at: int) -> i128 {
    let raw = u128_at(data, at);
    if raw >= 0x8000_0000_0000_0000_0000_0000_0000_0000 {
        (raw - 0x1_0000_0000_0000_0000_0000_0000_0000_0000) as i128
    } else {
        raw as i128
    }
}

/// Reads the `i64` at `at`.
pub fn read_i64(data: &[u8], at: usize) -> (r: i64)
    requires
        at + 8 <= data@.len(),
    ensures
        r == i64_at(data@, at as int),
{
    let raw = read_u64(data, at);
    if raw >= 0x8000_0000_0000_0000 {
        (raw - 0x8000_0000_0000_0000) as i64 + i64::MIN
    } else {
        raw as i64
    }
}

/// Reads the `i128` at `at`.
pub fn read_i128(data: &[u8], at: usize) -> (r: i128)
    requires
        at + 16 <= data@.len(),
    ensures
        r == i128_at(data@, at as int),
{
    let length = data.len();
    assert(at + 16 <= length);
    let raw: u128 = read_u64(data, at) as u128 + 0x1_0000_0000_0000_0000 * (read_u64(data, at + 8)
        as u128);
    if raw >= 0x8000_0000_0000_0000_0000_0000_0000_0000 {
        (raw - 0x8000_0000_0000_0000_0000_0000_0000_0000) as i128 + i128::MIN
    } else {
        raw as i128
    }
}

/// A cell's contents after `prefix` was written at its start.
pub open spec fn overwritten(cell: Seq<u8>, prefix: Seq<u8>) -> Seq<u8> {
    prefix + cell.subrange(prefix.len() as int, cell.len() as int)
}

/// Writes `prefix` at the start of a copy of `cell`.
pub fn overwrite(cell: &[u8], prefix: &Vec<u8>) -> (r: Vec<u8>)
    requires
        prefix@.len() <= cell@.len(),
    ensures
        r@ == overwritten(cell@, prefix@),
{
    let mut r: Vec<u8> = prefix.clone();
    let mut i: usize = prefix.len();
    assert(r@ =~= prefix@);
    while i < cell.len()
        invariant
            prefix@.len() <= i <= cell@.len(),
            r@ == prefix@ + cell@.subrange(prefix@.len() as int, i as int),
        decreases cell@.len() - i,
    {
        r.push(cell[i]);
        assert(cell@.subrange(prefix@.len() as int, i + 1) =~= cell@.subrange(
            prefix@.len() as int,
            i as int,
        ).push(cell@[i as int]));
        i += 1;
    }
    r
}

} // verus!
