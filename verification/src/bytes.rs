//! Little-endian fields of a byte sequence.

use vstd::prelude::*;

verus! {

/// The two-byte number at `offset`.
pub open spec fn le16(data: Seq<u8>, offset: int) -> int {
    data[offset] + data[offset + 1] * 0x100
}

/// The four-byte number at `offset`.
pub open spec fn le32(data: Seq<u8>, offset: int) -> int {
    le16(data, offset) + le16(data, offset + 2) * 0x1_0000
}

/// The eight-byte number at `offset`.
pub open spec fn le64(data: Seq<u8>, offset: int) -> int {
    le32(data, offset) + le32(data, offset + 4) * 0x1_0000_0000
}

/// Reads the two-byte field at `offset`.
pub fn u16_at(data: &[u8], offset: usize) -> (value: u16)
    requires
        offset + 2 <= data@.len(),
    ensures
        value == le16(data@, offset as int),
        data@[offset as int] == value % 0x100,
        data@[offset + 1] == value / 0x100,
{
    data[offset] as u16 + data[offset + 1] as u16 * 0x100
}

/// Reads the four-byte field at `offset`.
pub fn u32_at(data: &[u8], offset: usize) -> (value: u32)
    requires
        offset + 4 <= data@.len(),
    ensures
        value == le32(data@, offset as int),
        value == data@[offset as int] + data@[offset + 1] * 0x100 + data@[offset + 2] * 0x1_0000
            + data@[offset + 3] * 0x100_0000,
{
    assert(offset + 4 <= data.len());
    u16_at(data, offset) as u32 + u16_at(data, offset + 2) as u32 * 0x1_0000
}

/// Reads the eight-byte field at `offset`.
pub fn u64_at(data: &[u8], offset: usize) -> (value: u64)
    requires
        offset + 8 <= data@.len(),
    ensures
        value == le64(data@, offset as int),
        value == data@[offset as int] + data@[offset + 1] * 0x100 + data@[offset + 2] * 0x1_0000
            + data@[offset + 3] * 0x100_0000 + data@[offset + 4] * 0x1_0000_0000 + data@[offset
            + 5] * 0x100_0000_0000 + data@[offset + 6] * 0x1_0000_0000_0000 + data@[offset + 7]
            * 0x100_0000_0000_0000,
{
    assert(offset + 8 <= data.len());
    u32_at(data, offset) as u64 + u32_at(data, offset + 4) as u64 * 0x1_0000_0000
}

/// A field reads the same in a window onto the data as in the data itself.
pub proof fn law_fields_in_a_window(data: Seq<u8>, start: int, end: int, offset: int)
    requires
        0 <= start <= end <= data.len(),
        0 <= offset,
    ensures
        offset + 2 <= end - start ==> le16(data.subrange(start, end), offset) == le16(
            data,
            start + offset,
        ),
        offset + 4 <= end - start ==> le32(data.subrange(start, end), offset) == le32(
            data,
            start + offset,
        ),
        offset + 8 <= end - start ==> le64(data.subrange(start, end), offset) == le64(
            data,
            start + offset,
        ),
{
}

/// A field holds its bytes as digits of base 256, the first byte lowest: every byte can be read
/// off the number, and the number has no digit beyond them.
pub proof fn law_fields_give_back_their_bytes(data: Seq<u8>, offset: int)
    ensures
        le16(data, offset) % 0x100 == data[offset],
        le16(data, offset) / 0x100 == data[offset + 1],
        le32(data, offset) % 0x1_0000 == le16(data, offset),
        le32(data, offset) / 0x1_0000 == le16(data, offset + 2),
        le64(data, offset) % 0x1_0000_0000 == le32(data, offset),
        le64(data, offset) / 0x1_0000_0000 == le32(data, offset + 4),
{
}

} // verus!
