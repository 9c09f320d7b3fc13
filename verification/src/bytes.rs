//! Little-endian views of kernel reply buffers.
//!
//! Kernel replies arrive as raw byte buffers carrying fixed-layout structures;
//! every multi-byte field in them is little-endian. These readers and writers
//! are verified against the arithmetic definition of that encoding, and all
//! reads are bounds-checked by contract.

use vstd::prelude::*;

verus! {

/// The 16-bit little-endian value stored at byte offset `i` of `b`.
pub open spec fn le16_at(b: Seq<u8>, i: int) -> u16 {
    (b[i] + b[i + 1] * 0x100) as u16
}

/// The 32-bit little-endian value stored at byte offset `i` of `b`.
pub open spec fn le32_at(b: Seq<u8>, i: int) -> u32 {
    (b[i] + b[i + 1] * 0x100 + b[i + 2] * 0x1_0000 + b[i + 3] * 0x100_0000) as u32
}

/// The 64-bit little-endian value stored at byte offset `i` of `b`.
pub open spec fn le64_at(b: Seq<u8>, i: int) -> u64 {
    (b[i] + b[i + 1] * 0x100 + b[i + 2] * 0x1_0000 + b[i + 3] * 0x100_0000
        + b[i + 4] * 0x1_0000_0000 + b[i + 5] * 0x100_0000_0000
        + b[i + 6] * 0x1_0000_0000_0000 + b[i + 7] * 0x100_0000_0000_0000) as u64
}

/// Reads the little-endian `u16` at offset `i`.
pub fn read_le16(b: &[u8], i: usize) -> (r: u16)
    requires
        i + 2 <= b@.len(),
    ensures
        r == le16_at(b@, i as int),
{
    b[i] as u16 + b[i + 1] as u16 * 0x100
}

/// Reads the little-endian `u32` at offset `i`.
pub fn read_le32(b: &[u8], i: usize) -> (r: u32)
    requires
        i + 4 <= b@.len(),
    ensures
        r == le32_at(b@, i as int),
{
    b[i] as u32 + b[i + 1] as u32 * 0x100 + b[i + 2] as u32 * 0x1_0000
        + b[i + 3] as u32 * 0x100_0000
}

/// Reads the little-endian `u64` at offset `i`.
pub fn read_le64(b: &[u8], i: usize) -> (r: u64)
    requires
        i + 8 <= b@.len(),
    ensures
        r == le64_at(b@, i as int),
{
    b[i] as u64 + b[i + 1] as u64 * 0x100 + b[i + 2] as u64 * 0x1_0000
        + b[i + 3] as u64 * 0x100_0000 + b[i + 4] as u64 * 0x1_0000_0000
        + b[i + 5] as u64 * 0x100_0000_0000 + b[i + 6] as u64 * 0x1_0000_0000_0000
        + b[i + 7] as u64 * 0x100_0000_0000_0000
}

/// The four little-endian bytes of `v`.
pub open spec fn le32_bytes(v: u32) -> Seq<u8> {
    seq![
        (v % 0x100) as u8,
        ((v / 0x100) % 0x100) as u8,
        ((v / 0x1_0000) % 0x100) as u8,
        ((v / 0x100_0000) % 0x100) as u8,
    ]
}

/// The little-endian byte string of a sequence of 32-bit words.
pub open spec fn le32_words_bytes(ws: Seq<u32>) -> Seq<u8>
    decreases ws.len(),
{
    if ws.len() == 0 {
        Seq::empty()
    } else {
        le32_bytes(ws[0]) + le32_words_bytes(ws.drop_first())
    }
}

/// Appends the four little-endian bytes of `v` to `out`.
pub fn push_le32(out: &mut Vec<u8>, v: u32)
    ensures
        final(out)@ == old(out)@ + le32_bytes(v),
{
    out.push((v % 0x100) as u8);
    out.push(((v / 0x100) % 0x100) as u8);
    out.push(((v / 0x1_0000) % 0x100) as u8);
    out.push(((v / 0x100_0000) % 0x100) as u8);
    assert(out@ =~= old(out)@ + le32_bytes(v));
}

} // verus!
