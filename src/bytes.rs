//! Little-endian integer reads at fixed offsets of a byte buffer.
use vstd::prelude::*;

verus! {

/// The `u16` whose little-endian bytes are `b0, b1`.
pub open spec fn u16_from_le(b0: u8, b1: u8) -> u16 {
    ((b0 as u16) | ((b1 as u16) << 8u16)) as u16
}

/// The `u32` whose little-endian bytes are `b0, b1, b2, b3`.
pub open spec fn u32_from_le(b0: u8, b1: u8, b2: u8, b3: u8) -> u32 {
    ((b0 as u32) | ((b1 as u32) << 8u32) | ((b2 as u32) << 16u32) | ((b3 as u32) << 24u32)) as u32
}

/// The little-endian `u16` stored at `at` in `s`.
pub open spec fn le_u16(s: Seq<u8>, at: int) -> u16 {
    u16_from_le(s[at], s[at + 1])
}

/// The little-endian `u32` stored at `at` in `s`.
pub open spec fn le_u32(s: Seq<u8>, at: int) -> u32 {
    u32_from_le(s[at], s[at + 1], s[at + 2], s[at + 3])
}

/// Reads the little-endian `u16` at offset `at`.
pub fn read_u16_le(data: &[u8], at: usize) -> (r: u16)
    requires
        at + 2 <= data@.len(),
    ensures
        r == le_u16(data@, at as int),
{
    let b0 = data[at] as u16;
    let b1 = data[at + 1] as u16;
    b0 | (b1 << 8u16)
}

/// Reads the little-endian `u32` at offset `at`.
pub fn read_u32_le(data: &[u8], at: usize) -> (r: u32)
    requires
        at + 4 <= data@.len(),
    ensures
        r == le_u32(data@, at as int),
{
    let b0 = data[at] as u32;
    let b1 = data[at + 1] as u32;
    let b2 = data[at + 2] as u32;
    let b3 = data[at + 3] as u32;
    b0 | (b1 << 8u32) | (b2 << 16u32) | (b3 << 24u32)
}

} // verus!
