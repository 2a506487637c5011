//! Little-endian readers over byte buffers, the ground layer of the frame
//! and ancillary-data decoders.
use vstd::prelude::*;

verus! {

/// Mathematical value of the 4 bytes at `off`, little endian.
pub open spec fn le32(s: Seq<u8>, off: int) -> int
    recommends
        0 <= off,
        off + 4 <= s.len(),
{
    s[off] as int + 0x100 * (s[off + 1] as int) + 0x1_0000 * (s[off + 2] as int) + 0x100_0000 * (
    s[off + 3] as int)
}

/// Mathematical value of the 8 bytes at `off`, little endian.
pub open spec fn le64(s: Seq<u8>, off: int) -> int
    recommends
        0 <= off,
        off + 8 <= s.len(),
{
    le32(s, off) + 0x1_0000_0000 * le32(s, off + 4)
}

/// Two's-complement reading of a 64-bit unsigned value.
pub open spec fn signed64(u: int) -> int {
    if u >= 0x8000_0000_0000_0000 {
        u - 0x1_0000_0000_0000_0000
    } else {
        u
    }
}

/// Reads the little-endian `u32` at `off`.
pub(crate) fn read_u32_le(s: &Vec<u8>, off: usize) -> (r: u32)
    requires
        off + 4 <= s@.len(),
        s@.len() <= usize::MAX as int,
    ensures
        r as int == le32(s@, off as int),
{
    (s[off] as u32) + 0x100u32 * (s[off + 1] as u32) + 0x1_0000u32 * (s[off + 2] as u32)
        + 0x100_0000u32 * (s[off + 3] as u32)
}

/// Reads the little-endian `u64` at `off`.
pub(crate) fn read_u64_le(s: &Vec<u8>, off: usize) -> (r: u64)
    requires
        off + 8 <= s@.len(),
        s@.len() <= usize::MAX as int,
    ensures
        r as int == le64(s@, off as int),
{
    let lo = read_u32_le(s, off);
    let hi = read_u32_le(s, off + 4);
    (lo as u64) + 0x1_0000_0000u64 * (hi as u64)
}

/// Reads the 8 bytes at `off` as a two's-complement signed value, widened
/// to `i128`.
pub(crate) fn read_i64_le_widened(s: &Vec<u8>, off: usize) -> (r: i128)
    requires
        off + 8 <= s@.len(),
        s@.len() <= usize::MAX as int,
    ensures
        r as int == signed64(le64(s@, off as int)),
{
    let u = read_u64_le(s, off);
    if u >= 0x8000_0000_0000_0000u64 {
        (u as i128) - 0x1_0000_0000_0000_0000i128
    } else {
        u as i128
    }
}

} // verus!
