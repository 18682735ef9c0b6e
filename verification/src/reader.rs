//! Cursor-based readers for the fixed-width fields of a frame.

use vstd::prelude::*;
use crate::error::DecodeError;
use crate::wire::le_u32;

verus! {

/// Assembles four bytes, least significant first, into a `u32`.
pub fn u32_from_le(b0: u8, b1: u8, b2: u8, b3: u8) -> (v: u32)
    ensures
        v == b0 as int + 0x100 * (b1 as int) + 0x1_0000 * (b2 as int) + 0x100_0000 * (b3 as int),
{
    let v = (b0 as u32) | (b1 as u32) << 8 | (b2 as u32) << 16 | (b3 as u32) << 24;
    assert(v == b0 as u32 + 0x100 * (b1 as u32) + 0x1_0000 * (b2 as u32) + 0x100_0000 * (b3 as u32))
        by (bit_vector)
        requires
            v == (b0 as u32) | (b1 as u32) << 8 | (b2 as u32) << 16 | (b3 as u32) << 24,
    ;
    v
}

/// Reads a little-endian `u32` at the cursor and advances the cursor past it.
///
/// Fails, leaving the cursor where it was, when fewer than four bytes remain.
pub fn read_u32(buf: &[u8], off: &mut usize) -> (res: Result<u32, DecodeError>)
    ensures
        *old(off) + 4 <= buf@.len() ==> res == Ok::<u32, DecodeError>(le_u32(buf@, *old(off) as int))
            && *final(off) == *old(off) + 4,
        *old(off) + 4 > buf@.len() ==> res == Err::<u32, DecodeError>(DecodeError::Truncated)
            && *final(off) == *old(off),
{
    let at: usize = *off;
    if at > buf.len() || buf.len() - at < 4 {
        return Err(DecodeError::Truncated);
    }
    let v = u32_from_le(buf[at], buf[at + 1], buf[at + 2], buf[at + 3]);
    *off = at + 4;
    Ok(v)
}

/// Reads one byte at the cursor and advances the cursor past it.
///
/// Fails, leaving the cursor where it was, when no byte remains.
pub fn read_u8(buf: &[u8], off: &mut usize) -> (res: Result<u8, DecodeError>)
    ensures
        *old(off) < buf@.len() ==> res == Ok::<u8, DecodeError>(buf@[*old(off) as int])
            && *final(off) == *old(off) + 1,
        *old(off) >= buf@.len() ==> res == Err::<u8, DecodeError>(DecodeError::Truncated)
            && *final(off) == *old(off),
{
    let at: usize = *off;
    if at >= buf.len() {
        return Err(DecodeError::Truncated);
    }
    let v = buf[at];
    *off = at + 1;
    Ok(v)
}

/// Reads a little-endian binary32 value at the cursor, as its bit pattern, and
/// advances the cursor past it.
///
/// Fails, leaving the cursor where it was, when fewer than four bytes remain.
pub fn read_f32(buf: &[u8], off: &mut usize) -> (res: Result<u32, DecodeError>)
    ensures
        *old(off) + 4 <= buf@.len() ==> res == Ok::<u32, DecodeError>(le_u32(buf@, *old(off) as int))
            && *final(off) == *old(off) + 4,
        *old(off) + 4 > buf@.len() ==> res == Err::<u32, DecodeError>(DecodeError::Truncated)
            && *final(off) == *old(off),
{
    read_u32(buf, off)
}

} // verus!
