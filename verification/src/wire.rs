//! The wire format, as mathematics over byte sequences.
//!
//! ```text
//! frame  := header_len:u32le  header:[u8; header_len]  record*
//! record := id:u32le  type_code:u8  x:f32le  y:f32le
//! ```
//!
//! The header is UTF-8 text. Records repeat until the end of the buffer and must
//! fill it exactly. The two coordinates are IEEE-754 binary32 values; they are
//! carried here as their 32-bit patterns, untouched, so that NaN payloads and
//! signed zeros survive decoding.

use vstd::prelude::*;
use vstd::utf8::{decode_utf8, encode_utf8, valid_utf8};
use crate::error::DecodeError;

verus! {

/// Width of the header length prefix.
pub const LEN_PREFIX_BYTES: usize = 4;

/// Width of one record: 4 (id) + 1 (type code) + 4 (x) + 4 (y).
pub const RECORD_BYTES: usize = 13;

/// Offset of the type code within a record.
pub const TYPE_CODE_OFFSET: usize = 4;

/// Offset of the x coordinate within a record.
pub const X_OFFSET: usize = 5;

/// Offset of the y coordinate within a record.
pub const Y_OFFSET: usize = 9;

/// The value whose little-endian encoding is `bytes[at..at + 4]`.
pub open spec fn le_u32(bytes: Seq<u8>, at: int) -> u32
    recommends
        0 <= at,
        at + 4 <= bytes.len(),
{
    (bytes[at] as int + 0x100 * (bytes[at + 1] as int) + 0x1_0000 * (bytes[at + 2] as int)
        + 0x100_0000 * (bytes[at + 3] as int)) as u32
}

/// What a frame decodes to: the header text and four columns of equal length,
/// one entry per record, in the order of the records on the wire.
pub struct FrameView {
    pub header: Seq<char>,
    pub ids: Seq<u32>,
    pub type_codes: Seq<u8>,
    /// Bit patterns of the x coordinates.
    pub xs: Seq<u32>,
    /// Bit patterns of the y coordinates.
    pub ys: Seq<u32>,
}

impl FrameView {
    /// The view with no header text and no records.
    pub open spec fn empty() -> FrameView {
        FrameView {
            header: Seq::empty(),
            ids: Seq::empty(),
            type_codes: Seq::empty(),
            xs: Seq::empty(),
            ys: Seq::empty(),
        }
    }

    /// Number of records, read off the id column.
    pub open spec fn len(self) -> nat {
        self.ids.len()
    }

    /// All four columns have the same length.
    pub open spec fn rectangular(self) -> bool {
        &&& self.type_codes.len() == self.ids.len()
        &&& self.xs.len() == self.ids.len()
        &&& self.ys.len() == self.ids.len()
    }
}

/// The header length that the prefix declares.
pub open spec fn declared_header_len(bytes: Seq<u8>) -> int
    recommends
        bytes.len() >= LEN_PREFIX_BYTES,
{
    le_u32(bytes, 0) as int
}

/// Offset of the first record.
pub open spec fn records_start(bytes: Seq<u8>) -> int
    recommends
        bytes.len() >= LEN_PREFIX_BYTES,
{
    LEN_PREFIX_BYTES + declared_header_len(bytes)
}

/// The length prefix and the header text it announces are both inside the buffer.
pub open spec fn header_complete(bytes: Seq<u8>) -> bool {
    bytes.len() >= LEN_PREFIX_BYTES && records_start(bytes) <= bytes.len()
}

/// The bytes of the header text.
pub open spec fn header_bytes(bytes: Seq<u8>) -> Seq<u8>
    recommends
        header_complete(bytes),
{
    bytes.subrange(LEN_PREFIX_BYTES as int, records_start(bytes))
}

/// Number of bytes after the header.
pub open spec fn body_len(bytes: Seq<u8>) -> int
    recommends
        header_complete(bytes),
{
    bytes.len() - records_start(bytes)
}

/// Number of complete records after the header.
pub open spec fn record_count(bytes: Seq<u8>) -> int
    recommends
        header_complete(bytes),
{
    body_len(bytes) / (RECORD_BYTES as int)
}

/// Offset of record `i`.
pub open spec fn record_offset(bytes: Seq<u8>, i: int) -> int {
    records_start(bytes) + RECORD_BYTES * i
}

/// Id of record `i`.
pub open spec fn record_id(bytes: Seq<u8>, i: int) -> u32
    recommends
        header_complete(bytes),
        0 <= i < record_count(bytes),
{
    le_u32(bytes, record_offset(bytes, i))
}

/// Type code of record `i`.
pub open spec fn record_type_code(bytes: Seq<u8>, i: int) -> u8
    recommends
        header_complete(bytes),
        0 <= i < record_count(bytes),
{
    bytes[record_offset(bytes, i) + TYPE_CODE_OFFSET]
}

/// Bit pattern of the x coordinate of record `i`.
pub open spec fn record_x(bytes: Seq<u8>, i: int) -> u32
    recommends
        header_complete(bytes),
        0 <= i < record_count(bytes),
{
    le_u32(bytes, record_offset(bytes, i) + X_OFFSET)
}

/// Bit pattern of the y coordinate of record `i`.
pub open spec fn record_y(bytes: Seq<u8>, i: int) -> u32
    recommends
        header_complete(bytes),
        0 <= i < record_count(bytes),
{
    le_u32(bytes, record_offset(bytes, i) + Y_OFFSET)
}

/// The contents of a well-formed frame.
pub open spec fn frame_contents(bytes: Seq<u8>) -> FrameView
    recommends
        header_complete(bytes),
        valid_utf8(header_bytes(bytes)),
{
    let n = record_count(bytes) as nat;
    FrameView {
        header: decode_utf8(header_bytes(bytes)),
        ids: Seq::new(n, |i: int| record_id(bytes, i)),
        type_codes: Seq::new(n, |i: int| record_type_code(bytes, i)),
        xs: Seq::new(n, |i: int| record_x(bytes, i)),
        ys: Seq::new(n, |i: int| record_y(bytes, i)),
    }
}

/// The outcome of decoding `bytes` with room for at most `max_records` records.
///
/// Faults are reported in the order in which a single pass over the buffer meets
/// them: an incomplete header first, then malformed header text, then a
/// complete record beyond the limit, then a partial record at the end.
pub open spec fn decode_outcome(bytes: Seq<u8>, max_records: nat) -> Result<
    FrameView,
    DecodeError,
> {
    if !header_complete(bytes) {
        Err(DecodeError::Truncated)
    } else if !valid_utf8(header_bytes(bytes)) {
        Err(DecodeError::InvalidEncoding)
    } else if record_count(bytes) > max_records {
        Err(DecodeError::CapacityExceeded)
    } else if body_len(bytes) % (RECORD_BYTES as int) != 0 {
        Err(DecodeError::Truncated)
    } else {
        Ok(frame_contents(bytes))
    }
}

/// One record, as it stands on the wire.
pub struct Record {
    pub id: u32,
    pub type_code: u8,
    /// Bit pattern of the x coordinate.
    pub x: u32,
    /// Bit pattern of the y coordinate.
    pub y: u32,
}

impl FrameView {
    /// The view that holds `header` and one column entry per record.
    pub open spec fn of(header: Seq<char>, records: Seq<Record>) -> FrameView {
        FrameView {
            header,
            ids: records.map_values(|r: Record| r.id),
            type_codes: records.map_values(|r: Record| r.type_code),
            xs: records.map_values(|r: Record| r.x),
            ys: records.map_values(|r: Record| r.y),
        }
    }

    /// The view with the same header and only the first `n` records.
    pub open spec fn first(self, n: int) -> FrameView
        recommends
            0 <= n <= self.len(),
    {
        FrameView {
            header: self.header,
            ids: self.ids.take(n),
            type_codes: self.type_codes.take(n),
            xs: self.xs.take(n),
            ys: self.ys.take(n),
        }
    }
}

/// The little-endian encoding of `v`.
pub open spec fn u32_le_bytes(v: u32) -> Seq<u8> {
    seq![
        (v % 0x100) as u8,
        (v / 0x100 % 0x100) as u8,
        (v / 0x1_0000 % 0x100) as u8,
        (v / 0x100_0000) as u8,
    ]
}

/// The encoding of one record.
pub open spec fn record_bytes(r: Record) -> Seq<u8> {
    u32_le_bytes(r.id) + seq![r.type_code] + u32_le_bytes(r.x) + u32_le_bytes(r.y)
}

/// The encodings of `records`, one after another.
pub open spec fn records_bytes(records: Seq<Record>) -> Seq<u8>
    decreases records.len(),
{
    if records.len() == 0 {
        Seq::empty()
    } else {
        records_bytes(records.drop_last()) + record_bytes(records.last())
    }
}

/// The frame that carries `header` and `records`.
pub open spec fn frame_bytes(header: Seq<char>, records: Seq<Record>) -> Seq<u8>
    recommends
        encode_utf8(header).len() <= u32::MAX,
{
    u32_le_bytes(encode_utf8(header).len() as u32) + encode_utf8(header) + records_bytes(records)
}

} // verus!
