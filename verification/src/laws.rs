//! Laws of the wire format: what decoding does to whole families of buffers.
//!
//! Every law is stated over [`decode_outcome`], the function that the decoder's
//! contract equates its result with.

use vstd::prelude::*;
use vstd::utf8::{
    decode_utf8, encode_utf8, encode_utf8_decode_utf8, encode_utf8_valid_utf8, valid_utf8,
};
use crate::decoder::{held_after, FrameDecoder};
use crate::error::DecodeError;
use crate::wire::{
    body_len, declared_header_len, decode_outcome, frame_bytes, frame_contents, header_bytes,
    header_complete, le_u32, record_bytes, record_count, record_id, record_offset,
    record_type_code, record_x, record_y, records_bytes, records_start, u32_le_bytes, FrameView,
    Record, RECORD_BYTES,
};

verus! {

/// Reading back the little-endian encoding of `v`, wherever it lies in `bytes`,
/// gives `v`.
pub proof fn lemma_le_u32_inverts_encoding(bytes: Seq<u8>, at: int, v: u32)
    requires
        0 <= at,
        at + 4 <= bytes.len(),
        bytes.subrange(at, at + 4) == u32_le_bytes(v),
    ensures
        le_u32(bytes, at) == v,
{
    let field = bytes.subrange(at, at + 4);
    assert(bytes[at] == field[0]);
    assert(bytes[at + 1] == field[1]);
    assert(bytes[at + 2] == field[2]);
    assert(bytes[at + 3] == field[3]);
}

/// Encoded records take `RECORD_BYTES` bytes each.
pub proof fn lemma_records_bytes_len(records: Seq<Record>)
    ensures
        records_bytes(records).len() == RECORD_BYTES * records.len(),
    decreases records.len(),
{
    if records.len() > 0 {
        lemma_records_bytes_len(records.drop_last());
    }
}

/// Record `i` occupies its own `RECORD_BYTES` bytes of the encoded records, in
/// order.
pub proof fn lemma_records_bytes_at(records: Seq<Record>, i: int)
    requires
        0 <= i < records.len(),
    ensures
        RECORD_BYTES * i + RECORD_BYTES <= records_bytes(records).len(),
        records_bytes(records).subrange(RECORD_BYTES * i, RECORD_BYTES * i + RECORD_BYTES)
            == record_bytes(records[i]),
    decreases records.len(),
{
    let front = records.drop_last();
    let lo = RECORD_BYTES * i;
    let hi = lo + RECORD_BYTES;
    lemma_records_bytes_len(records);
    lemma_records_bytes_len(front);
    if i < records.len() - 1 {
        lemma_records_bytes_at(front, i);
        assert(records_bytes(records).subrange(lo, hi) =~= records_bytes(front).subrange(lo, hi));
    } else {
        assert(records_bytes(records).subrange(lo, hi) =~= record_bytes(records.last()));
    }
}

/// Round trip: a frame built from a header and records in the documented
/// layout decodes to exactly that header and those records, field for field,
/// provided the header's length fits the prefix and the records fit the limit.
pub proof fn lemma_decode_inverts_encoding(
    header: Seq<char>,
    records: Seq<Record>,
    max_records: nat,
)
    requires
        encode_utf8(header).len() <= u32::MAX,
        records.len() <= max_records,
    ensures
        decode_outcome(frame_bytes(header, records), max_records) == Ok::<FrameView, DecodeError>(
            FrameView::of(header, records),
        ),
{
    let text = encode_utf8(header);
    let body = records_bytes(records);
    let bytes = frame_bytes(header, records);
    let n = records.len() as int;
    lemma_records_bytes_len(records);
    assert(bytes.subrange(0, 4) =~= u32_le_bytes(text.len() as u32));
    lemma_le_u32_inverts_encoding(bytes, 0, text.len() as u32);
    assert(records_start(bytes) == 4 + text.len());
    assert(bytes.len() == 4 + text.len() + RECORD_BYTES * n);
    assert(header_bytes(bytes) =~= text);
    encode_utf8_valid_utf8(header);
    encode_utf8_decode_utf8(header);
    assert(record_count(bytes) == n);
    assert(body_len(bytes) % (RECORD_BYTES as int) == 0);

    let got = frame_contents(bytes);
    let want = FrameView::of(header, records);
    assert forall|i: int| 0 <= i < n implies {
        &&& record_id(bytes, i) == records[i].id
        &&& record_type_code(bytes, i) == records[i].type_code
        &&& record_x(bytes, i) == records[i].x
        &&& record_y(bytes, i) == records[i].y
    } by {
        let at = record_offset(bytes, i);
        let r = records[i];
        let enc = record_bytes(r);
        lemma_records_bytes_at(records, i);
        assert(bytes.subrange(at, at + 13) =~= body.subrange(13 * i, 13 * i + 13));
        assert(bytes.subrange(at, at + 4) =~= enc.subrange(0, 4));
        assert(enc.subrange(0, 4) =~= u32_le_bytes(r.id));
        assert(bytes[at + 4] == enc[4]);
        assert(bytes.subrange(at + 5, at + 9) =~= enc.subrange(5, 9));
        assert(enc.subrange(5, 9) =~= u32_le_bytes(r.x));
        assert(bytes.subrange(at + 9, at + 13) =~= enc.subrange(9, 13));
        assert(enc.subrange(9, 13) =~= u32_le_bytes(r.y));
        lemma_le_u32_inverts_encoding(bytes, at, r.id);
        lemma_le_u32_inverts_encoding(bytes, at + 5, r.x);
        lemma_le_u32_inverts_encoding(bytes, at + 9, r.y);
    }
    assert(got.ids =~= want.ids);
    assert(got.type_codes =~= want.type_codes);
    assert(got.xs =~= want.xs);
    assert(got.ys =~= want.ys);
}

/// Whatever decodes has columns of one length: the number of complete records,
/// which is within the limit and fills the bytes after the header exactly.
pub proof fn lemma_decoded_columns_align(bytes: Seq<u8>, max_records: nat)
    ensures
        decode_outcome(bytes, max_records) matches Ok(frame) ==> {
            &&& frame.rectangular()
            &&& frame.len() == record_count(bytes)
            &&& frame.len() <= max_records
            &&& RECORD_BYTES * frame.len() == body_len(bytes)
        },
{
}

/// Idempotence: two decoders with the same limit that have each decoded the
/// same bytes hold the same contents, whatever either held before. With
/// `second` taken as `first` after one more call, this is also what decoding
/// the same bytes twice in a row on one decoder gives.
pub proof fn lemma_decode_is_repeatable(first: FrameDecoder, second: FrameDecoder, bytes: Seq<u8>)
    requires
        first.max_records() == second.max_records(),
        first@ == held_after(decode_outcome(bytes, first.max_records() as nat)),
        second@ == held_after(decode_outcome(bytes, second.max_records() as nat)),
    ensures
        first@ == second@,
{
}

/// Two limits that both admit a frame agree on what it decodes to.
pub proof fn lemma_limit_does_not_change_contents(bytes: Seq<u8>, limit_a: nat, limit_b: nat)
    requires
        decode_outcome(bytes, limit_a) is Ok,
        decode_outcome(bytes, limit_b) is Ok,
    ensures
        decode_outcome(bytes, limit_a) == decode_outcome(bytes, limit_b),
{
}

/// A buffer that ends inside the length prefix, inside the header text or inside
/// a record never decodes.
pub proof fn lemma_partial_frame_is_rejected(bytes: Seq<u8>, max_records: nat)
    requires
        !header_complete(bytes) || body_len(bytes) % (RECORD_BYTES as int) != 0,
    ensures
        decode_outcome(bytes, max_records) is Err,
{
}

/// Truncation boundary: a buffer that ends inside the length prefix, inside the
/// header text or inside a record gives `Truncated`, unless a complete header
/// is malformed or the complete records alone exceed the limit, which are
/// reported first.
pub proof fn lemma_partial_frame_is_truncated(bytes: Seq<u8>, max_records: nat)
    requires
        !header_complete(bytes) || body_len(bytes) % (RECORD_BYTES as int) != 0,
        header_complete(bytes) ==> valid_utf8(header_bytes(bytes)) && record_count(bytes)
            <= max_records,
    ensures
        decode_outcome(bytes, max_records) == Err::<FrameView, DecodeError>(
            DecodeError::Truncated,
        ),
{
}

/// Cutting a frame that decodes anywhere but at the end of its header or of one
/// of its records gives `Truncated`.
pub proof fn lemma_cut_inside_field_is_truncated(frame: Seq<u8>, max_records: nat, cut: int)
    requires
        decode_outcome(frame, max_records) is Ok,
        0 <= cut < frame.len(),
        cut < records_start(frame) || (cut - records_start(frame)) % (RECORD_BYTES as int) != 0,
    ensures
        decode_outcome(frame.take(cut), max_records) == Err::<FrameView, DecodeError>(
            DecodeError::Truncated,
        ),
{
    let part = frame.take(cut);
    if cut >= 4 {
        assert(declared_header_len(part) == declared_header_len(frame));
        if cut >= records_start(frame) {
            assert(header_bytes(part) =~= header_bytes(frame));
            assert(record_count(part) <= record_count(frame));
        }
    }
    lemma_partial_frame_is_truncated(part, max_records);
}

/// Cutting a frame that decodes at the end of its header or of one of its
/// records gives the frame's header and the records before the cut.
pub proof fn lemma_cut_at_record_boundary_keeps_prefix(
    frame: Seq<u8>,
    max_records: nat,
    kept: int,
)
    requires
        decode_outcome(frame, max_records) is Ok,
        0 <= kept <= record_count(frame),
    ensures
        decode_outcome(frame.take(record_offset(frame, kept)), max_records) == Ok::<
            FrameView,
            DecodeError,
        >(frame_contents(frame).first(kept)),
{
    let part = frame.take(record_offset(frame, kept));
    assert(declared_header_len(part) == declared_header_len(frame));
    assert(header_bytes(part) =~= header_bytes(frame));
    assert(body_len(part) == RECORD_BYTES * kept);
    assert(record_count(part) == kept);
    let got = frame_contents(part);
    let want = frame_contents(frame).first(kept);
    assert(got.ids =~= want.ids);
    assert(got.type_codes =~= want.type_codes);
    assert(got.xs =~= want.xs);
    assert(got.ys =~= want.ys);
}

/// A complete header that is not valid UTF-8 gives `InvalidEncoding`, whatever
/// follows it.
pub proof fn lemma_invalid_header_is_rejected(bytes: Seq<u8>, max_records: nat)
    requires
        header_complete(bytes),
        !valid_utf8(header_bytes(bytes)),
    ensures
        decode_outcome(bytes, max_records) == Err::<FrameView, DecodeError>(
            DecodeError::InvalidEncoding,
        ),
{
}

/// A frame that ends with its header decodes to that header and four empty
/// columns, under every limit.
pub proof fn lemma_header_only_frame_is_empty(bytes: Seq<u8>, max_records: nat)
    requires
        header_complete(bytes),
        valid_utf8(header_bytes(bytes)),
        bytes.len() == records_start(bytes),
    ensures
        decode_outcome(bytes, max_records) == Ok::<FrameView, DecodeError>(
            FrameView { header: decode_utf8(header_bytes(bytes)), ..FrameView::empty() },
        ),
{
    let got = frame_contents(bytes);
    assert(got.ids =~= Seq::<u32>::empty());
    assert(got.type_codes =~= Seq::<u8>::empty());
    assert(got.xs =~= Seq::<u32>::empty());
    assert(got.ys =~= Seq::<u32>::empty());
}

} // verus!
