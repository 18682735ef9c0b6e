//! The frame decoder: one linear pass from bytes to columns.

use vstd::prelude::*;
use vstd::slice::slice_subrange;
use vstd::utf8::{decode_utf8, valid_utf8};
use crate::error::DecodeError;
use crate::output::DecodeOutput;
use crate::reader::{read_f32, read_u32, read_u8};
use crate::wire::{
    decode_outcome, header_bytes, header_complete, record_count, record_id, record_offset,
    record_type_code, record_x, record_y, records_start, FrameView,
};

verus! {

/// The record limit of a decoder made with [`FrameDecoder::new`].
pub const DEFAULT_MAX_RECORDS: usize = 500_000;

/// What a decoder's storage holds once a call with this outcome has returned:
/// the decoded frame, or nothing after a failure.
pub open spec fn held_after(outcome: Result<FrameView, DecodeError>) -> FrameView {
    match outcome {
        Ok(frame) => frame,
        Err(_) => FrameView::empty(),
    }
}

/// A decoder that owns the storage it decodes into.
///
/// Each call of [`FrameDecoder::decode`] overwrites what the previous call
/// produced; the borrow that `decode` hands out ends before the next call can
/// begin. Use one decoder per thread of control.
pub struct FrameDecoder {
    output: DecodeOutput,
    max_records: usize,
}

impl View for FrameDecoder {
    type V = FrameView;

    /// What the decoder currently holds.
    closed spec fn view(&self) -> FrameView {
        self.output@
    }
}

impl FrameDecoder {
    /// The largest number of records that a frame may hold.
    pub closed spec fn spec_max_records(&self) -> usize {
        self.max_records
    }

    /// A decoder with the default record limit, holding nothing.
    pub fn new() -> (decoder: Self)
        ensures
            decoder.max_records() == DEFAULT_MAX_RECORDS,
            decoder@ == FrameView::empty(),
    {
        FrameDecoder { output: DecodeOutput::new(), max_records: DEFAULT_MAX_RECORDS }
    }

    /// A decoder that accepts frames of up to `max_records` records, holding nothing.
    pub fn with_max_records(max_records: usize) -> (decoder: Self)
        ensures
            decoder.max_records() == max_records,
            decoder@ == FrameView::empty(),
    {
        FrameDecoder { output: DecodeOutput::new(), max_records }
    }

    /// The largest number of records that a frame may hold.
    #[verifier::when_used_as_spec(spec_max_records)]
    pub fn max_records(&self) -> (n: usize)
        ensures
            n == self.max_records(),
    {
        self.max_records
    }

    /// What the last call of `decode` left behind: the decoded frame if it
    /// succeeded, nothing if it failed or was never made.
    pub fn output(&self) -> (out: &DecodeOutput)
        ensures
            out@ == self@,
    {
        &self.output
    }

    /// Gives up the decoder and keeps what it holds.
    pub fn into_output(self) -> (out: DecodeOutput)
        ensures
            out@ == self@,
    {
        self.output
    }

    /// Decodes `buf` into the decoder's storage in one pass. After a failure the
    /// storage holds whatever had been read up to the fault.
    fn fill(&mut self, buf: &[u8]) -> (res: Result<(), DecodeError>)
        ensures
            final(self).max_records() == old(self).max_records(),
            match res {
                Ok(()) => decode_outcome(buf@, old(self).max_records() as nat) == Ok::<
                    FrameView,
                    DecodeError,
                >(final(self)@),
                Err(e) => decode_outcome(buf@, old(self).max_records() as nat) == Err::<
                    FrameView,
                    DecodeError,
                >(e),
            },
    {
        self.output.reset();
        let mut off: usize = 0;
        let header_len = read_u32(buf, &mut off)? as usize;
        if header_len > buf.len() - off {
            return Err(DecodeError::Truncated);
        }
        let start: usize = off + header_len;
        self.output.set_header(slice_subrange(buf, off, start))?;
        off = start;
        while off < buf.len()
            invariant
                header_complete(buf@),
                valid_utf8(header_bytes(buf@)),
                start == records_start(buf@),
                self.max_records() == old(self).max_records(),
                off == record_offset(buf@, self@.len() as int),
                off <= buf@.len(),
                self@.len() <= self.max_records(),
                self@.header == decode_utf8(header_bytes(buf@)),
                self@.ids =~= Seq::new(self@.len(), |i: int| record_id(buf@, i)),
                self@.type_codes =~= Seq::new(self@.len(), |i: int| record_type_code(buf@, i)),
                self@.xs =~= Seq::new(self@.len(), |i: int| record_x(buf@, i)),
                self@.ys =~= Seq::new(self@.len(), |i: int| record_y(buf@, i)),
            decreases buf@.len() - off,
        {
            let id = read_u32(buf, &mut off)?;
            let type_code = read_u8(buf, &mut off)?;
            let x = read_f32(buf, &mut off)?;
            let y = read_f32(buf, &mut off)?;
            if self.output.len() >= self.max_records {
                return Err(DecodeError::CapacityExceeded);
            }
            self.output.push(id, type_code, x, y);
        }
        Ok(())
    }

    /// Decodes one frame.
    ///
    /// On success the result borrows the decoder's storage, which now holds the
    /// header text and one entry per record in each column. On failure the
    /// storage holds nothing. Either way, whatever an earlier call produced is
    /// gone.
    pub fn decode(&mut self, buf: &[u8]) -> (res: Result<&DecodeOutput, DecodeError>)
        ensures
            final(self).max_records() == old(self).max_records(),
            final(self)@ == held_after(decode_outcome(buf@, old(self).max_records() as nat)),
            match res {
                Ok(out) => {
                    &&& decode_outcome(buf@, old(self).max_records() as nat) == Ok::<
                        FrameView,
                        DecodeError,
                    >(out@)
                    &&& out@.rectangular()
                    &&& out@.len() == record_count(buf@)
                },
                Err(e) => decode_outcome(buf@, old(self).max_records() as nat) == Err::<
                    FrameView,
                    DecodeError,
                >(e),
            },
    {
        match self.fill(buf) {
            Ok(()) => Ok(&self.output),
            Err(e) => {
                self.output.reset();
                Err(e)
            },
        }
    }
}

/// Decodes one frame into storage of its own, with the default record limit.
pub fn decode(buf: &[u8]) -> (res: Result<DecodeOutput, DecodeError>)
    ensures
        match res {
            Ok(out) => {
                &&& decode_outcome(buf@, DEFAULT_MAX_RECORDS as nat) == Ok::<FrameView, DecodeError>(
                    out@,
                )
                &&& out@.rectangular()
                &&& out@.len() == record_count(buf@)
            },
            Err(e) => decode_outcome(buf@, DEFAULT_MAX_RECORDS as nat) == Err::<
                FrameView,
                DecodeError,
            >(e),
        },
{
    let mut decoder = FrameDecoder::new();
    match decoder.decode(buf) {
        Ok(_) => Ok(decoder.into_output()),
        Err(e) => Err(e),
    }
}

} // verus!
