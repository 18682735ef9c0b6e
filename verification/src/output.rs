//! Reusable storage for one decoded frame.

use vstd::prelude::*;
use vstd::utf8::{decode_utf8, valid_utf8};
use crate::error::DecodeError;
use crate::text::store_text;
use crate::wire::FrameView;

verus! {

/// The header text and the four columns of a decoded frame.
///
/// The storage is cleared, not reallocated, between frames, so a long-lived
/// value grows to the largest frame it has held and stays there.
pub struct DecodeOutput {
    header: String,
    ids: Vec<u32>,
    type_codes: Vec<u8>,
    xs: Vec<u32>,
    ys: Vec<u32>,
}

impl View for DecodeOutput {
    type V = FrameView;

    closed spec fn view(&self) -> FrameView {
        FrameView {
            header: self.header@,
            ids: self.ids@,
            type_codes: self.type_codes@,
            xs: self.xs@,
            ys: self.ys@,
        }
    }
}

impl DecodeOutput {
    /// Empty storage.
    pub fn new() -> (out: Self)
        ensures
            out@ == FrameView::empty(),
    {
        DecodeOutput {
            header: String::new(),
            ids: Vec::new(),
            type_codes: Vec::new(),
            xs: Vec::new(),
            ys: Vec::new(),
        }
    }

    /// Empties the header and all columns, keeping what they have allocated.
    pub fn reset(&mut self)
        ensures
            final(self)@ == FrameView::empty(),
    {
        self.header.clear();
        self.ids.clear();
        self.type_codes.clear();
        self.xs.clear();
        self.ys.clear();
    }

    /// Number of records held.
    pub fn len(&self) -> (n: usize)
        ensures
            n == self@.len(),
    {
        self.ids.len()
    }

    /// The header text.
    pub fn header(&self) -> (text: &str)
        ensures
            text@ == self@.header,
    {
        self.header.as_str()
    }

    /// The id column.
    pub fn ids(&self) -> (column: &[u32])
        ensures
            column@ == self@.ids,
    {
        self.ids.as_slice()
    }

    /// The type code column.
    pub fn type_codes(&self) -> (column: &[u8])
        ensures
            column@ == self@.type_codes,
    {
        self.type_codes.as_slice()
    }

    /// The x column, as IEEE-754 binary32 bit patterns.
    pub fn xs(&self) -> (column: &[u32])
        ensures
            column@ == self@.xs,
    {
        self.xs.as_slice()
    }

    /// The y column, as IEEE-754 binary32 bit patterns.
    pub fn ys(&self) -> (column: &[u32])
        ensures
            column@ == self@.ys,
    {
        self.ys.as_slice()
    }

    /// Appends one record to the columns.
    pub(crate) fn push(&mut self, id: u32, type_code: u8, x: u32, y: u32)
        ensures
            final(self)@ == (FrameView {
                header: old(self)@.header,
                ids: old(self)@.ids.push(id),
                type_codes: old(self)@.type_codes.push(type_code),
                xs: old(self)@.xs.push(x),
                ys: old(self)@.ys.push(y),
            }),
    {
        self.ids.push(id);
        self.type_codes.push(type_code);
        self.xs.push(x);
        self.ys.push(y);
    }

    /// Replaces the header with the text that `bytes` encodes, or with nothing
    /// when `bytes` is not valid UTF-8. The columns are left as they are.
    pub(crate) fn set_header(&mut self, bytes: &[u8]) -> (res: Result<(), DecodeError>)
        ensures
            valid_utf8(bytes@) ==> res == Ok::<(), DecodeError>(()) && final(self)@ == (FrameView {
                header: decode_utf8(bytes@),
                ..old(self)@
            }),
            !valid_utf8(bytes@) ==> res == Err::<(), DecodeError>(DecodeError::InvalidEncoding)
                && final(self)@ == (FrameView { header: Seq::empty(), ..old(self)@ }),
    {
        store_text(bytes, &mut self.header)
    }
}

} // verus!
