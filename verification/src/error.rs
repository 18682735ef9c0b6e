//! The ways in which a frame can fail to decode.

use vstd::prelude::*;

verus! {

/// Why a frame was rejected. Every rejection is final for the call that made it.
#[derive(Clone, Copy, Debug, PartialEq, Eq, Structural)]
pub enum DecodeError {
    /// The buffer ends before the length prefix, the header text or a record is complete.
    Truncated,
    /// The header bytes are not valid UTF-8.
    InvalidEncoding,
    /// The frame holds more complete records than the decoder accepts.
    CapacityExceeded,
}

impl DecodeError {
    /// The text of [`DecodeError::message`].
    pub open spec fn message_text(self) -> Seq<char> {
        match self {
            DecodeError::Truncated => "frame ends inside a field"@,
            DecodeError::InvalidEncoding => "frame header is not valid UTF-8"@,
            DecodeError::CapacityExceeded => "frame holds more records than the decoder accepts"@,
        }
    }

    /// A one-line description, for hosts that carry errors as text.
    pub fn message(&self) -> (text: &'static str)
        ensures
            text@ == self.message_text(),
    {
        match self {
            DecodeError::Truncated => "frame ends inside a field",
            DecodeError::InvalidEncoding => "frame header is not valid UTF-8",
            DecodeError::CapacityExceeded => "frame holds more records than the decoder accepts",
        }
    }
}

} // verus!
