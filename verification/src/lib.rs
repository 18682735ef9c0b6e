//! Decoder for binary frames of entity position updates.
//!
//! A frame is a length-prefixed UTF-8 header followed by fixed-width records.
//! Decoding turns it into the header text and four parallel columns: entity
//! id, type code, x and y.
//!
//! - [`wire`] defines the format and what every buffer decodes to.
//! - [`decoder`] holds [`FrameDecoder`], which decodes into storage that it
//!   reuses from call to call, and [`decode`], which decodes into fresh storage.
//! - [`output`] is that storage, [`reader`] and [`text`] read single fields.
//! - [`laws`] states what holds of decoding in general.

pub mod decoder;
pub mod error;
pub mod laws;
pub mod output;
pub mod reader;
pub mod text;
pub mod wire;

pub use crate::decoder::{decode, FrameDecoder, DEFAULT_MAX_RECORDS};
pub use crate::error::DecodeError;
pub use crate::output::DecodeOutput;
