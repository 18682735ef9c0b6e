//! Header text: what is assumed of the standard library's UTF-8 validation and
//! string storage, and the verified step built on it.

use vstd::prelude::*;
use vstd::string::StringExecFns;
use vstd::utf8::{decode_utf8, encode_utf8, encode_utf8_decode_utf8, valid_utf8};
use crate::error::DecodeError;

verus! {

/// `core::str::Utf8Error`, the error of `core::str::from_utf8`, carried as an
/// opaque value.
#[verifier::external_type_specification]
#[verifier::external_body]
pub struct ExUtf8Error(core::str::Utf8Error);

/// Assumed of `core::str::from_utf8`: it accepts exactly the byte sequences that
/// are well-formed UTF-8, and the string slice it returns is those same bytes.
pub assume_specification[ core::str::from_utf8 ](v: &[u8]) -> (res: Result<
    &str,
    core::str::Utf8Error,
>)
    ensures
        res is Ok <==> valid_utf8(v@),
        res matches Ok(s) ==> encode_utf8(s@) == v@,
;

/// Assumed of `String::clear`: the string is empty afterwards.
pub assume_specification[ String::clear ](s: &mut String)
    ensures
        final(s)@ == Seq::<char>::empty(),
;

/// Replaces the contents of `out` with the text that `bytes` encodes.
///
/// On invalid UTF-8 `out` is left empty.
pub fn store_text(bytes: &[u8], out: &mut String) -> (res: Result<(), DecodeError>)
    ensures
        valid_utf8(bytes@) ==> res == Ok::<(), DecodeError>(()) && final(out)@ == decode_utf8(
            bytes@,
        ),
        !valid_utf8(bytes@) ==> res == Err::<(), DecodeError>(DecodeError::InvalidEncoding)
            && final(out)@ == Seq::<char>::empty(),
{
    out.clear();
    match core::str::from_utf8(bytes) {
        Ok(text) => {
            proof {
                encode_utf8_decode_utf8(text@);
            }
            out.append(text);
            assert(out@ =~= text@);
            Ok(())
        },
        Err(_) => Err(DecodeError::InvalidEncoding),
    }
}

} // verus!
