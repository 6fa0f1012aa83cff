//! Binary payloads and the decoding of their base64 text.
//!
//! The decoding itself is the work of the `base64` crate, with its standard
//! alphabet and canonical padding; what it yields for a text is named here by
//! [`base64_bytes`].

use vstd::prelude::*;
use base64::Engine;
use crate::error::LoadError;
use crate::outcome::viewed;

verus! {

#[verifier::external_type_specification]
#[verifier::external_body]
pub struct ExDecodeError(base64::DecodeError);

/// Whether `c` belongs to the standard base64 alphabet.
pub open spec fn is_base64_char(c: char) -> bool {
    ||| 'A' <= c <= 'Z'
    ||| 'a' <= c <= 'z'
    ||| '0' <= c <= '9'
    ||| c == '+'
    ||| c == '/'
}

/// Whether every character of `text` belongs to the standard base64 alphabet
/// or is the padding character `=`.
pub open spec fn is_base64_text(text: Seq<char>) -> bool {
    forall|i: int| 0 <= i < text.len() ==> is_base64_char(#[trigger] text[i]) || text[i] == '='
}

/// The bytes that `text` denotes in standard base64, if it denotes any.
pub uninterp spec fn base64_bytes(text: Seq<char>) -> Option<Seq<u8>>;

/// `Engine::decode` on the `STANDARD` engine of the `base64` crate. The call
/// decides what [`base64_bytes`] is. The engine looks every byte up in its
/// alphabet and refuses one that is neither in it nor `=`; with canonical
/// padding required, it refuses every input whose length is not a multiple
/// of four; and it takes the empty input, for no bytes.
#[verifier::external_body]
fn base64_decode(text: &str) -> (r: Result<Vec<u8>, base64::DecodeError>)
    ensures
        match r {
            Ok(bytes) => base64_bytes(text@) == Some(bytes@),
            Err(_) => base64_bytes(text@) is None,
        },
        !is_base64_text(text@) ==> r is Err,
        text@.len() % 4 != 0 ==> r is Err,
        text@.len() == 0 ==> r is Ok && r->Ok_0@.len() == 0,
{
    base64::engine::general_purpose::STANDARD.decode(text)
}

/// What decoding `text` as a payload gives.
pub open spec fn spec_payload(text: Seq<char>) -> Result<Seq<u8>, LoadError> {
    match base64_bytes(text) {
        Some(bytes) => Ok(bytes),
        None => Err(LoadError::Encoding),
    }
}

/// Decodes the standard base64 text of a payload of any length. The empty
/// text is the payload of no bytes. A text that is not base64 is an encoding
/// error; so is, in particular, every text with a character that is neither
/// of the alphabet nor `=`, and every text whose length is not a multiple of
/// four.
pub fn decode_payload(text: &str) -> (r: Result<Vec<u8>, LoadError>)
    ensures
        viewed(r) == spec_payload(text@),
        !is_base64_text(text@) || text@.len() % 4 != 0 ==> r is Err && r->Err_0
            == LoadError::Encoding,
        text@.len() == 0 ==> r is Ok && r->Ok_0@.len() == 0,
{
    payload_from_decoded(base64_decode(text))
}

/// The payload of the bytes that decoding gave, or the encoding error that
/// stands for every failure of the decoder.
pub fn payload_from_decoded(decoded: Result<Vec<u8>, base64::DecodeError>) -> (r: Result<
    Vec<u8>,
    LoadError,
>)
    ensures
        r == match decoded {
            Ok(bytes) => Ok::<Vec<u8>, LoadError>(bytes),
            Err(_) => Err(LoadError::Encoding),
        },
{
    match decoded {
        Ok(bytes) => Ok(bytes),
        Err(_) => Err(LoadError::Encoding),
    }
}

} // verus!
