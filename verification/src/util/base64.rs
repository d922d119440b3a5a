//! Decoding of standard Base64 text.

use crate::text::{from_utf8, trim, trim_of};
use ::base64::Engine;
use vstd::prelude::*;
use vstd::utf8::{decode_utf8, valid_utf8};

verus! {

/// `base64::DecodeError`, the decoder's error, of which nothing is read.
#[verifier::external_type_specification]
#[verifier::external_body]
pub struct ExDecodeError(::base64::DecodeError);

/// Why a text could not be decoded.
#[derive(Clone, Copy, Debug, PartialEq, Eq, Structural)]
pub enum DecodeFailure {
    /// The text is not standard Base64.
    InvalidBase64,
    /// The decoded bytes are not UTF-8.
    InvalidUtf8,
}

/// The bytes that a text in standard Base64 (RFC 4648 alphabet, canonical
/// padding) encodes, and `None` where the text is not such an encoding.
pub uninterp spec fn base64_decoding(text: Seq<char>) -> Option<Seq<u8>>;

/// `Engine::decode` of `base64::engine::general_purpose::STANDARD`: the bytes
/// that `input` encodes, or the decoder's error. Which of the two, and which
/// bytes, depends on the characters of `input` alone.
#[verifier::external_body]
fn standard_decode(input: &str) -> (r: Result<Vec<u8>, ::base64::DecodeError>)
    ensures
        match r {
            Ok(bytes) => base64_decoding(input@) == Some(bytes@),
            Err(_) => base64_decoding(input@).is_none(),
        },
{
    ::base64::engine::general_purpose::STANDARD.decode(input)
}

/// The bytes that `input` encodes once the whitespace around it is dropped.
pub open spec fn decoded_bytes(input: Seq<char>) -> Option<Seq<u8>> {
    base64_decoding(trim_of(input))
}

/// The text that `input` encodes: its decoded bytes read as UTF-8.
pub open spec fn decoded_text(input: Seq<char>) -> Result<Seq<char>, DecodeFailure> {
    match decoded_bytes(input) {
        None => Err(DecodeFailure::InvalidBase64),
        Some(bytes) => if valid_utf8(bytes) {
            Ok(decode_utf8(bytes))
        } else {
            Err(DecodeFailure::InvalidUtf8)
        },
    }
}

/// Decodes Base64 text into the string that its bytes spell in UTF-8.
pub fn decode(input: &str) -> (r: Result<String, DecodeFailure>)
    ensures
        match r {
            Ok(s) => decoded_text(input@) == Ok::<Seq<char>, DecodeFailure>(s@),
            Err(e) => decoded_text(input@) == Err::<Seq<char>, DecodeFailure>(e),
        },
{
    match deocde_bytes(input) {
        Ok(bytes) => match from_utf8(bytes) {
            Some(s) => Ok(s),
            None => Err(DecodeFailure::InvalidUtf8),
        },
        Err(e) => Err(e),
    }
}

/// Decodes Base64 text into bytes, ignoring whitespace around the text.
pub fn deocde_bytes(input: &str) -> (r: Result<Vec<u8>, DecodeFailure>)
    ensures
        match r {
            Ok(bytes) => decoded_bytes(input@) == Some(bytes@),
            Err(e) => e == DecodeFailure::InvalidBase64 && decoded_bytes(input@).is_none(),
        },
{
    match standard_decode(trim(input)) {
        Ok(bytes) => Ok(bytes),
        Err(_) => Err(DecodeFailure::InvalidBase64),
    }
}

} // verus!
