//! The first two steps of snapshot decoding: each raw message is a
//! binary-safe text encoding (standard base64) of UTF-8 text holding the
//! snapshot's JSON form. This module turns one raw message into that text
//! or into a decode failure; a failed message is dropped by the caller and
//! the live scene is left untouched. Parsing the text against the snapshot
//! schema happens outside the library.

use vstd::prelude::*;

use base64::engine::general_purpose::STANDARD;
use base64::Engine;

verus! {

/// Why a raw message was rejected.
#[derive(Debug)]
pub enum DecodeFailure {
    /// The message is not valid standard base64.
    InvalidEncoding,
    /// The decoded bytes are not valid UTF-8 text.
    InvalidText,
}

/// What standard base64 decoding yields on a message: the decoded bytes,
/// or nothing when the message is not valid standard base64.
pub uninterp spec fn base64_decoding(msg: Seq<char>) -> Option<Seq<u8>>;

/// What UTF-8 decoding yields on a byte sequence: the decoded text, or
/// nothing when the bytes are not valid UTF-8.
pub uninterp spec fn utf8_decoding(bytes: Seq<u8>) -> Option<Seq<char>>;

#[verifier::external_type_specification]
#[verifier::external_body]
pub struct ExBase64DecodeError(base64::DecodeError);

#[verifier::external_type_specification]
#[verifier::external_body]
pub struct ExFromUtf8Error(std::string::FromUtf8Error);

/// Relies on base64's standard-alphabet, padded engine: `decode` returns
/// the decoded bytes exactly when the input is valid standard base64, as a
/// function of the input alone.
#[verifier::external_body]
fn decode_base64(msg: &str) -> (r: Result<Vec<u8>, base64::DecodeError>)
    ensures
        r is Ok <==> base64_decoding(msg@) is Some,
        r is Ok ==> r->Ok_0@ == base64_decoding(msg@)->Some_0,
{
    STANDARD.decode(msg)
}

/// Relies on `String::from_utf8`: the bytes reinterpreted as text exactly
/// when they are valid UTF-8, as a function of the bytes alone.
#[verifier::external_body]
fn utf8_to_string(bytes: Vec<u8>) -> (r: Result<String, std::string::FromUtf8Error>)
    ensures
        r is Ok <==> utf8_decoding(bytes@) is Some,
        r is Ok ==> r->Ok_0@ == utf8_decoding(bytes@)->Some_0,
{
    String::from_utf8(bytes)
}

/// The decoded text of a raw message, or the step on which decoding fails.
pub open spec fn spec_decode_message(msg: Seq<char>) -> Result<Seq<char>, DecodeFailure> {
    match base64_decoding(msg) {
        None => Err(DecodeFailure::InvalidEncoding),
        Some(bytes) => match utf8_decoding(bytes) {
            None => Err(DecodeFailure::InvalidText),
            Some(text) => Ok(text),
        },
    }
}

/// Decodes one raw message into the snapshot's JSON text: base64 first,
/// then UTF-8 validation. Either step failing rejects the whole message
/// with the step's error; nothing is partially applied.
pub fn decode_message(msg: &str) -> (r: Result<String, DecodeFailure>)
    ensures
        r is Ok <==> spec_decode_message(msg@) is Ok,
        r is Ok ==> r->Ok_0@ == spec_decode_message(msg@)->Ok_0,
        r is Err ==> r->Err_0 == spec_decode_message(msg@)->Err_0,
{
    let bytes = match decode_base64(msg) {
        Ok(b) => b,
        Err(_) => {
            return Err(DecodeFailure::InvalidEncoding);
        },
    };
    match utf8_to_string(bytes) {
        Ok(text) => Ok(text),
        Err(_) => Err(DecodeFailure::InvalidText),
    }
}

} // verus!
