//! Turning the payload of a content response into text.

use vstd::prelude::*;
use vstd::utf8::{decode_utf8, encode_utf8, valid_utf8};

verus! {

/// Why a payload did not yield text.
#[derive(Debug, Clone, Copy, PartialEq, Eq, Structural)]
pub enum DecodeFailure {
    /// The payload is not valid in the transport encoding.
    Malformed,
    /// The decoded bytes are not valid UTF-8.
    NotText,
}

/// `base64::DecodeError`, the error of the transport decoder. Nothing is
/// known of a value of it.
#[verifier::external_type_specification]
#[verifier::external_body]
pub struct ExTransportError(base64::DecodeError);

/// What the `STANDARD` engine of the `base64` crate decodes `input` to:
/// `None` where it rejects the input.
pub uninterp spec fn standard_decoding(input: Seq<u8>) -> Option<Seq<u8>>;

/// `base64::Engine::decode` on `base64::engine::general_purpose::STANDARD`.
/// The contract names the result: the call succeeds exactly on the inputs
/// that `standard_decoding` is `Some` on, with those bytes. Nothing is
/// claimed here of which inputs these are, nor of the error.
#[verifier::external_body]
fn standard_decode(input: &Vec<u8>) -> (decoded: Result<Vec<u8>, base64::DecodeError>)
    ensures
        decoded is Ok <==> standard_decoding(input@) is Some,
        decoded matches Ok(bytes) ==> standard_decoding(input@) == Some(bytes@),
{
    base64::Engine::decode(&base64::engine::general_purpose::STANDARD, input)
}

/// `String::from_utf8`: succeeds exactly on the byte sequences that are
/// valid UTF-8, with the text that they encode.
#[verifier::external_body]
fn text_from_utf8(bytes: Vec<u8>) -> (text: Option<String>)
    ensures
        text is Some <==> valid_utf8(bytes@),
        text matches Some(s) ==> s@ == decode_utf8(bytes@),
{
    String::from_utf8(bytes).ok()
}

/// `bytes` without its line feeds.
pub open spec fn without_line_breaks(bytes: Seq<u8>) -> Seq<u8>
    decreases bytes.len(),
{
    if bytes.len() == 0 {
        bytes
    } else if bytes.last() == 10u8 {
        without_line_breaks(bytes.drop_last())
    } else {
        without_line_breaks(bytes.drop_last()).push(bytes.last())
    }
}

/// The text that transport-decoded bytes stand for, where `decoded` is
/// `None` if the payload was rejected.
pub open spec fn text_of(decoded: Option<Seq<u8>>) -> Result<Seq<char>, DecodeFailure> {
    match decoded {
        None => Err(DecodeFailure::Malformed),
        Some(bytes) => if valid_utf8(bytes) {
            Ok(decode_utf8(bytes))
        } else {
            Err(DecodeFailure::NotText)
        },
    }
}

/// The text that the payload `raw` stands for: its line feeds are dropped,
/// the rest is transport-decoded, and the bytes are read as UTF-8.
pub open spec fn decoded_text(raw: Seq<char>) -> Result<Seq<char>, DecodeFailure> {
    text_of(standard_decoding(without_line_breaks(encode_utf8(raw))))
}

/// The characters of a decoding result.
pub open spec fn decoded_view(result: Result<String, DecodeFailure>) -> Result<
    Seq<char>,
    DecodeFailure,
> {
    match result {
        Ok(text) => Ok(text@),
        Err(e) => Err(e),
    }
}

/// What the transport decoder handed back, seen as plain bytes.
pub open spec fn decoded_bytes(decoded: Result<Vec<u8>, base64::DecodeError>) -> Option<Seq<u8>> {
    match decoded {
        Ok(bytes) => Some(bytes@),
        Err(_) => None,
    }
}

/// The bytes of `raw` without its line feeds.
pub fn strip_line_breaks(raw: &str) -> (kept: Vec<u8>)
    ensures
        kept@ == without_line_breaks(encode_utf8(raw@)),
{
    let bytes = raw.as_bytes();
    let mut kept: Vec<u8> = Vec::new();
    let mut i: usize = 0;
    while i < bytes.len()
        invariant
            i <= bytes.len(),
            kept@ == without_line_breaks(bytes@.take(i as int)),
        decreases bytes.len() - i,
    {
        assert(bytes@.take(i + 1).drop_last() =~= bytes@.take(i as int));
        if bytes[i] != 10u8 {
            kept.push(bytes[i]);
        }
        i += 1;
    }
    assert(bytes@.take(bytes.len() as int) =~= bytes@);
    kept
}

/// Reads what the transport decoder handed back as text. A rejected payload
/// is `Malformed`; bytes that are not valid UTF-8 are `NotText`, whatever
/// else holds of them; all other bytes yield the text they encode.
pub fn interpret(decoded: Result<Vec<u8>, base64::DecodeError>) -> (result: Result<
    String,
    DecodeFailure,
>)
    ensures
        decoded_view(result) == text_of(decoded_bytes(decoded)),
{
    match decoded {
        Err(_) => Err(DecodeFailure::Malformed),
        Ok(bytes) => match text_from_utf8(bytes) {
            Some(text) => Ok(text),
            None => Err(DecodeFailure::NotText),
        },
    }
}

/// Decodes the payload of a content response.
pub fn decode(raw: &str) -> (result: Result<String, DecodeFailure>)
    ensures
        decoded_view(result) == decoded_text(raw@),
{
    let stripped = strip_line_breaks(raw);
    interpret(standard_decode(&stripped))
}

} // verus!
