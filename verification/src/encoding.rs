//! Text encodings at the boundary: base64 in its two flavours, and UTF-8.
//!
//! Base64 is done by the `base64` crate. What it computes is not restated
//! here: each direction of each flavour has a name, and the functions below
//! are believed to return what the names stand for. Two functions of std on
//! strings that have no contract elsewhere stand here too.

use crate::error::Base64Fault;
use base64::engine::general_purpose::{STANDARD, URL_SAFE_NO_PAD};
use base64::{DecodeError, Engine};
use vstd::prelude::*;
use vstd::utf8::{decode_utf8, valid_utf8};

verus! {

/// What the URL-safe alphabet without padding decodes a text to.
pub uninterp spec fn base64url_bytes(text: Seq<char>) -> Result<Seq<u8>, Base64Fault>;

/// The text that the URL-safe alphabet without padding encodes bytes as.
pub uninterp spec fn base64url_text(bytes: Seq<u8>) -> Seq<char>;

/// What the standard alphabet with canonical padding decodes a text to.
pub uninterp spec fn base64_bytes(text: Seq<char>) -> Result<Seq<u8>, Base64Fault>;

/// The text that the standard alphabet with padding encodes bytes as.
pub uninterp spec fn base64_text(bytes: Seq<u8>) -> Seq<char>;

/// A decoding that gave these bytes.
pub open spec fn decoded(bytes: Seq<u8>) -> Result<Seq<u8>, Base64Fault> {
    Ok(bytes)
}

/// The outcome of a decoding, with the bytes taken as a sequence.
pub open spec fn decoded_view(r: Result<Vec<u8>, Base64Fault>) -> Result<Seq<u8>, Base64Fault> {
    match r {
        Ok(bytes) => Ok(bytes@),
        Err(fault) => Err(fault),
    }
}

/// Calls `Engine::decode` of `base64` on its `URL_SAFE_NO_PAD` engine.
///
/// Believed: the outcome is the one named [`base64url_bytes`], the crate's
/// own error handed on variant by variant.
#[verifier::external_body]
pub(crate) fn decode_base64url(text: &str) -> (r: Result<Vec<u8>, Base64Fault>)
    ensures
        decoded_view(r) == base64url_bytes(text@),
{
    match URL_SAFE_NO_PAD.decode(text) {
        Ok(bytes) => Ok(bytes),
        Err(DecodeError::InvalidByte(offset, byte)) => Err(Base64Fault::InvalidByte { offset, byte }),
        Err(DecodeError::InvalidLength(length)) => Err(Base64Fault::InvalidLength { length }),
        Err(DecodeError::InvalidLastSymbol(offset, byte)) => Err(
            Base64Fault::InvalidLastSymbol { offset, byte },
        ),
        Err(DecodeError::InvalidPadding) => Err(Base64Fault::InvalidPadding),
    }
}

/// Calls `Engine::encode` of `base64` on its `URL_SAFE_NO_PAD` engine.
///
/// Believed: the text is the one named [`base64url_text`], and decoding that
/// text with the same engine gives the bytes back. The crate panics only
/// where the encoded length would not fit in `usize`, which no slice is long
/// enough for.
#[verifier::external_body]
pub(crate) fn encode_base64url(bytes: &[u8]) -> (text: String)
    ensures
        text@ == base64url_text(bytes@),
        base64url_bytes(text@) == decoded(bytes@),
{
    URL_SAFE_NO_PAD.encode(bytes)
}

/// Calls `Engine::decode` of `base64` on its `STANDARD` engine.
///
/// Believed: the outcome is the one named [`base64_bytes`], the crate's own
/// error handed on variant by variant.
#[verifier::external_body]
pub(crate) fn decode_base64(text: &str) -> (r: Result<Vec<u8>, Base64Fault>)
    ensures
        decoded_view(r) == base64_bytes(text@),
{
    match STANDARD.decode(text) {
        Ok(bytes) => Ok(bytes),
        Err(DecodeError::InvalidByte(offset, byte)) => Err(Base64Fault::InvalidByte { offset, byte }),
        Err(DecodeError::InvalidLength(length)) => Err(Base64Fault::InvalidLength { length }),
        Err(DecodeError::InvalidLastSymbol(offset, byte)) => Err(
            Base64Fault::InvalidLastSymbol { offset, byte },
        ),
        Err(DecodeError::InvalidPadding) => Err(Base64Fault::InvalidPadding),
    }
}

/// Calls `Engine::encode` of `base64` on its `STANDARD` engine.
///
/// Believed: the text is the one named [`base64_text`], and decoding that
/// text with the same engine gives the bytes back. The crate panics only
/// where the encoded length would not fit in `usize`, which no slice is long
/// enough for.
#[verifier::external_body]
pub(crate) fn encode_base64(bytes: &[u8]) -> (text: String)
    ensures
        text@ == base64_text(bytes@),
        base64_bytes(text@) == decoded(bytes@),
{
    STANDARD.encode(bytes)
}

/// Calls `String::from_utf8` of std.
///
/// Believed, as std documents it: the bytes become a string exactly when
/// they are valid UTF-8, and the string then holds the characters that they
/// encode.
#[verifier::external_body]
pub(crate) fn string_from_utf8(bytes: Vec<u8>) -> (r: Option<String>)
    ensures
        r is Some <==> valid_utf8(bytes@),
        r matches Some(text) ==> text@ == decode_utf8(bytes@),
{
    String::from_utf8(bytes).ok()
}

/// Calls `String::push` of std.
///
/// Believed, as std documents it: the character is appended to the end.
#[verifier::external_body]
pub(crate) fn push_char(text: &mut String, c: char)
    ensures
        final(text)@ == old(text)@.push(c),
{
    text.push(c);
}

} // verus!
