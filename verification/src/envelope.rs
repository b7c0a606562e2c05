//! Authenticated encryption of payloads into envelopes.
//!
//! An envelope holds a nonce and a sealed payload, both in standard base64
//! with padding. The nonce is 12 raw bytes, drawn afresh for every envelope;
//! the sealed payload is the AES-256-GCM ciphertext with its 16-byte tag
//! appended. There is no associated data.
//!
//! Opening tells apart what is wrong with the shape of its input (the length
//! of the key, the text encoding, the length of the nonce). Of an envelope
//! that does not authenticate it says `DecryptionFailed` and no more.

use crate::codec::{bytes_view, text_view};
use crate::encoding::{
    base64_bytes, base64_text, decode_base64, encode_base64, string_from_utf8,
};
use crate::entropy::random_bytes;
use crate::error::{CryptoError, Field};
use crate::gcm::{
    aes256gcm_open, aes256gcm_opened, aes256gcm_seal, aes256gcm_sealed, KEY_LEN,
    MAX_PLAINTEXT_LEN, NONCE_LEN, TAG_LEN,
};
use vstd::prelude::*;
use vstd::string::StringSliceAdditionalSpecFns;
use vstd::utf8::{
    decode_utf8, encode_utf8, encode_utf8_decode_utf8, encode_utf8_valid_utf8, valid_utf8,
};

verus! {

/// An envelope in its text form.
#[derive(Clone, Debug, PartialEq, Eq)]
pub struct EncryptedData {
    /// The nonce: 12 bytes in standard base64.
    pub iv: String,
    /// The ciphertext with its tag appended, in standard base64.
    pub ciphertext: String,
}

/// The texts of an [`EncryptedData`].
pub struct EnvelopeText {
    pub iv: Seq<char>,
    pub ciphertext: Seq<char>,
}

impl View for EncryptedData {
    type V = EnvelopeText;

    open spec fn view(&self) -> EnvelopeText {
        EnvelopeText { iv: self.iv@, ciphertext: self.ciphertext@ }
    }
}

/// The outcome of a sealing, the envelope as its texts.
pub open spec fn envelope_view(r: Result<EncryptedData, CryptoError>) -> Result<
    EnvelopeText,
    CryptoError,
> {
    match r {
        Ok(envelope) => Ok(envelope@),
        Err(error) => Err(error),
    }
}

/// What sealing a payload under a key with a given nonce answers: an error
/// for a key that is not 32 bytes, for a nonce that is not 12 bytes and for
/// a payload of more than 2^36 bytes, in this order; else the envelope of
/// the nonce and the sealed payload.
pub open spec fn seal_outcome(plaintext: Seq<u8>, key: Seq<u8>, nonce: Seq<u8>) -> Result<
    EnvelopeText,
    CryptoError,
> {
    if key.len() != KEY_LEN {
        Err(CryptoError::InvalidKeyLength)
    } else if nonce.len() != NONCE_LEN {
        Err(CryptoError::InvalidNonceLength)
    } else if plaintext.len() > MAX_PLAINTEXT_LEN {
        Err(CryptoError::EncryptionFailed)
    } else {
        Ok(
            EnvelopeText {
                iv: base64_text(nonce),
                ciphertext: base64_text(aes256gcm_sealed(key, nonce, plaintext)),
            },
        )
    }
}

/// What opening an envelope under a key answers with. The checks come in
/// this order: the key is 32 bytes; the nonce text decodes; the nonce is 12
/// bytes; the payload text decodes; the payload authenticates.
pub open spec fn open_outcome(envelope: EnvelopeText, key: Seq<u8>) -> Result<
    Seq<u8>,
    CryptoError,
> {
    if key.len() != KEY_LEN {
        Err(CryptoError::InvalidKeyLength)
    } else {
        match base64_bytes(envelope.iv) {
            Err(cause) => Err(CryptoError::Decode { field: Field::Nonce, cause }),
            Ok(nonce) => {
                if nonce.len() != NONCE_LEN {
                    Err(CryptoError::InvalidNonceLength)
                } else {
                    match base64_bytes(envelope.ciphertext) {
                        Err(cause) => Err(CryptoError::Decode { field: Field::Ciphertext, cause }),
                        Ok(sealed) => match aes256gcm_opened(key, nonce, sealed) {
                            None => Err(CryptoError::DecryptionFailed),
                            Some(plaintext) => Ok(plaintext),
                        },
                    }
                }
            },
        }
    }
}

/// What opening an envelope to a text answers with: what opening it answers
/// with, the payload read as UTF-8, or `InvalidEncoding` where it is none.
pub open spec fn open_text_outcome(envelope: EnvelopeText, key: Seq<u8>) -> Result<
    Seq<char>,
    CryptoError,
> {
    match open_outcome(envelope, key) {
        Err(error) => Err(error),
        Ok(plaintext) => {
            if valid_utf8(plaintext) {
                Ok(decode_utf8(plaintext))
            } else {
                Err(CryptoError::InvalidEncoding)
            }
        },
    }
}

/// What sealing with a fresh nonce may answer: `InvalidKeyLength` and
/// nothing else for a key that is not 32 bytes; with such a key,
/// `EncryptionFailed`, or what sealing with some 12-byte nonce answers. An
/// envelope that comes back opens, under the same key, to the payload.
pub open spec fn sealing_admits(
    plaintext: Seq<u8>,
    key: Seq<u8>,
    r: Result<EnvelopeText, CryptoError>,
) -> bool {
    &&& if key.len() != KEY_LEN {
        r == Err::<EnvelopeText, CryptoError>(CryptoError::InvalidKeyLength)
    } else {
        ||| r == Err::<EnvelopeText, CryptoError>(CryptoError::EncryptionFailed)
        ||| exists|nonce: Seq<u8>|
            nonce.len() == NONCE_LEN && r == #[trigger] seal_outcome(plaintext, key, nonce)
    }
    &&& r matches Ok(envelope) ==> open_outcome(envelope, key) == Ok::<Seq<u8>, CryptoError>(
        plaintext,
    )
}

/// Seals a payload under a key with a nonce that the caller supplies.
///
/// The answer is a function of the three arguments. The nonce must never be
/// used twice with one key: [`encrypt_bytes`] draws a fresh one and is the
/// function to seal with. An envelope that comes back opens, under the same
/// key, to the payload.
pub fn seal_with_nonce(plaintext: &[u8], key_bytes: &[u8], nonce: &[u8]) -> (r: Result<
    EncryptedData,
    CryptoError,
>)
    ensures
        envelope_view(r) == seal_outcome(plaintext@, key_bytes@, nonce@),
        r matches Ok(envelope) ==> open_outcome(envelope@, key_bytes@) == Ok::<
            Seq<u8>,
            CryptoError,
        >(plaintext@),
{
    if key_bytes.len() != KEY_LEN {
        return Err(CryptoError::InvalidKeyLength);
    }
    if nonce.len() != NONCE_LEN {
        return Err(CryptoError::InvalidNonceLength);
    }
    let sealed = match aes256gcm_seal(key_bytes, nonce, plaintext) {
        Some(sealed) => sealed,
        None => {
            return Err(CryptoError::EncryptionFailed);
        },
    };
    let iv = encode_base64(nonce);
    let ciphertext = encode_base64(sealed.as_slice());
    Ok(EncryptedData { iv, ciphertext })
}

/// Seals a payload under a 32-byte key, with a fresh random nonce.
///
/// Two calls on one input give different envelopes. Each envelope that
/// comes back opens, under the same key, to the payload.
pub fn encrypt_bytes(plaintext: &[u8], key_bytes: &[u8]) -> (r: Result<EncryptedData, CryptoError>)
    ensures
        sealing_admits(plaintext@, key_bytes@, envelope_view(r)),
{
    if key_bytes.len() != KEY_LEN {
        return Err(CryptoError::InvalidKeyLength);
    }
    let nonce = match random_bytes(NONCE_LEN) {
        Some(bytes) => bytes,
        None => {
            return Err(CryptoError::EncryptionFailed);
        },
    };
    seal_with_nonce(plaintext, key_bytes, nonce.as_slice())
}

/// Opens an envelope under a 32-byte key and gives the payload.
///
/// A payload that comes out is 16 bytes shorter than the sealed payload that
/// the envelope holds: one that is shorter than a tag never opens.
pub fn decrypt_bytes(encrypted: &EncryptedData, key_bytes: &[u8]) -> (r: Result<
    Vec<u8>,
    CryptoError,
>)
    ensures
        bytes_view(r) == open_outcome(encrypted@, key_bytes@),
        r matches Ok(plaintext) ==> base64_bytes(encrypted@.ciphertext) matches Ok(sealed)
            && sealed.len() == plaintext@.len() + TAG_LEN,
{
    if key_bytes.len() != KEY_LEN {
        return Err(CryptoError::InvalidKeyLength);
    }
    let nonce = match decode_base64(encrypted.iv.as_str()) {
        Ok(bytes) => bytes,
        Err(cause) => {
            return Err(CryptoError::Decode { field: Field::Nonce, cause });
        },
    };
    if nonce.len() != NONCE_LEN {
        return Err(CryptoError::InvalidNonceLength);
    }
    let sealed = match decode_base64(encrypted.ciphertext.as_str()) {
        Ok(bytes) => bytes,
        Err(cause) => {
            return Err(CryptoError::Decode { field: Field::Ciphertext, cause });
        },
    };
    match aes256gcm_open(key_bytes, nonce.as_slice(), sealed.as_slice()) {
        Some(plaintext) => Ok(plaintext),
        None => Err(CryptoError::DecryptionFailed),
    }
}

/// Seals a text under a 32-byte key, with a fresh random nonce. The payload
/// is the text in UTF-8.
///
/// Each envelope that comes back opens, under the same key, to the text:
/// see [`lemma_sealed_text_opens_to_itself`].
pub fn encrypt_data(data_json: &str, key_bytes: &[u8]) -> (r: Result<EncryptedData, CryptoError>)
    ensures
        sealing_admits(encode_utf8(data_json@), key_bytes@, envelope_view(r)),
{
    encrypt_bytes(data_json.as_bytes(), key_bytes)
}

/// Opens an envelope under a 32-byte key and gives the payload as a text.
/// A payload that authenticates and is no UTF-8 gives `InvalidEncoding`.
///
/// A text that comes out is, in UTF-8, 16 bytes shorter than the sealed
/// payload that the envelope holds: one that is shorter than a tag, an
/// empty one among them, never opens.
pub fn decrypt_data(encrypted: &EncryptedData, key_bytes: &[u8]) -> (r: Result<
    String,
    CryptoError,
>)
    ensures
        text_view(r) == open_text_outcome(encrypted@, key_bytes@),
        r matches Ok(text) ==> base64_bytes(encrypted@.ciphertext) matches Ok(sealed)
            && sealed.len() == encode_utf8(text@).len() + TAG_LEN,
{
    broadcast use vstd::utf8::decode_utf8_encode_utf8;

    let plaintext = match decrypt_bytes(encrypted, key_bytes) {
        Ok(bytes) => bytes,
        Err(error) => {
            return Err(error);
        },
    };
    match string_from_utf8(plaintext) {
        Some(text) => Ok(text),
        None => Err(CryptoError::InvalidEncoding),
    }
}

/// Sealing a text and opening the envelope gives the text back.
///
/// Whatever envelope sealing a text under a key may answer with: opening it
/// as a text under the same key answers with that text, character for
/// character.
pub proof fn lemma_sealed_text_opens_to_itself(
    text: Seq<char>,
    key: Seq<u8>,
    envelope: EnvelopeText,
)
    requires
        sealing_admits(encode_utf8(text), key, Ok(envelope)),
    ensures
        open_text_outcome(envelope, key) == Ok::<Seq<char>, CryptoError>(text),
{
    encode_utf8_valid_utf8(text);
    encode_utf8_decode_utf8(text);
}

/// Sealing a payload and opening the envelope gives the payload back.
pub proof fn lemma_sealed_payload_opens_to_itself(
    plaintext: Seq<u8>,
    key: Seq<u8>,
    envelope: EnvelopeText,
)
    requires
        sealing_admits(plaintext, key, Ok(envelope)),
    ensures
        open_outcome(envelope, key) == Ok::<Seq<u8>, CryptoError>(plaintext),
{
}

} // verus!
