//! Key material in its text form and as raw bytes.
//!
//! A key arrives as a [`Jwk`]: eight base64url texts, of which five are read.
//! Decoding turns them into [`PrivateKeyMaterial`], five big-endian byte
//! strings. Nothing here judges whether the numbers fit together; that is for
//! the key reconstruction that signing and the vault perform.

use crate::encoding::{base64url_bytes, decode_base64url, decoded_view};
use crate::error::{CryptoError, Field};
use crate::wiping::{wipe_bytes, wipe_text};
use vstd::prelude::*;

verus! {

/// A serialized RSA private key. Each field is base64url without padding of a
/// big-endian unsigned integer. `dp`, `dq` and `qi` are accepted and not read.
#[derive(Clone, Debug, PartialEq, Eq)]
pub struct Jwk {
    pub n: String,
    pub e: String,
    pub d: String,
    pub p: String,
    pub q: String,
    pub dp: String,
    pub dq: String,
    pub qi: String,
}

/// The texts of a [`Jwk`].
pub struct JwkText {
    pub n: Seq<char>,
    pub e: Seq<char>,
    pub d: Seq<char>,
    pub p: Seq<char>,
    pub q: Seq<char>,
    pub dp: Seq<char>,
    pub dq: Seq<char>,
    pub qi: Seq<char>,
}

impl View for Jwk {
    type V = JwkText;

    open spec fn view(&self) -> JwkText {
        JwkText {
            n: self.n@,
            e: self.e@,
            d: self.d@,
            p: self.p@,
            q: self.q@,
            dp: self.dp@,
            dq: self.dq@,
            qi: self.qi@,
        }
    }
}

impl JwkText {
    /// Every text is empty.
    pub open spec fn is_blank(self) -> bool {
        &&& self.n.len() == 0
        &&& self.e.len() == 0
        &&& self.d.len() == 0
        &&& self.p.len() == 0
        &&& self.q.len() == 0
        &&& self.dp.len() == 0
        &&& self.dq.len() == 0
        &&& self.qi.len() == 0
    }
}

impl Jwk {
    /// Overwrites all eight texts and leaves them empty.
    pub fn wipe(&mut self)
        ensures
            final(self)@.is_blank(),
    {
        wipe_text(&mut self.n);
        wipe_text(&mut self.e);
        wipe_text(&mut self.d);
        wipe_text(&mut self.p);
        wipe_text(&mut self.q);
        wipe_text(&mut self.dp);
        wipe_text(&mut self.dq);
        wipe_text(&mut self.qi);
    }
}

/// A serialized key is overwritten when it goes out of use, wherever that is.
impl Drop for Jwk {
    fn drop(&mut self)
        opens_invariants none
        no_unwind
    {
        wipe_text(&mut self.n);
        wipe_text(&mut self.e);
        wipe_text(&mut self.d);
        wipe_text(&mut self.p);
        wipe_text(&mut self.q);
        wipe_text(&mut self.dp);
        wipe_text(&mut self.dq);
        wipe_text(&mut self.qi);
    }
}

/// The five numbers of an RSA private key, each as big-endian bytes: modulus,
/// public exponent, private exponent and the two prime factors.
#[derive(Clone, Debug, PartialEq, Eq)]
pub struct PrivateKeyMaterial {
    pub n: Vec<u8>,
    pub e: Vec<u8>,
    pub d: Vec<u8>,
    pub p: Vec<u8>,
    pub q: Vec<u8>,
}

/// The bytes of a [`PrivateKeyMaterial`].
pub struct KeyParts {
    pub n: Seq<u8>,
    pub e: Seq<u8>,
    pub d: Seq<u8>,
    pub p: Seq<u8>,
    pub q: Seq<u8>,
}

impl View for PrivateKeyMaterial {
    type V = KeyParts;

    open spec fn view(&self) -> KeyParts {
        KeyParts { n: self.n@, e: self.e@, d: self.d@, p: self.p@, q: self.q@ }
    }
}

impl KeyParts {
    /// Every component is empty.
    pub open spec fn is_blank(self) -> bool {
        &&& self.n.len() == 0
        &&& self.e.len() == 0
        &&& self.d.len() == 0
        &&& self.p.len() == 0
        &&& self.q.len() == 0
    }
}

impl PrivateKeyMaterial {
    /// Overwrites all five components and leaves them empty.
    pub fn wipe(&mut self)
        ensures
            final(self)@.is_blank(),
    {
        wipe_bytes(&mut self.n);
        wipe_bytes(&mut self.e);
        wipe_bytes(&mut self.d);
        wipe_bytes(&mut self.p);
        wipe_bytes(&mut self.q);
    }
}

/// Key material is overwritten when it goes out of use, wherever that is.
impl Drop for PrivateKeyMaterial {
    fn drop(&mut self)
        opens_invariants none
        no_unwind
    {
        wipe_bytes(&mut self.n);
        wipe_bytes(&mut self.e);
        wipe_bytes(&mut self.d);
        wipe_bytes(&mut self.p);
        wipe_bytes(&mut self.q);
    }
}

/// What decoding one field's text gives: its bytes, or the field and the
/// reason why its text is not base64url.
pub open spec fn field_bytes(text: Seq<char>, field: Field) -> Result<Seq<u8>, CryptoError> {
    match base64url_bytes(text) {
        Ok(bytes) => Ok(bytes),
        Err(cause) => Err(CryptoError::Decode { field, cause }),
    }
}

/// What decoding a key gives: the fields are taken in the order `n`, `e`,
/// `d`, `p`, `q`, each on its own, and the first that fails is reported.
pub open spec fn decode_outcome(jwk: JwkText) -> Result<KeyParts, CryptoError> {
    match field_bytes(jwk.n, Field::Modulus) {
        Err(error) => Err(error),
        Ok(n) => match field_bytes(jwk.e, Field::PublicExponent) {
            Err(error) => Err(error),
            Ok(e) => match field_bytes(jwk.d, Field::PrivateExponent) {
                Err(error) => Err(error),
                Ok(d) => match field_bytes(jwk.p, Field::FirstPrime) {
                    Err(error) => Err(error),
                    Ok(p) => match field_bytes(jwk.q, Field::SecondPrime) {
                        Err(error) => Err(error),
                        Ok(q) => Ok(KeyParts { n, e, d, p, q }),
                    },
                },
            },
        },
    }
}

/// The outcome of an operation that gives bytes, the bytes as a sequence.
pub open spec fn bytes_view(r: Result<Vec<u8>, CryptoError>) -> Result<Seq<u8>, CryptoError> {
    match r {
        Ok(bytes) => Ok(bytes@),
        Err(error) => Err(error),
    }
}

/// The outcome of an operation that gives a text, the text as a sequence.
pub open spec fn text_view(r: Result<String, CryptoError>) -> Result<Seq<char>, CryptoError> {
    match r {
        Ok(text) => Ok(text@),
        Err(error) => Err(error),
    }
}

/// The outcome of a key decoding, the key as its bytes.
pub open spec fn key_view(r: Result<PrivateKeyMaterial, CryptoError>) -> Result<
    KeyParts,
    CryptoError,
> {
    match r {
        Ok(key) => Ok(key@),
        Err(error) => Err(error),
    }
}

/// Decodes one base64url field of a key or of a public modulus.
pub fn decode_field(text: &str, field: Field) -> (r: Result<Vec<u8>, CryptoError>)
    ensures
        bytes_view(r) == field_bytes(text@, field),
{
    match decode_base64url(text) {
        Ok(bytes) => Ok(bytes),
        Err(cause) => Err(CryptoError::Decode { field, cause }),
    }
}

/// Decodes the five numbers of a serialized key.
///
/// The fields are decoded in the order `n`, `e`, `d`, `p`, `q`. The first
/// whose text is not base64url without padding is reported; the buffers
/// decoded before it are overwritten before the error is returned.
pub fn decode_key(jwk: &Jwk) -> (r: Result<PrivateKeyMaterial, CryptoError>)
    ensures
        key_view(r) == decode_outcome(jwk@),
{
    let mut n = match decode_field(jwk.n.as_str(), Field::Modulus) {
        Ok(bytes) => bytes,
        Err(error) => {
            return Err(error);
        },
    };
    let mut e = match decode_field(jwk.e.as_str(), Field::PublicExponent) {
        Ok(bytes) => bytes,
        Err(error) => {
            wipe_bytes(&mut n);
            return Err(error);
        },
    };
    let mut d = match decode_field(jwk.d.as_str(), Field::PrivateExponent) {
        Ok(bytes) => bytes,
        Err(error) => {
            wipe_bytes(&mut n);
            wipe_bytes(&mut e);
            return Err(error);
        },
    };
    let mut p = match decode_field(jwk.p.as_str(), Field::FirstPrime) {
        Ok(bytes) => bytes,
        Err(error) => {
            wipe_bytes(&mut n);
            wipe_bytes(&mut e);
            wipe_bytes(&mut d);
            return Err(error);
        },
    };
    let q = match decode_field(jwk.q.as_str(), Field::SecondPrime) {
        Ok(bytes) => bytes,
        Err(error) => {
            wipe_bytes(&mut n);
            wipe_bytes(&mut e);
            wipe_bytes(&mut d);
            wipe_bytes(&mut p);
            return Err(error);
        },
    };
    Ok(PrivateKeyMaterial { n, e, d, p, q })
}

} // verus!
