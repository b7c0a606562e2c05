//! The failures that the service reports.
//!
//! Every public operation returns either its result or exactly one of the
//! kinds below, so that a caller can tell a malformed key from an empty vault
//! or a tampered envelope from a key of the wrong length.

use crate::decimal::{decimal_digits, decimal_text};
use vstd::prelude::*;
use vstd::string::StringExecFns;

verus! {

/// A text-encoded field of a key object or of an envelope.
#[derive(Clone, Copy, Debug, PartialEq, Eq, Structural)]
pub enum Field {
    /// `n`, the RSA modulus.
    Modulus,
    /// `e`, the public exponent.
    PublicExponent,
    /// `d`, the private exponent.
    PrivateExponent,
    /// `p`, the first prime factor.
    FirstPrime,
    /// `q`, the second prime factor.
    SecondPrime,
    /// `iv`, the nonce of an envelope.
    Nonce,
    /// `ciphertext`, the sealed payload of an envelope.
    Ciphertext,
}

/// Why a base64 text could not be decoded.
#[derive(Clone, Copy, Debug, PartialEq, Eq, Structural)]
pub enum Base64Fault {
    /// A byte outside the alphabet, or padding where none may stand.
    InvalidByte { offset: usize, byte: u8 },
    /// The number of symbols cannot come from whole bytes.
    InvalidLength { length: usize },
    /// The last symbol carries bits that no byte would receive.
    InvalidLastSymbol { offset: usize, byte: u8 },
    /// Padding is missing, surplus or not canonical.
    InvalidPadding,
}

/// Which decimal text of a sequence audit is not an unsigned 64-bit number.
#[derive(Clone, Copy, Debug, PartialEq, Eq, Structural)]
pub enum ParseFault {
    /// The starting nonce.
    StartNonce,
    /// The nonce of the record at `index`.
    Record { index: usize },
}

/// A failure of one call. None is retried or recovered from inside the library.
#[derive(Clone, Copy, Debug, PartialEq, Eq, Structural)]
pub enum CryptoError {
    /// A field's text is not valid base64 of the expected flavour.
    Decode { field: Field, cause: Base64Fault },
    /// The key components do not fit together arithmetically.
    KeyReconstruction,
    /// The key was accepted but no signature could be produced with it,
    /// for instance because its modulus is too short for digest and salt.
    SigningFailed,
    /// A vault operation needed a key and the vault is empty.
    NoKeyLoaded,
    /// The lock of a shared vault is poisoned: a thread panicked while it
    /// held the vault, which may be half changed. Not recovered from.
    VaultUnavailable,
    /// The symmetric key is not 32 bytes long.
    InvalidKeyLength,
    /// The nonce of an envelope is not 12 bytes long.
    InvalidNonceLength,
    /// No envelope could be produced: the payload exceeds what one key and
    /// nonce may seal, or no fresh nonce could be drawn.
    EncryptionFailed,
    /// Authentication of an envelope failed. Deliberately not told apart
    /// further: a wrong key and altered data look the same.
    DecryptionFailed,
    /// The recovered payload is not valid UTF-8.
    InvalidEncoding,
    /// A nonce of a sequence audit is not a decimal unsigned 64-bit number.
    Parse(ParseFault),
}

impl Field {
    /// The name of the field as it stands in a key object or an envelope.
    pub open spec fn spec_name(self) -> Seq<char> {
        match self {
            Field::Modulus => "n"@,
            Field::PublicExponent => "e"@,
            Field::PrivateExponent => "d"@,
            Field::FirstPrime => "p"@,
            Field::SecondPrime => "q"@,
            Field::Nonce => "IV"@,
            Field::Ciphertext => "Ciphertext"@,
        }
    }

    /// The name of the field as it stands in a key object or an envelope.
    pub fn name(self) -> (name: &'static str)
        ensures
            name@ == self.spec_name(),
    {
        match self {
            Field::Modulus => "n",
            Field::PublicExponent => "e",
            Field::PrivateExponent => "d",
            Field::FirstPrime => "p",
            Field::SecondPrime => "q",
            Field::Nonce => "IV",
            Field::Ciphertext => "Ciphertext",
        }
    }
}

impl Base64Fault {
    /// The fault in words.
    pub open spec fn spec_message(self) -> Seq<char> {
        match self {
            Base64Fault::InvalidByte { offset, byte } => "Invalid symbol "@ + decimal_digits(
                byte as nat,
            ) + ", offset "@ + decimal_digits(offset as nat) + "."@,
            Base64Fault::InvalidLength { length } => "Invalid input length: "@ + decimal_digits(
                length as nat,
            ),
            Base64Fault::InvalidLastSymbol { offset, byte } => "Invalid last symbol "@
                + decimal_digits(byte as nat) + ", offset "@ + decimal_digits(offset as nat) + "."@,
            Base64Fault::InvalidPadding => "Invalid padding"@,
        }
    }

    /// The fault in words.
    pub fn message(&self) -> (text: String)
        ensures
            text@ == self.spec_message(),
    {
        match *self {
            Base64Fault::InvalidByte { offset, byte } => {
                let mut text = String::from_str("Invalid symbol ");
                text.append(decimal_text(byte as u64).as_str());
                text.append(", offset ");
                text.append(decimal_text(offset as u64).as_str());
                text.append(".");
                text
            },
            Base64Fault::InvalidLength { length } => {
                let mut text = String::from_str("Invalid input length: ");
                text.append(decimal_text(length as u64).as_str());
                text
            },
            Base64Fault::InvalidLastSymbol { offset, byte } => {
                let mut text = String::from_str("Invalid last symbol ");
                text.append(decimal_text(byte as u64).as_str());
                text.append(", offset ");
                text.append(decimal_text(offset as u64).as_str());
                text.append(".");
                text
            },
            Base64Fault::InvalidPadding => String::from_str("Invalid padding"),
        }
    }
}

impl CryptoError {
    /// The failure in words.
    pub open spec fn spec_message(self) -> Seq<char> {
        match self {
            CryptoError::Decode { field, cause } => "Invalid "@ + field.spec_name(),
            CryptoError::KeyReconstruction => "Key reconstruction failed"@,
            CryptoError::SigningFailed => "Signing failed"@,
            CryptoError::NoKeyLoaded => "No key loaded in enclave"@,
            CryptoError::VaultUnavailable => "Lock poisoned"@,
            CryptoError::InvalidKeyLength => "Key must be 32 bytes for AES-256"@,
            CryptoError::InvalidNonceLength => "IV must be 12 bytes"@,
            CryptoError::EncryptionFailed => "Encryption failed"@,
            CryptoError::DecryptionFailed => "Decryption failed"@,
            CryptoError::InvalidEncoding => "Invalid UTF-8 in decrypted data"@,
            CryptoError::Parse(ParseFault::StartNonce) =>
                "Invalid start_nonce - must be numeric string"@,
            CryptoError::Parse(ParseFault::Record { index }) => "Invalid nonce at index "@
                + decimal_digits(index as nat),
        }
    }

    /// The failure in words, with the reason where a field does not decode.
    pub open spec fn spec_detailed_message(self) -> Seq<char> {
        match self {
            CryptoError::Decode { field, cause } => "Invalid "@ + field.spec_name() + ": "@
                + cause.spec_message(),
            _ => self.spec_message(),
        }
    }

    /// The failure in words.
    pub fn message(&self) -> (text: String)
        ensures
            text@ == self.spec_message(),
    {
        match *self {
            CryptoError::Decode { field, cause } => {
                let mut text = String::from_str("Invalid ");
                text.append(field.name());
                text
            },
            CryptoError::KeyReconstruction => String::from_str("Key reconstruction failed"),
            CryptoError::SigningFailed => String::from_str("Signing failed"),
            CryptoError::NoKeyLoaded => String::from_str("No key loaded in enclave"),
            CryptoError::VaultUnavailable => String::from_str("Lock poisoned"),
            CryptoError::InvalidKeyLength => String::from_str("Key must be 32 bytes for AES-256"),
            CryptoError::InvalidNonceLength => String::from_str("IV must be 12 bytes"),
            CryptoError::EncryptionFailed => String::from_str("Encryption failed"),
            CryptoError::DecryptionFailed => String::from_str("Decryption failed"),
            CryptoError::InvalidEncoding => String::from_str("Invalid UTF-8 in decrypted data"),
            CryptoError::Parse(ParseFault::StartNonce) => String::from_str(
                "Invalid start_nonce - must be numeric string",
            ),
            CryptoError::Parse(ParseFault::Record { index }) => {
                let mut text = String::from_str("Invalid nonce at index ");
                text.append(decimal_text(index as u64).as_str());
                text
            },
        }
    }

    /// The failure in words, with the reason where a field does not decode.
    pub fn detailed_message(&self) -> (text: String)
        ensures
            text@ == self.spec_detailed_message(),
    {
        match *self {
            CryptoError::Decode { field, cause } => {
                let mut text = self.message();
                text.append(": ");
                text.append(cause.message().as_str());
                text
            },
            _ => self.message(),
        }
    }
}

} // verus!
