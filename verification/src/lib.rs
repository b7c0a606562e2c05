//! A single-key signing and encryption service.
//!
//! The library decodes RSA key material from its text form, signs and
//! verifies with RSASSA-PSS under two fixed profiles, keeps at most one
//! private key in a vault, seals and opens AES-256-GCM envelopes, and audits
//! sequences of nonces for gaps.
//!
//! The arithmetic of RSA, the block cipher, the digests and the base64
//! alphabets are those of the crates that this one depends on. What is
//! believed of them, and not proved, stands in [`encoding`], [`digest`],
//! [`pss`], [`gcm`], [`entropy`] and [`wiping`], each function with the
//! claim made of it. Everything else is proved from those claims:
//!
//! - [`codec`] decodes serialized keys, and [`address`] derives a key's
//!   public identifier;
//! - [`signing`] signs and verifies, and [`vault`] keeps the one loaded key;
//! - [`envelope`] seals and opens payloads;
//! - [`audit`] checks sequences of nonces, which [`decimal`] reads;
//! - [`tokenizer`], [`dispatch`] and [`greeting`] serve callers beside the
//!   service proper.

pub mod address;
pub mod audit;
pub mod codec;
pub mod decimal;
pub mod digest;
pub mod dispatch;
pub mod encoding;
pub mod entropy;
pub mod envelope;
pub mod error;
pub mod gcm;
pub mod greeting;
pub mod pss;
pub mod signing;
pub mod tokenizer;
pub mod vault;
pub mod wiping;

pub use crate::address::jwk_to_address;
pub use crate::audit::{audit_sequence, Assignment};
pub use crate::codec::{Jwk, PrivateKeyMaterial};
pub use crate::envelope::{decrypt_data, encrypt_data, EncryptedData};
pub use crate::error::CryptoError;
pub use crate::greeting::greet;
pub use crate::signing::{
    sign_http_sig, sign_pss, sign_pss_simple, verify_pss_simple, SignatureConfig,
};
pub use crate::tokenizer::SimpleTokenizer;
pub use crate::vault::{enclave_clear, enclave_load_key, enclave_sign, KeyVault, LoadKeyResponse};
