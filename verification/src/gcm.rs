//! AES-256-GCM without associated data, done by the `aes-gcm` crate.

use aes_gcm::aead::Aead;
use aes_gcm::{Aes256Gcm, Key, KeyInit, Nonce};
use vstd::prelude::*;

verus! {

/// The length of a key in bytes.
pub const KEY_LEN: usize = 32;

/// The length of a nonce in bytes.
pub const NONCE_LEN: usize = 12;

/// The length of the authentication tag in bytes.
pub const TAG_LEN: usize = 16;

/// The longest plaintext, in bytes, that one key and nonce may seal: 2^36.
pub const MAX_PLAINTEXT_LEN: u64 = 0x10_0000_0000;

/// The ciphertext of a plaintext under a key and a nonce, with the tag
/// appended.
pub uninterp spec fn aes256gcm_sealed(key: Seq<u8>, nonce: Seq<u8>, plaintext: Seq<u8>) -> Seq<u8>;

/// The plaintext that a sealed text opens to under a key and a nonce, or
/// `None` where it does not authenticate.
pub uninterp spec fn aes256gcm_opened(key: Seq<u8>, nonce: Seq<u8>, sealed: Seq<u8>) -> Option<
    Seq<u8>,
>;

/// The outcome of an opening, the plaintext as a sequence.
pub open spec fn opened_view(r: Option<Vec<u8>>) -> Option<Seq<u8>> {
    match r {
        Some(plaintext) => Some(plaintext@),
        None => None,
    }
}

/// Calls `Aead::encrypt` of `aes-gcm` on an `Aes256Gcm` made from the key,
/// with the nonce, the plaintext and no associated data.
///
/// Key and nonce must have their exact lengths: the crate panics on others.
///
/// Believed: sealing succeeds exactly for plaintexts of at most 2^36 bytes.
/// The sealed text is the one named [`aes256gcm_sealed`]; it is 16 bytes
/// longer than the plaintext; and it opens, under the same key and nonce, to
/// the plaintext.
#[verifier::external_body]
pub(crate) fn aes256gcm_seal(key: &[u8], nonce: &[u8], plaintext: &[u8]) -> (r: Option<Vec<u8>>)
    requires
        key@.len() == KEY_LEN,
        nonce@.len() == NONCE_LEN,
    ensures
        r is Some <==> plaintext@.len() <= MAX_PLAINTEXT_LEN,
        r matches Some(sealed) ==> sealed@ == aes256gcm_sealed(key@, nonce@, plaintext@),
        r matches Some(sealed) ==> sealed@.len() == plaintext@.len() + TAG_LEN,
        r matches Some(sealed) ==> aes256gcm_opened(key@, nonce@, sealed@) == Some(plaintext@),
{
    let cipher = Aes256Gcm::new(Key::<Aes256Gcm>::from_slice(key));
    cipher.encrypt(Nonce::from_slice(nonce), plaintext).ok()
}

/// Calls `Aead::decrypt` of `aes-gcm` on an `Aes256Gcm` made from the key,
/// with the nonce, the sealed text and no associated data.
///
/// Key and nonce must have their exact lengths: the crate panics on others.
///
/// Believed: the outcome is the one named [`aes256gcm_opened`]. A sealed
/// text shorter than a tag never opens, and a plaintext that comes out is 16
/// bytes shorter than the sealed text.
#[verifier::external_body]
pub(crate) fn aes256gcm_open(key: &[u8], nonce: &[u8], sealed: &[u8]) -> (r: Option<Vec<u8>>)
    requires
        key@.len() == KEY_LEN,
        nonce@.len() == NONCE_LEN,
    ensures
        opened_view(r) == aes256gcm_opened(key@, nonce@, sealed@),
        sealed@.len() < TAG_LEN ==> r is None,
        r matches Some(plaintext) ==> plaintext@.len() + TAG_LEN == sealed@.len(),
{
    let cipher = Aes256Gcm::new(Key::<Aes256Gcm>::from_slice(key));
    cipher.decrypt(Nonce::from_slice(nonce), sealed).ok()
}

} // verus!
