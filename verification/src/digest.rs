//! SHA-256, computed by the `sha2` crate as the `rsa` crate hands it on.

use rsa::sha2::{Digest, Sha256};
use vstd::prelude::*;

verus! {

/// The SHA-256 digest of a byte string.
pub uninterp spec fn sha256_digest(data: Seq<u8>) -> Seq<u8>;

/// Feeds the data to a fresh `Sha256` hasher of `sha2` (`Digest::new`,
/// `Digest::update`, `Digest::finalize`).
///
/// Believed: the result is the digest named [`sha256_digest`], and it is 32
/// bytes long.
#[verifier::external_body]
pub(crate) fn sha256(data: &[u8]) -> (digest: Vec<u8>)
    ensures
        digest@ == sha256_digest(data@),
        digest@.len() == 32,
{
    let mut hasher = Sha256::new();
    hasher.update(data);
    hasher.finalize().to_vec()
}

} // verus!
