//! The public identifier of a key: the SHA-256 digest of its raw modulus,
//! written as base64url without padding.

use crate::codec::{decode_field, field_bytes, text_view};
use crate::digest::{sha256, sha256_digest};
use crate::encoding::{base64url_bytes, base64url_text, decoded, encode_base64url};
use crate::error::{CryptoError, Field};
use vstd::prelude::*;

verus! {

/// The address of the key whose modulus has these raw bytes.
pub open spec fn address_text(modulus: Seq<u8>) -> Seq<char> {
    base64url_text(sha256_digest(modulus))
}

/// What deriving an address from a modulus text gives: the address of the
/// decoded modulus, or the reason why the text does not decode.
pub open spec fn address_outcome(modulus_text: Seq<char>) -> Result<Seq<char>, CryptoError> {
    match field_bytes(modulus_text, Field::Modulus) {
        Ok(modulus) => Ok(address_text(modulus)),
        Err(error) => Err(error),
    }
}

/// The text is the address of the modulus, and it decodes to the digest of
/// the modulus again.
pub open spec fn is_address_of(address: Seq<char>, modulus: Seq<u8>) -> bool {
    &&& address == address_text(modulus)
    &&& base64url_bytes(address) == decoded(sha256_digest(modulus))
}

/// The address of a modulus given as raw bytes.
pub fn address_of_modulus(modulus: &[u8]) -> (address: String)
    ensures
        is_address_of(address@, modulus@),
{
    let digest = sha256(modulus);
    encode_base64url(digest.as_slice())
}

/// Derives the address of a key from its modulus in base64url.
///
/// Only the modulus is read. The result is a function of the text alone:
/// the same text gives the same address on every call.
pub fn jwk_to_address(n: &str) -> (r: Result<String, CryptoError>)
    ensures
        text_view(r) == address_outcome(n@),
        r matches Ok(address) ==> field_bytes(n@, Field::Modulus) matches Ok(modulus)
            && is_address_of(address@, modulus),
{
    match decode_field(n, Field::Modulus) {
        Ok(modulus) => Ok(address_of_modulus(modulus.as_slice())),
        Err(error) => Err(error),
    }
}

/// An address depends on the modulus text only through the bytes that the
/// text decodes to: two texts with the same decoding have the same address,
/// and so has one text on any two occasions.
pub proof fn lemma_address_is_a_function_of_the_modulus(first: Seq<char>, second: Seq<char>)
    requires
        field_bytes(first, Field::Modulus) == field_bytes(second, Field::Modulus),
    ensures
        address_outcome(first) == address_outcome(second),
{
}

/// Two moduli with different digests have different addresses: an address
/// tells the digest, so no two digests share one.
pub proof fn lemma_addresses_differ_where_digests_do(
    first: Seq<char>,
    first_modulus: Seq<u8>,
    second: Seq<char>,
    second_modulus: Seq<u8>,
)
    requires
        is_address_of(first, first_modulus),
        is_address_of(second, second_modulus),
        sha256_digest(first_modulus) != sha256_digest(second_modulus),
    ensures
        first != second,
{
}

} // verus!
