//! Signing and verification with RSASSA-PSS under two fixed profiles.
//!
//! Signing takes the full private key, per call; nothing is kept. The key
//! handed in is overwritten before the call returns, whatever the outcome.
//! The salt of a signature comes from a generator that a seed makes: with
//! the seed given, a signature is a function of key, message and seed; the
//! signing functions that take none draw a fresh one from the operating
//! system, and answer `SigningFailed` where it gives none.
//!
//! Verification takes the public modulus alone and uses the fixed public
//! exponent 65537. It is strict about the salt: a signature made with a
//! salt of another length than its profile's does not verify.

use crate::codec::{
    bytes_view, decode_field, decode_key, decode_outcome, field_bytes, Jwk, JwkText, KeyParts,
    PrivateKeyMaterial,
};
use crate::entropy::random_bytes;
use crate::error::{CryptoError, Field};
use crate::pss::{
    be_len, be_value, key_components_fit, key_reconstructs, pss_sha256_accepts,
    pss_sha256_signature, pss_sha512_accepts, pss_sha512_signature, pss_sign_sha256,
    pss_sign_sha512, pss_verify_sha256, pss_verify_sha512, too_short_to_sign,
    verifying_key_accepted, Verification, MAX_MODULUS_BITS, MAX_SIGNING_MODULUS_LEN, SEED_LEN,
};
use vstd::arithmetic::power2::pow2;
use vstd::prelude::*;

verus! {

/// The public exponent that verification uses.
pub const PUBLIC_EXPONENT: u32 = 65537;

/// A digest algorithm.
#[derive(Clone, Copy, Debug, PartialEq, Eq, Structural)]
pub enum DigestAlgorithm {
    Sha256,
    Sha512,
}

impl DigestAlgorithm {
    /// The length of a digest in bytes.
    pub open spec fn spec_output_len(self) -> usize {
        match self {
            DigestAlgorithm::Sha256 => 32,
            DigestAlgorithm::Sha512 => 64,
        }
    }

    /// The length of a digest in bytes.
    #[verifier::when_used_as_spec(spec_output_len)]
    pub fn output_len(self) -> (len: usize)
        ensures
            len == self.spec_output_len(),
    {
        match self {
            DigestAlgorithm::Sha256 => 32,
            DigestAlgorithm::Sha512 => 64,
        }
    }
}

/// One of the two signing profiles. A profile fixes the digest, and with it
/// the mask generation function and the length of the salt, which is that of
/// a digest. Nothing is negotiated.
#[derive(Clone, Copy, Debug, PartialEq, Eq, Structural)]
pub enum SignatureConfig {
    /// SHA-256 with a 32-byte salt, for signing data.
    Data,
    /// SHA-512 with a 64-byte salt, for transport signatures.
    Transport,
}

impl SignatureConfig {
    /// The digest of the profile.
    pub open spec fn spec_digest(self) -> DigestAlgorithm {
        match self {
            SignatureConfig::Data => DigestAlgorithm::Sha256,
            SignatureConfig::Transport => DigestAlgorithm::Sha512,
        }
    }

    /// The digest of the profile.
    #[verifier::when_used_as_spec(spec_digest)]
    pub fn digest(self) -> (digest: DigestAlgorithm)
        ensures
            digest == self.spec_digest(),
    {
        match self {
            SignatureConfig::Data => DigestAlgorithm::Sha256,
            SignatureConfig::Transport => DigestAlgorithm::Sha512,
        }
    }

    /// The length of the salt in bytes: that of the profile's digest.
    pub fn salt_len(self) -> (len: usize)
        ensures
            len == self.spec_digest().spec_output_len(),
    {
        self.digest().output_len()
    }
}

/// Whether verification under `profile` accepts the signature for the
/// message, with the public key of modulus `n` and exponent `e`.
pub open spec fn pss_accepts(
    profile: SignatureConfig,
    n: nat,
    e: nat,
    message: Seq<u8>,
    signature: Seq<u8>,
) -> bool {
    match profile {
        SignatureConfig::Data => pss_sha256_accepts(n, e, message, signature),
        SignatureConfig::Transport => pss_sha512_accepts(n, e, message, signature),
    }
}

/// The signature of a message under a profile, with a key and a seed, or
/// `None` where the operation fails.
pub open spec fn signature_for(
    profile: SignatureConfig,
    key: KeyParts,
    message: Seq<u8>,
    seed: Seq<u8>,
) -> Option<Seq<u8>> {
    match profile {
        SignatureConfig::Data => pss_sha256_signature(key, message, seed),
        SignatureConfig::Transport => pss_sha512_signature(key, message, seed),
    }
}

/// What signing with a given seed answers: `KeyReconstruction` for
/// components that form no key; `SigningFailed` for a seed that is not 32
/// bytes long, for a modulus of more than 2^32 bytes and where the operation
/// fails; else the signature.
pub open spec fn sign_outcome(
    key: KeyParts,
    message: Seq<u8>,
    profile: SignatureConfig,
    seed: Seq<u8>,
) -> Result<Seq<u8>, CryptoError> {
    if !key_reconstructs(key) {
        Err(CryptoError::KeyReconstruction)
    } else if seed.len() != SEED_LEN || key.n.len() > MAX_SIGNING_MODULUS_LEN {
        Err(CryptoError::SigningFailed)
    } else {
        match signature_for(profile, key, message, seed) {
            Some(signature) => Ok(signature),
            None => Err(CryptoError::SigningFailed),
        }
    }
}

/// What holds of every answer of a signing. A signature is as long as the
/// modulus, and verification under the same profile accepts it for this
/// message and the key's own public half. A key whose modulus is too short
/// for the profile's digest and salt gives `SigningFailed`.
pub open spec fn signature_holds(
    key: KeyParts,
    message: Seq<u8>,
    profile: SignatureConfig,
    r: Result<Seq<u8>, CryptoError>,
) -> bool {
    &&& r matches Ok(signature) ==> {
        &&& pss_accepts(profile, be_value(key.n), be_value(key.e), message, signature)
        &&& signature.len() == be_len(be_value(key.n))
    }
    &&& key_reconstructs(key) && too_short_to_sign(
        be_value(key.n),
        profile.spec_digest().spec_output_len() as nat,
    ) ==> r == Err::<Seq<u8>, CryptoError>(CryptoError::SigningFailed)
}

/// What signing with a fresh seed may answer.
///
/// Components that do not form a key give `KeyReconstruction` and nothing
/// else. With a key, the answer is `SigningFailed`, or what signing with
/// some seed of 32 bytes answers. Of every answer [`signature_holds`].
pub open spec fn signing_admits(
    key: KeyParts,
    message: Seq<u8>,
    profile: SignatureConfig,
    r: Result<Seq<u8>, CryptoError>,
) -> bool {
    &&& if !key_reconstructs(key) {
        r == Err::<Seq<u8>, CryptoError>(CryptoError::KeyReconstruction)
    } else {
        ||| r == Err::<Seq<u8>, CryptoError>(CryptoError::SigningFailed)
        ||| exists|seed: Seq<u8>|
            seed.len() == SEED_LEN && r == #[trigger] sign_outcome(key, message, profile, seed)
    }
    &&& signature_holds(key, message, profile, r)
}

/// What signing with a serialized key may answer: the error of the first
/// field that does not decode, else what [`signing_admits`] says of the
/// decoded key.
pub open spec fn jwk_signing_admits(
    jwk: JwkText,
    message: Seq<u8>,
    profile: SignatureConfig,
    r: Result<Seq<u8>, CryptoError>,
) -> bool {
    match decode_outcome(jwk) {
        Err(error) => r == Err::<Seq<u8>, CryptoError>(error),
        Ok(key) => signing_admits(key, message, profile, r),
    }
}

/// What verification answers: the reason why the modulus text does not
/// decode, `KeyReconstruction` where the modulus and 65537 form no public
/// key of at most 4096 bits, and else whether the signature is accepted.
pub open spec fn verify_outcome(
    modulus_text: Seq<char>,
    message: Seq<u8>,
    signature: Seq<u8>,
    profile: SignatureConfig,
) -> Result<bool, CryptoError> {
    match field_bytes(modulus_text, Field::Modulus) {
        Err(error) => Err(error),
        Ok(modulus) => {
            if verifying_key_accepted(be_value(modulus), PUBLIC_EXPONENT as nat) {
                Ok(pss_accepts(profile, be_value(modulus), PUBLIC_EXPONENT as nat, message, signature))
            } else {
                Err(CryptoError::KeyReconstruction)
            }
        },
    }
}

/// The library's answer for each thing the verifier may say: a refused key
/// is `KeyReconstruction`; bytes that are refused as a signature, and a
/// signature that does not hold, are the plain answer `false`, no error.
pub open spec fn verification_answer(said: Verification) -> Result<bool, CryptoError> {
    match said {
        Verification::KeyRefused => Err(CryptoError::KeyReconstruction),
        Verification::Malformed => Ok(false),
        Verification::Refused => Ok(false),
        Verification::Accepted => Ok(true),
    }
}

/// The shape of a signature that can verify against a modulus text: as many
/// bytes as the modulus has without leading zeros, and a number below it.
pub open spec fn signature_fits(modulus_text: Seq<char>, signature: Seq<u8>) -> bool {
    &&& field_bytes(modulus_text, Field::Modulus) matches Ok(modulus)
    &&& signature.len() == be_len(be_value(modulus))
    &&& be_value(signature) < be_value(modulus)
}

/// Turns what the verifier said into the library's answer.
pub fn verification_result(said: Verification) -> (r: Result<bool, CryptoError>)
    ensures
        r == verification_answer(said),
{
    match said {
        Verification::KeyRefused => Err(CryptoError::KeyReconstruction),
        Verification::Malformed => Ok(false),
        Verification::Refused => Ok(false),
        Verification::Accepted => Ok(true),
    }
}

/// Signs with a key that is known to be one, and a seed of the right length.
pub(crate) fn sign_accepted_with_seed(
    key: &PrivateKeyMaterial,
    message: &[u8],
    profile: SignatureConfig,
    seed: &[u8],
) -> (r: Result<Vec<u8>, CryptoError>)
    requires
        key_reconstructs(key@),
        seed@.len() == SEED_LEN,
    ensures
        bytes_view(r) == sign_outcome(key@, message@, profile, seed@),
        signature_holds(key@, message@, profile, bytes_view(r)),
{
    if key.n.len() as u64 > MAX_SIGNING_MODULUS_LEN {
        return Err(CryptoError::SigningFailed);
    }
    let signed = match profile {
        SignatureConfig::Data => pss_sign_sha256(key, message, seed),
        SignatureConfig::Transport => pss_sign_sha512(key, message, seed),
    };
    match signed {
        Some(signature) => Ok(signature),
        None => Err(CryptoError::SigningFailed),
    }
}

/// Signs with a key that is known to be one, and a fresh seed.
pub(crate) fn sign_accepted(key: &PrivateKeyMaterial, message: &[u8], profile: SignatureConfig) -> (r:
    Result<Vec<u8>, CryptoError>)
    requires
        key_reconstructs(key@),
    ensures
        signing_admits(key@, message@, profile, bytes_view(r)),
{
    match random_bytes(SEED_LEN) {
        Some(seed) => sign_accepted_with_seed(key, message, profile, seed.as_slice()),
        None => Err(CryptoError::SigningFailed),
    }
}

/// Signs a message with a seed that the caller supplies.
///
/// The answer is a function of the four arguments: the salt of the
/// signature comes from a generator that the seed makes. A seed must never
/// serve twice: [`sign_with_key`] draws a fresh one and is the function to
/// sign with.
pub fn sign_with_seed(
    key: &PrivateKeyMaterial,
    message: &[u8],
    profile: SignatureConfig,
    seed: &[u8],
) -> (r: Result<Vec<u8>, CryptoError>)
    ensures
        bytes_view(r) == sign_outcome(key@, message@, profile, seed@),
        signature_holds(key@, message@, profile, bytes_view(r)),
{
    if !key_components_fit(key) {
        return Err(CryptoError::KeyReconstruction);
    }
    if seed.len() != SEED_LEN {
        return Err(CryptoError::SigningFailed);
    }
    sign_accepted_with_seed(key, message, profile, seed)
}

/// Signs a message with key material that the caller keeps.
///
/// The key is rebuilt from its five numbers and the message signed under
/// the profile, with a salt that comes from a fresh random seed: two calls
/// on the same input give different signatures, and each of them verifies.
pub fn sign_with_key(key: &PrivateKeyMaterial, message: &[u8], profile: SignatureConfig) -> (r:
    Result<Vec<u8>, CryptoError>)
    ensures
        signing_admits(key@, message@, profile, bytes_view(r)),
{
    if !key_components_fit(key) {
        return Err(CryptoError::KeyReconstruction);
    }
    sign_accepted(key, message, profile)
}

/// Signs a message with key material handed over for this one call.
///
/// Answers as [`sign_with_key`] does. The key material is overwritten and
/// left empty before the call returns, whatever the outcome.
pub fn sign(key: &mut PrivateKeyMaterial, message: &[u8], profile: SignatureConfig) -> (r: Result<
    Vec<u8>,
    CryptoError,
>)
    ensures
        signing_admits(old(key)@, message@, profile, bytes_view(r)),
        final(key)@.is_blank(),
{
    let r = sign_with_key(key, message, profile);
    key.wipe();
    r
}

/// Signs a message with a serialized key handed over for this one call.
///
/// The five fields are decoded, the key rebuilt and the message signed under
/// the profile. The serialized key and every buffer decoded from it are
/// overwritten before the call returns, whatever the outcome.
pub fn sign_with_jwk(jwk: &mut Jwk, message: &[u8], profile: SignatureConfig) -> (r: Result<
    Vec<u8>,
    CryptoError,
>)
    ensures
        jwk_signing_admits(old(jwk)@, message@, profile, bytes_view(r)),
        final(jwk)@.is_blank(),
{
    let decoded = decode_key(jwk);
    jwk.wipe();
    match decoded {
        Err(error) => Err(error),
        Ok(mut key) => sign(&mut key, message, profile),
    }
}

/// Signs data under the data profile. The salt length is fixed by the
/// profile at 32 bytes; `salt_len` is accepted and not read.
pub fn sign_pss(jwk: &mut Jwk, data: &[u8], salt_len: i32) -> (r: Result<Vec<u8>, CryptoError>)
    ensures
        jwk_signing_admits(old(jwk)@, data@, SignatureConfig::Data, bytes_view(r)),
        final(jwk)@.is_blank(),
{
    let _: i32 = salt_len;
    sign_with_jwk(jwk, data, SignatureConfig::Data)
}

/// Signs data under the data profile: SHA-256 and a 32-byte salt.
pub fn sign_pss_simple(jwk: &mut Jwk, data: &[u8]) -> (r: Result<Vec<u8>, CryptoError>)
    ensures
        jwk_signing_admits(old(jwk)@, data@, SignatureConfig::Data, bytes_view(r)),
        final(jwk)@.is_blank(),
{
    sign_with_jwk(jwk, data, SignatureConfig::Data)
}

/// Signs data under the transport profile: SHA-512 and a 64-byte salt.
pub fn sign_http_sig(jwk: &mut Jwk, data: &[u8]) -> (r: Result<Vec<u8>, CryptoError>)
    ensures
        jwk_signing_admits(old(jwk)@, data@, SignatureConfig::Transport, bytes_view(r)),
        final(jwk)@.is_blank(),
{
    sign_with_jwk(jwk, data, SignatureConfig::Transport)
}

/// Verifies a signature against a public modulus in base64url, under the
/// given profile and the public exponent 65537.
///
/// A signature that does not verify, for whatever reason, is answered with
/// `Ok(false)`: a wrong length, a value not below the modulus, another key,
/// another message or another salt length. In particular only a signature
/// of the modulus's length that denotes a number below the modulus is ever
/// answered with `Ok(true)`. Errors are kept for a modulus that does not
/// decode or forms no public key.
pub fn verify(n_str: &str, data: &[u8], signature: &[u8], profile: SignatureConfig) -> (r: Result<
    bool,
    CryptoError,
>)
    ensures
        r == verify_outcome(n_str@, data@, signature@, profile),
        r matches Ok(true) ==> signature_fits(n_str@, signature@),
{
    let modulus = match decode_field(n_str, Field::Modulus) {
        Ok(bytes) => bytes,
        Err(error) => {
            return Err(error);
        },
    };
    let said = match profile {
        SignatureConfig::Data => pss_verify_sha256(modulus.as_slice(), PUBLIC_EXPONENT, data, signature),
        SignatureConfig::Transport => pss_verify_sha512(
            modulus.as_slice(),
            PUBLIC_EXPONENT,
            data,
            signature,
        ),
    };
    verification_result(said)
}

/// Verifies a signature under the data profile: SHA-256 and a 32-byte salt.
pub fn verify_pss_simple(n_str: &str, data: &[u8], signature: &[u8]) -> (r: Result<
    bool,
    CryptoError,
>)
    ensures
        r == verify_outcome(n_str@, data@, signature@, SignatureConfig::Data),
        r matches Ok(true) ==> signature_fits(n_str@, signature@),
{
    verify(n_str, data, signature, SignatureConfig::Data)
}

/// A private key with public exponent 65537 and a modulus of at most 4096
/// bits has a public half that verification accepts.
pub proof fn lemma_private_key_has_verifying_key(key: KeyParts)
    requires
        key_reconstructs(key),
        be_value(key.e) == PUBLIC_EXPONENT,
        be_value(key.n) < pow2(MAX_MODULUS_BITS as nat),
    ensures
        verifying_key_accepted(be_value(key.n), PUBLIC_EXPONENT as nat),
{
}

/// Signing followed by verification answers `true`.
///
/// For a serialized key whose public exponent is 65537 and whose modulus has
/// at most 4096 bits: every signature that signing a message under a profile
/// may return is one for which verification of the same message under the
/// same profile, against the key's modulus text, answers `Ok(true)`.
pub proof fn lemma_signature_verifies(
    jwk: JwkText,
    message: Seq<u8>,
    signature: Seq<u8>,
    profile: SignatureConfig,
)
    requires
        jwk_signing_admits(jwk, message, profile, Ok(signature)),
        decode_outcome(jwk) matches Ok(key) && be_value(key.e) == PUBLIC_EXPONENT && be_value(key.n)
            < pow2(MAX_MODULUS_BITS as nat),
    ensures
        verify_outcome(jwk.n, message, signature, profile) == Ok::<bool, CryptoError>(true),
{
    let key = decode_outcome(jwk)->Ok_0;
    lemma_private_key_has_verifying_key(key);
}

} // verus!
