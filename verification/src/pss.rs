//! RSA key reconstruction and RSASSA-PSS, done by the `rsa` crate.
//!
//! Which key components the crate accepts is written out below, as its
//! source has it. What a signature is, and whether one is accepted, is not:
//! that is the whole of RSASSA-PSS, and each has a name for each digest.
//!
//! Signing draws its salt from a generator that is made from a seed, so that
//! a signature is a function of key, message and seed. The seed is for the
//! caller to draw afresh.

use crate::codec::{KeyParts, PrivateKeyMaterial};
use rand::rngs::StdRng;
use rand::SeedableRng;
use rsa::pss::{Signature, SigningKey, VerifyingKey};
use rsa::sha2::{Sha256, Sha512};
use rsa::{BigUint, RsaPrivateKey, RsaPublicKey};
use signature::{RandomizedSigner, SignatureEncoding, Verifier};
use vstd::arithmetic::power2::pow2;
use vstd::prelude::*;

verus! {

/// The largest public exponent that the `rsa` crate accepts: 2^33 - 1.
pub const MAX_PUBLIC_EXPONENT: u64 = 0x1_ffff_ffff;

/// The largest modulus, in bits, that the `rsa` crate verifies with.
pub const MAX_MODULUS_BITS: u64 = 4096;

/// The number that bytes denote, most significant byte first. No bytes
/// denote zero, and leading zero bytes change nothing.
pub open spec fn be_value(bytes: Seq<u8>) -> nat
    decreases bytes.len(),
{
    if bytes.len() == 0 {
        0
    } else {
        256 * be_value(bytes.drop_last()) + bytes.last() as nat
    }
}

/// The length of the seed that signing takes, in bytes.
pub const SEED_LEN: usize = 32;

/// The longest modulus, in bytes, that the `rsa` crate signs with: 2^32. Its
/// mask generation refuses to fill more.
pub const MAX_SIGNING_MODULUS_LEN: u64 = 0x1_0000_0000;

/// The number of bits of `n` written without leading zero bits.
pub open spec fn be_bits(n: nat) -> nat
    decreases n,
{
    if n == 0 {
        0
    } else {
        1 + be_bits(n / 2)
    }
}

/// The modulus `n` is too short to sign with a digest of `digest_len` bytes
/// and a salt as long: the encoded message, which is one bit shorter than
/// the modulus, has no room for digest, salt and two more bytes.
pub open spec fn too_short_to_sign(n: nat, digest_len: nat) -> bool {
    (be_bits(n) + 6) / 8 < 2 * digest_len + 2
}

/// The number of bytes of `n` written without leading zero bytes.
pub open spec fn be_len(n: nat) -> nat
    decreases n,
{
    if n == 0 {
        0
    } else {
        1 + be_len(n / 256)
    }
}

/// Modulus `n` and public exponent `e` form a public key: both odd, the
/// exponent from 2 to 2^33 - 1 and below the modulus.
pub open spec fn public_key_accepted(n: nat, e: nat) -> bool {
    &&& e < n
    &&& n % 2 == 1
    &&& e % 2 == 1
    &&& 2 <= e <= MAX_PUBLIC_EXPONENT
}

/// A public key that signatures can be verified with: a public key whose
/// modulus has at most 4096 bits.
pub open spec fn verifying_key_accepted(n: nat, e: nat) -> bool {
    &&& public_key_accepted(n, e)
    &&& n < pow2(MAX_MODULUS_BITS as nat)
}

/// The five numbers form a private key: the public half is a public key,
/// both primes exceed 1 and multiply to the modulus, and the product of the
/// two exponents leaves 1 when divided by either prime less one. Primality
/// is not asked for.
pub open spec fn key_reconstructs(key: KeyParts) -> bool {
    let n = be_value(key.n);
    let e = be_value(key.e);
    let d = be_value(key.d);
    let p = be_value(key.p);
    let q = be_value(key.q);
    &&& public_key_accepted(n, e)
    &&& p > 1
    &&& q > 1
    &&& p * q == n
    &&& (e * d) % ((p - 1) as nat) == 1
    &&& (e * d) % ((q - 1) as nat) == 1
}

/// Whether RSASSA-PSS verification with SHA-256, MGF1 over SHA-256 and a
/// 32-byte salt accepts the signature for the message, under the public key
/// with modulus `n` and exponent `e`.
pub uninterp spec fn pss_sha256_accepts(n: nat, e: nat, message: Seq<u8>, signature: Seq<u8>) -> bool;

/// Whether RSASSA-PSS verification with SHA-512, MGF1 over SHA-512 and a
/// 64-byte salt accepts the signature for the message, under the public key
/// with modulus `n` and exponent `e`.
pub uninterp spec fn pss_sha512_accepts(n: nat, e: nat, message: Seq<u8>, signature: Seq<u8>) -> bool;

/// The RSASSA-PSS signature of the message with SHA-256 under a key, the
/// 32-byte salt drawn from the generator that the seed makes; or `None`
/// where the operation fails.
pub uninterp spec fn pss_sha256_signature(key: KeyParts, message: Seq<u8>, seed: Seq<u8>) -> Option<
    Seq<u8>,
>;

/// The RSASSA-PSS signature of the message with SHA-512 under a key, the
/// 64-byte salt drawn from the generator that the seed makes; or `None`
/// where the operation fails.
pub uninterp spec fn pss_sha512_signature(key: KeyParts, message: Seq<u8>, seed: Seq<u8>) -> Option<
    Seq<u8>,
>;

/// The outcome of a signing, the signature as a sequence.
pub open spec fn signed_view(r: Option<Vec<u8>>) -> Option<Seq<u8>> {
    match r {
        Some(signature) => Some(signature@),
        None => None,
    }
}

/// What the verifier said of a signature.
#[derive(Clone, Copy, Debug, PartialEq, Eq, Structural)]
pub enum Verification {
    /// Modulus and exponent were refused as a public key.
    KeyRefused,
    /// The bytes were refused as a signature before any was verified.
    Malformed,
    /// The signature was verified and does not hold.
    Refused,
    /// The signature was verified and holds.
    Accepted,
}

/// Calls `RsaPrivateKey::from_components` of `rsa` on the five numbers, the
/// two primes as its list of primes, and tells whether it gave a key.
///
/// Believed: it gives one exactly when [`key_reconstructs`] holds. That is
/// what the crate's `validate` checks; the precomputation that follows may
/// fail and is then left out without an error.
#[verifier::external_body]
pub(crate) fn key_components_fit(key: &PrivateKeyMaterial) -> (fit: bool)
    ensures
        fit == key_reconstructs(key@),
{
    let primes = vec![BigUint::from_bytes_be(&key.p), BigUint::from_bytes_be(&key.q)];
    RsaPrivateKey::from_components(
        BigUint::from_bytes_be(&key.n),
        BigUint::from_bytes_be(&key.e),
        BigUint::from_bytes_be(&key.d),
        primes,
    ).is_ok()
}

/// Builds the key with `RsaPrivateKey::from_components` of `rsa`, drops its
/// precomputed values with `clear_precomputed`, and signs with
/// `pss::SigningKey::<Sha256>::try_sign_with_rng`, on a `StdRng` of `rand`
/// made with `from_seed`.
///
/// The components must form a key, the modulus be no longer than 2^32 bytes
/// and the seed have its length: the crate panics on a longer modulus, and
/// the seed is copied into an array of its length.
///
/// Believed: the outcome is the one named [`pss_sha256_signature`]. Every
/// signature that comes back is as long as the modulus and is one that
/// verification under the key's own modulus and public exponent accepts:
/// the crate raises each signature to the public exponent again and returns
/// it only if that gives back the encoded message. A modulus that is too
/// short for digest and salt gives no signature. Without its precomputed
/// values the crate signs by one exponentiation modulo `n`, which ends
/// whatever the primes are; the generator is ChaCha with 12 rounds and never
/// fails.
#[verifier::external_body]
pub(crate) fn pss_sign_sha256(key: &PrivateKeyMaterial, message: &[u8], seed: &[u8]) -> (r: Option<
    Vec<u8>,
>)
    requires
        key_reconstructs(key@),
        key@.n.len() <= MAX_SIGNING_MODULUS_LEN,
        seed@.len() == SEED_LEN,
    ensures
        signed_view(r) == pss_sha256_signature(key@, message@, seed@),
        r matches Some(signature) ==> pss_sha256_accepts(
            be_value(key@.n),
            be_value(key@.e),
            message@,
            signature@,
        ),
        r matches Some(signature) ==> signature@.len() == be_len(be_value(key@.n)),
        too_short_to_sign(be_value(key@.n), 32) ==> r is None,
{
    let primes = vec![BigUint::from_bytes_be(&key.p), BigUint::from_bytes_be(&key.q)];
    let n = BigUint::from_bytes_be(&key.n);
    let e = BigUint::from_bytes_be(&key.e);
    let d = BigUint::from_bytes_be(&key.d);
    let mut private = RsaPrivateKey::from_components(n, e, d, primes).ok()?;
    private.clear_precomputed();
    let mut bytes = <StdRng as SeedableRng>::Seed::default();
    bytes.copy_from_slice(seed);
    let mut salts = StdRng::from_seed(bytes);
    let signed = SigningKey::<Sha256>::new(private).try_sign_with_rng(&mut salts, message);
    Some(signed.ok()?.to_vec())
}

/// Builds the key with `RsaPrivateKey::from_components` of `rsa`, drops its
/// precomputed values with `clear_precomputed`, and signs with
/// `pss::SigningKey::<Sha512>::try_sign_with_rng`, on a `StdRng` of `rand`
/// made with `from_seed`.
///
/// The components must form a key, the modulus be no longer than 2^32 bytes
/// and the seed have its length.
///
/// Believed: as for SHA-256, with the outcome named
/// [`pss_sha512_signature`], the verification named [`pss_sha512_accepts`]
/// and a digest of 64 bytes.
#[verifier::external_body]
pub(crate) fn pss_sign_sha512(key: &PrivateKeyMaterial, message: &[u8], seed: &[u8]) -> (r: Option<
    Vec<u8>,
>)
    requires
        key_reconstructs(key@),
        key@.n.len() <= MAX_SIGNING_MODULUS_LEN,
        seed@.len() == SEED_LEN,
    ensures
        signed_view(r) == pss_sha512_signature(key@, message@, seed@),
        r matches Some(signature) ==> pss_sha512_accepts(
            be_value(key@.n),
            be_value(key@.e),
            message@,
            signature@,
        ),
        r matches Some(signature) ==> signature@.len() == be_len(be_value(key@.n)),
        too_short_to_sign(be_value(key@.n), 64) ==> r is None,
{
    let primes = vec![BigUint::from_bytes_be(&key.p), BigUint::from_bytes_be(&key.q)];
    let n = BigUint::from_bytes_be(&key.n);
    let e = BigUint::from_bytes_be(&key.e);
    let d = BigUint::from_bytes_be(&key.d);
    let mut private = RsaPrivateKey::from_components(n, e, d, primes).ok()?;
    private.clear_precomputed();
    let mut bytes = <StdRng as SeedableRng>::Seed::default();
    bytes.copy_from_slice(seed);
    let mut salts = StdRng::from_seed(bytes);
    let signed = SigningKey::<Sha512>::new(private).try_sign_with_rng(&mut salts, message);
    Some(signed.ok()?.to_vec())
}

/// Builds the public key with `RsaPublicKey::new` of `rsa`, the signature
/// with `pss::Signature::try_from`, and verifies with
/// `pss::VerifyingKey::<Sha256>::verify`. Each outcome of the three is
/// handed on as it came.
///
/// Believed: the key is refused exactly when [`verifying_key_accepted`]
/// fails. With a key, the signature is accepted exactly when
/// [`pss_sha256_accepts`] says so, and only if it is as long as the modulus
/// and denotes a number below it.
#[verifier::external_body]
pub(crate) fn pss_verify_sha256(
    modulus: &[u8],
    exponent: u32,
    message: &[u8],
    signature: &[u8],
) -> (r: Verification)
    ensures
        r is KeyRefused <==> !verifying_key_accepted(be_value(modulus@), exponent as nat),
        !(r is KeyRefused) ==> (r is Accepted <==> pss_sha256_accepts(
            be_value(modulus@),
            exponent as nat,
            message@,
            signature@,
        )),
        r is Accepted ==> signature@.len() == be_len(be_value(modulus@)),
        r is Accepted ==> be_value(signature@) < be_value(modulus@),
{
    let key = match RsaPublicKey::new(BigUint::from_bytes_be(modulus), BigUint::from(exponent)) {
        Ok(key) => key,
        Err(_) => return Verification::KeyRefused,
    };
    match Signature::try_from(signature) {
        Err(_) => Verification::Malformed,
        Ok(signature) => match VerifyingKey::<Sha256>::new(key).verify(message, &signature) {
            Ok(()) => Verification::Accepted,
            Err(_) => Verification::Refused,
        },
    }
}

/// Builds the public key with `RsaPublicKey::new` of `rsa`, the signature
/// with `pss::Signature::try_from`, and verifies with
/// `pss::VerifyingKey::<Sha512>::verify`. Each outcome of the three is
/// handed on as it came.
///
/// Believed: as for SHA-256, with the answer named [`pss_sha512_accepts`].
#[verifier::external_body]
pub(crate) fn pss_verify_sha512(
    modulus: &[u8],
    exponent: u32,
    message: &[u8],
    signature: &[u8],
) -> (r: Verification)
    ensures
        r is KeyRefused <==> !verifying_key_accepted(be_value(modulus@), exponent as nat),
        !(r is KeyRefused) ==> (r is Accepted <==> pss_sha512_accepts(
            be_value(modulus@),
            exponent as nat,
            message@,
            signature@,
        )),
        r is Accepted ==> signature@.len() == be_len(be_value(modulus@)),
        r is Accepted ==> be_value(signature@) < be_value(modulus@),
{
    let key = match RsaPublicKey::new(BigUint::from_bytes_be(modulus), BigUint::from(exponent)) {
        Ok(key) => key,
        Err(_) => return Verification::KeyRefused,
    };
    match Signature::try_from(signature) {
        Err(_) => Verification::Malformed,
        Ok(signature) => match VerifyingKey::<Sha512>::new(key).verify(message, &signature) {
            Ok(()) => Verification::Accepted,
            Err(_) => Verification::Refused,
        },
    }
}

} // verus!
