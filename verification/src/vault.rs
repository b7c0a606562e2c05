//! The key vault: a slot that holds no key or one.
//!
//! A vault starts empty. Loading puts a key in, replacing the one that was
//! there; clearing empties it; signing needs a key and changes nothing. A key
//! that leaves the slot, replaced or cleared, is overwritten first.
//!
//! The vault is a plain value. Sharing one between threads, and the lock
//! that this takes, is for the owner of the vault: every operation here runs
//! to its end on the caller's thread and waits for nothing but the random
//! source that signing draws its seed from. Where even that is too long to
//! hold a lock for, a load goes in two halves, of which the second alone
//! needs the vault, and signing takes a seed that was drawn before.

use crate::address::{address_of_modulus, address_text};
use crate::codec::{bytes_view, decode_key, decode_outcome, Jwk, JwkText, KeyParts, PrivateKeyMaterial};
use crate::error::CryptoError;
use crate::pss::{be_value, key_components_fit, key_reconstructs, MAX_MODULUS_BITS, SEED_LEN};
use crate::signing::{
    sign_accepted, sign_accepted_with_seed, sign_outcome, signature_holds, signing_admits,
    verify_outcome, SignatureConfig, PUBLIC_EXPONENT,
};
use vstd::arithmetic::power2::pow2;
use vstd::prelude::*;

verus! {

/// What loading a key answers with: the key's address and its public
/// modulus, in base64url as it was given.
#[derive(Clone, Debug, PartialEq, Eq)]
pub struct LoadKeyResponse {
    pub address: String,
    pub n: String,
}

/// The texts of a [`LoadKeyResponse`].
pub struct ResponseText {
    pub address: Seq<char>,
    pub n: Seq<char>,
}

impl View for LoadKeyResponse {
    type V = ResponseText;

    open spec fn view(&self) -> ResponseText {
        ResponseText { address: self.address@, n: self.n@ }
    }
}

/// The outcome of a load, the response as its texts.
pub open spec fn response_view(r: Result<LoadKeyResponse, CryptoError>) -> Result<
    ResponseText,
    CryptoError,
> {
    match r {
        Ok(response) => Ok(response@),
        Err(error) => Err(error),
    }
}

/// A slot for one private key. Its view is the key it holds, if any.
pub struct KeyVault {
    slot: Option<PrivateKeyMaterial>,
}

impl View for KeyVault {
    type V = Option<KeyParts>;

    closed spec fn view(&self) -> Option<KeyParts> {
        match self.slot {
            Some(key) => Some(key@),
            None => None,
        }
    }
}

/// The key that loading a serialized key would put in the slot: the decoded
/// key if its numbers form a private key, else the error that loading
/// answers with.
pub open spec fn loadable_key(jwk: JwkText) -> Result<KeyParts, CryptoError> {
    match decode_outcome(jwk) {
        Err(error) => Err(error),
        Ok(key) => if key_reconstructs(key) {
            Ok(key)
        } else {
            Err(CryptoError::KeyReconstruction)
        },
    }
}

/// What loading a serialized key answers: the address of its modulus and the
/// modulus text, or the error for which it cannot be loaded.
pub open spec fn load_outcome(jwk: JwkText) -> Result<ResponseText, CryptoError> {
    match loadable_key(jwk) {
        Err(error) => Err(error),
        Ok(key) => Ok(ResponseText { address: address_text(key.n), n: jwk.n }),
    }
}

/// The slot after a load: the new key where the load succeeds, and what was
/// there before where it fails.
pub open spec fn slot_after_load(before: Option<KeyParts>, jwk: JwkText) -> Option<KeyParts> {
    match loadable_key(jwk) {
        Err(_) => before,
        Ok(key) => Some(key),
    }
}

/// The slot after a clear: empty.
pub open spec fn slot_after_clear(before: Option<KeyParts>) -> Option<KeyParts> {
    None
}

/// What signing with the vault may answer: `NoKeyLoaded` and nothing else
/// from an empty slot; from a loaded one what signing under the data
/// profile with the loaded key may answer.
pub open spec fn vault_signing_admits(
    slot: Option<KeyParts>,
    message: Seq<u8>,
    r: Result<Seq<u8>, CryptoError>,
) -> bool {
    match slot {
        None => r == Err::<Seq<u8>, CryptoError>(CryptoError::NoKeyLoaded),
        Some(key) => key_reconstructs(key) && signing_admits(key, message, SignatureConfig::Data, r),
    }
}

/// What signing with the vault and a given seed answers: `NoKeyLoaded` from
/// an empty slot; from a loaded one what signing under the data profile
/// with the loaded key and the seed answers.
pub open spec fn vault_sign_outcome(
    slot: Option<KeyParts>,
    message: Seq<u8>,
    seed: Seq<u8>,
) -> Result<Seq<u8>, CryptoError> {
    match slot {
        None => Err(CryptoError::NoKeyLoaded),
        Some(key) => sign_outcome(key, message, SignatureConfig::Data, seed),
    }
}

/// A key that was decoded and accepted, ready to take the slot of a vault,
/// with the answer that loading it gives.
pub struct AcceptedKey {
    key: PrivateKeyMaterial,
    response: LoadKeyResponse,
}

impl AcceptedKey {
    /// The key is one that was accepted as a private key.
    #[verifier::type_invariant]
    spec fn holds_an_accepted_key(self) -> bool {
        key_reconstructs(self.key@)
    }

    /// The numbers of the key.
    pub closed spec fn parts(self) -> KeyParts {
        self.key@
    }

    /// The answer that loading the key gives.
    pub closed spec fn answer(self) -> ResponseText {
        self.response@
    }
}

/// The outcome of accepting a key, as the key's numbers and its answer.
pub open spec fn accepted_view(r: Result<AcceptedKey, CryptoError>) -> Result<
    (KeyParts, ResponseText),
    CryptoError,
> {
    match r {
        Ok(accepted) => Ok((accepted.parts(), accepted.answer())),
        Err(error) => Err(error),
    }
}

/// What accepting a serialized key answers: the key that would take the
/// slot with the answer of the load, or the error of the load.
pub open spec fn accept_outcome(jwk: JwkText) -> Result<(KeyParts, ResponseText), CryptoError> {
    match loadable_key(jwk) {
        Err(error) => Err(error),
        Ok(key) => Ok((key, ResponseText { address: address_text(key.n), n: jwk.n })),
    }
}

impl KeyVault {
    /// A key in the slot is one that was accepted as a private key.
    #[verifier::type_invariant]
    spec fn holds_an_accepted_key(self) -> bool {
        self.slot matches Some(key) ==> key_reconstructs(key@)
    }

    /// An empty vault.
    pub fn new() -> (vault: KeyVault)
        ensures
            vault@ is None,
    {
        KeyVault { slot: None }
    }

    /// Whether the slot holds a key.
    pub fn is_loaded(&self) -> (loaded: bool)
        ensures
            loaded == (self@ is Some),
    {
        self.slot.is_some()
    }

    /// Empties the slot, overwriting the key that was in it.
    fn discard(&mut self)
        ensures
            final(self)@ is None,
    {
        let mut taken = KeyVault { slot: None };
        core::mem::swap(self, &mut taken);
        match taken.slot {
            Some(mut key) => {
                key.wipe();
            },
            None => {},
        }
    }

    /// Puts an accepted key in the slot, overwriting the key that was in it.
    fn store(&mut self, key: PrivateKeyMaterial)
        requires
            key_reconstructs(key@),
        ensures
            final(self)@ == Some(key@),
    {
        self.discard();
        self.slot = Some(key);
    }
}

/// Answers for the lock of a shared vault.
///
/// Whoever shares a vault between threads takes its lock before each
/// operation and hands in what came back: the guard, or nothing where the
/// lock is poisoned. A guard is handed on as it is. A poisoned lock is the
/// error `VaultUnavailable`, on this call and on every later one: nothing
/// here recovers a vault.
pub fn vault_access<G>(guard: Option<G>) -> (r: Result<G, CryptoError>)
    ensures
        match guard {
            Some(granted) => r == Ok::<G, CryptoError>(granted),
            None => r matches Err(CryptoError::VaultUnavailable),
        },
{
    match guard {
        Some(granted) => Ok(granted),
        None => Err(CryptoError::VaultUnavailable),
    }
}

/// Decodes a serialized key and checks that its numbers form a private
/// key, without touching any vault.
///
/// This is the first half of a load, and the half that takes time. Whoever
/// shares a vault does it before taking the vault's lock. The serialized key
/// and every buffer decoded from it that is not part of the accepted key
/// are overwritten before the call returns, whatever the outcome.
pub fn accept_key(jwk: &mut Jwk) -> (r: Result<AcceptedKey, CryptoError>)
    ensures
        accepted_view(r) == accept_outcome(old(jwk)@),
        final(jwk)@.is_blank(),
{
    let decoded = decode_key(jwk);
    let n = jwk.n.clone();
    jwk.wipe();
    let mut key = match decoded {
        Ok(key) => key,
        Err(error) => {
            return Err(error);
        },
    };
    if !key_components_fit(&key) {
        key.wipe();
        return Err(CryptoError::KeyReconstruction);
    }
    let address = address_of_modulus(key.n.as_slice());
    Ok(AcceptedKey { key, response: LoadKeyResponse { address, n } })
}

/// Puts an accepted key in the slot of a vault and gives the answer of the
/// load. The key that was in the slot is overwritten and dropped.
///
/// This is the second half of a load, and all that needs the vault.
pub fn install_key(vault: &mut KeyVault, accepted: AcceptedKey) -> (response: LoadKeyResponse)
    ensures
        final(vault)@ == Some(accepted.parts()),
        response@ == accepted.answer(),
{
    proof {
        use_type_invariant(&accepted);
    }
    let AcceptedKey { key, response } = accepted;
    vault.store(key);
    response
}

/// Loads a serialized key into the vault.
///
/// The five fields are decoded and checked to form a private key. If they
/// do, the key takes the slot, the key that was there is overwritten and
/// dropped, and the answer holds the key's address and public modulus. If
/// they do not, the slot keeps what it held. Either way the serialized key
/// and every buffer decoded from it that did not go into the slot are
/// overwritten before the call returns.
pub fn enclave_load_key(vault: &mut KeyVault, jwk: &mut Jwk) -> (r: Result<
    LoadKeyResponse,
    CryptoError,
>)
    ensures
        response_view(r) == load_outcome(old(jwk)@),
        final(vault)@ == slot_after_load(old(vault)@, old(jwk)@),
        final(jwk)@.is_blank(),
{
    match accept_key(jwk) {
        Ok(accepted) => Ok(install_key(vault, accepted)),
        Err(error) => Err(error),
    }
}

/// Signs data with the key in the vault, under the data profile. The vault
/// is left as it was.
pub fn enclave_sign(vault: &KeyVault, data: &[u8]) -> (r: Result<Vec<u8>, CryptoError>)
    ensures
        vault_signing_admits(vault@, data@, bytes_view(r)),
{
    proof {
        use_type_invariant(vault);
    }
    match &vault.slot {
        None => Err(CryptoError::NoKeyLoaded),
        Some(key) => sign_accepted(key, data, SignatureConfig::Data),
    }
}

/// Signs data with the key in the vault, under the data profile, with a
/// seed that the caller drew. The vault is left as it was.
///
/// The answer is a function of the vault and the two arguments. A seed must
/// never serve twice.
pub fn enclave_sign_with_seed(vault: &KeyVault, data: &[u8], seed: &[u8]) -> (r: Result<
    Vec<u8>,
    CryptoError,
>)
    ensures
        bytes_view(r) == vault_sign_outcome(vault@, data@, seed@),
        vault@ matches Some(key) ==> signature_holds(
            key,
            data@,
            SignatureConfig::Data,
            bytes_view(r),
        ),
{
    proof {
        use_type_invariant(vault);
    }
    match &vault.slot {
        None => Err(CryptoError::NoKeyLoaded),
        Some(key) => {
            if seed.len() != SEED_LEN {
                return Err(CryptoError::SigningFailed);
            }
            sign_accepted_with_seed(key, data, SignatureConfig::Data, seed)
        },
    }
}

/// Empties the vault, overwriting the key if there is one. Clearing an empty
/// vault changes nothing and is no error.
pub fn enclave_clear(vault: &mut KeyVault)
    ensures
        final(vault)@ == slot_after_clear(old(vault)@),
{
    vault.discard();
}

/// After a load and a clear, signing answers `NoKeyLoaded`.
///
/// Whatever the vault held before, whatever key was loaded and whether the
/// load succeeded: once the vault has been cleared, every answer that
/// signing may give is `NoKeyLoaded`.
pub proof fn lemma_cleared_vault_does_not_sign(
    before: Option<KeyParts>,
    jwk: JwkText,
    message: Seq<u8>,
    r: Result<Seq<u8>, CryptoError>,
)
    requires
        vault_signing_admits(slot_after_clear(slot_after_load(before, jwk)), message, r),
    ensures
        r == Err::<Seq<u8>, CryptoError>(CryptoError::NoKeyLoaded),
{
}

/// A second load replaces the first key.
///
/// If a second key loads after a first, the slot holds the second key alone,
/// as if the first had never been loaded. Signing then answers with
/// signatures under the second key: where that key has the public exponent
/// 65537 and a modulus of at most 4096 bits, each of them verifies against
/// the second key's modulus text.
pub proof fn lemma_second_load_replaces_first(
    before: Option<KeyParts>,
    first: JwkText,
    second: JwkText,
    message: Seq<u8>,
    signature: Seq<u8>,
)
    requires
        load_outcome(second) is Ok,
        vault_signing_admits(
            slot_after_load(slot_after_load(before, first), second),
            message,
            Ok(signature),
        ),
    ensures
        slot_after_load(slot_after_load(before, first), second) == slot_after_load(before, second),
        slot_after_load(before, second) == Some(loadable_key(second)->Ok_0),
        decode_outcome(second) matches Ok(key) && (be_value(key.e) == PUBLIC_EXPONENT && be_value(
            key.n,
        ) < pow2(MAX_MODULUS_BITS as nat) ==> verify_outcome(
            second.n,
            message,
            signature,
            SignatureConfig::Data,
        ) == Ok::<bool, CryptoError>(true)),
{
}

} // verus!
