//! The asymmetric algorithm: Ed25519.
//!
//! Two identities, never one that plays both parts. The signer holds a 32-byte
//! signing key and produces 64-byte signatures. The verifier holds the 32-byte
//! verifying key that is paired with a signing key, and checks signatures.
//!
//! The arithmetic is that of `ed25519-dalek`. This module holds keys and
//! signatures as plain bytes, decides which bytes may reach the arithmetic, and
//! says what comes back.

use vstd::prelude::*;
use crate::text::capability::{verification, TextSigner, TextVerifier};
use crate::text::error::TextError;
use crate::text::key::{key_from_material, key_part, KEY_LEN};

verus! {

/// Number of bytes in an Ed25519 signature.
pub const ED25519_TAG_LEN: usize = 64;

/// The signature that `ed25519_dalek::SigningKey::sign` gives to `input` under
/// the signing key made of the 32 bytes `key`.
pub uninterp spec fn ed25519_signature(key: Seq<u8>, input: Seq<u8>) -> [u8; 64];

/// The bytes of the verifying key that `ed25519_dalek::SigningKey::verifying_key`
/// gives for the signing key made of the 32 bytes `key`.
pub uninterp spec fn ed25519_public_key(key: Seq<u8>) -> [u8; 32];

/// Whether `ed25519_dalek::VerifyingKey::from_bytes` takes the 32 bytes `key`
/// for a verifying key, which it does if they are the encoding of a point of
/// the curve.
pub uninterp spec fn ed25519_key_decodes(key: Seq<u8>) -> bool;

/// Whether `ed25519_dalek::VerifyingKey::verify` finds the 64 bytes `sig` to be
/// a signature of `input` under the verifying key with the bytes `key`.
pub uninterp spec fn ed25519_accepts(key: Seq<u8>, input: Seq<u8>, sig: Seq<u8>) -> bool;

/// Builds the signing key with `SigningKey::from_bytes`, calls
/// `SigningKey::sign` on it, and returns the bytes that `Signature::to_bytes`
/// gives.
///
/// Trusted, and proved nowhere in this library: the signature depends on the
/// key and the input alone, and the verifying key that is paired with the
/// signing key accepts it for this input.
#[verifier::external_body]
fn sign_detached(key: &[u8; 32], input: &[u8]) -> (sig: [u8; 64])
    ensures
        sig == ed25519_signature(key@, input@),
        ed25519_accepts(ed25519_public_key(key@)@, input@, sig@),
{
    ed25519_dalek::Signer::sign(&ed25519_dalek::SigningKey::from_bytes(key), input).to_bytes()
}

/// Builds the signing key with `SigningKey::from_bytes`, calls
/// `SigningKey::verifying_key` on it, and returns the bytes that
/// `VerifyingKey::to_bytes` gives.
///
/// Trusted: the bytes depend on the signing key alone, and
/// `VerifyingKey::from_bytes` takes them for a verifying key again.
#[verifier::external_body]
fn derive_public_key(key: &[u8; 32]) -> (public: [u8; 32])
    ensures
        public == ed25519_public_key(key@),
        ed25519_key_decodes(public@),
{
    ed25519_dalek::SigningKey::from_bytes(key).verifying_key().to_bytes()
}

/// Calls `VerifyingKey::from_bytes` and tells whether it succeeded.
///
/// Trusted: the answer depends on the bytes alone.
#[verifier::external_body]
fn key_decodes(key: &[u8; 32]) -> (ok: bool)
    ensures
        ok == ed25519_key_decodes(key@),
{
    ed25519_dalek::VerifyingKey::from_bytes(key).is_ok()
}

/// Builds the verifying key with `VerifyingKey::from_bytes` and the signature
/// with `Signature::from_bytes`, calls `VerifyingKey::verify`, and tells
/// whether it succeeded.
///
/// Trusted: for a key that decodes, the answer depends on the key, the input
/// and the signature alone.
#[verifier::external_body]
fn verify_detached(key: &[u8; 32], input: &[u8], sig: &[u8; 64]) -> (ok: bool)
    requires
        ed25519_key_decodes(key@),
    ensures
        ok == ed25519_accepts(key@, input@, sig@),
{
    match ed25519_dalek::VerifyingKey::from_bytes(key) {
        Ok(vk) => ed25519_dalek::Verifier::verify(
            &vk,
            input,
            &ed25519_dalek::Signature::from_bytes(sig),
        ).is_ok(),
        Err(_) => false,
    }
}

/// Reads a tag as the 64 bytes of a signature.
///
/// A tag of any other length is malformed: it is never cut or padded to fit.
pub fn signature_bytes(sig: &[u8]) -> (res: Result<[u8; 64], TextError>)
    ensures
        match res {
            Ok(bytes) => sig@.len() == ED25519_TAG_LEN && bytes@ == sig@,
            Err(e) => sig@.len() != ED25519_TAG_LEN && e == TextError::MalformedSignature,
        },
{
    if sig.len() != ED25519_TAG_LEN {
        return Err(TextError::MalformedSignature);
    }
    let mut bytes: [u8; 64] = [0u8; 64];
    let mut i: usize = 0;
    while i < ED25519_TAG_LEN
        invariant
            i <= ED25519_TAG_LEN,
            sig@.len() == ED25519_TAG_LEN,
            forall|j: int| 0 <= j < i ==> bytes@[j] == sig@[j],
        decreases ED25519_TAG_LEN - i,
    {
        bytes[i] = sig[i];
        i += 1;
    }
    assert(bytes@ =~= sig@);
    Ok(bytes)
}

/// An Ed25519 signing identity: the 32-byte signing key.
///
/// It produces signatures and nothing else. To check them, take the paired
/// [`Ed25519Verifier`].
pub struct Ed25519Signer {
    key: [u8; 32],
}

impl View for Ed25519Signer {
    type V = Seq<u8>;

    /// The signing key.
    closed spec fn view(&self) -> Seq<u8> {
        self.key@
    }
}

impl Ed25519Signer {
    /// An identity that holds the signing key `key`. Every 32 bytes are a
    /// signing key.
    pub fn new(key: &[u8; 32]) -> (id: Self)
        ensures
            id@ == key@,
    {
        Self { key: *key }
    }

    /// An identity from raw key material.
    ///
    /// Fails with `InvalidKeyLength` on fewer than 32 bytes. Of more than 32
    /// bytes only the first 32 are the key.
    pub fn try_new(key: &[u8]) -> (res: Result<Self, TextError>)
        ensures
            match res {
                Ok(id) => key@.len() >= KEY_LEN && id@ == key_part(key@),
                Err(e) => key@.len() < KEY_LEN && e == TextError::InvalidKeyLength,
            },
    {
        match key_from_material(key) {
            Ok(k) => Ok(Ed25519Signer::new(&k)),
            Err(e) => Err(e),
        }
    }

    /// The verifying identity that is paired with this signing identity.
    pub fn paired_verifier(&self) -> (paired: Ed25519Verifier)
        ensures
            paired@ == ed25519_public_key(self@)@,
    {
        let public = derive_public_key(&self.key);
        Ed25519Verifier::new(&public)
    }

    /// The key of every identity has exactly 32 bytes.
    pub proof fn law_key_has_32_bytes(self)
        ensures
            self@.len() == KEY_LEN,
    {
    }
}

impl TextSigner for Ed25519Signer {
    /// The Ed25519 signature of `input`.
    open spec fn tag(&self, input: Seq<u8>) -> Seq<u8> {
        ed25519_signature(self@, input)@
    }

    /// Signs the whole of `input`. The signature has 64 bytes, and every
    /// verifying identity that holds the paired verifying key answers
    /// `Ok(true)` when it is asked to check the signature against `input`.
    fn sign(&self, input: &[u8]) -> (tag: Vec<u8>)
        ensures
            tag@.len() == ED25519_TAG_LEN,
            forall|paired: Ed25519Verifier|
                paired@ == ed25519_public_key(self@)@ ==> #[trigger] verification(
                    paired,
                    input@,
                    tag@,
                ) == Ok::<bool, TextError>(true),
    {
        let sig = sign_detached(&self.key, input);
        vstd::slice::slice_to_vec(sig.as_slice())
    }
}

/// An Ed25519 verifying identity: the 32 bytes of a verifying key.
///
/// The bytes of every such identity decode to a point of the curve.
pub struct Ed25519Verifier {
    key: [u8; 32],
}

impl View for Ed25519Verifier {
    type V = Seq<u8>;

    /// The verifying key.
    closed spec fn view(&self) -> Seq<u8> {
        self.key@
    }
}

impl Ed25519Verifier {
    #[verifier::type_invariant]
    spec fn key_is_valid(self) -> bool {
        ed25519_key_decodes(self.key@)
    }

    /// An identity that holds the verifying key `key`.
    pub fn new(key: &[u8; 32]) -> (id: Self)
        requires
            ed25519_key_decodes(key@),
        ensures
            id@ == key@,
    {
        Self { key: *key }
    }

    /// An identity from raw key material.
    ///
    /// Fails with `InvalidKeyLength` on fewer than 32 bytes, and where the
    /// first 32 bytes are not the encoding of a point of the curve. Of more
    /// than 32 bytes only the first 32 are the key.
    pub fn try_new(key: &[u8]) -> (res: Result<Self, TextError>)
        ensures
            match res {
                Ok(id) => key@.len() >= KEY_LEN && ed25519_key_decodes(key_part(key@)) && id@
                    == key_part(key@),
                Err(e) => (key@.len() < KEY_LEN || !ed25519_key_decodes(key_part(key@))) && e
                    == TextError::InvalidKeyLength,
            },
    {
        match key_from_material(key) {
            Ok(k) => Ed25519Verifier::from_key(&k),
            Err(e) => Err(e),
        }
    }

    /// An identity from 32 bytes that may or may not be a verifying key.
    pub fn from_key(key: &[u8; 32]) -> (res: Result<Self, TextError>)
        ensures
            match res {
                Ok(id) => ed25519_key_decodes(key@) && id@ == key@,
                Err(e) => !ed25519_key_decodes(key@) && e == TextError::InvalidKeyLength,
            },
    {
        if key_decodes(key) {
            Ok(Ed25519Verifier::new(key))
        } else {
            Err(TextError::InvalidKeyLength)
        }
    }

    /// The key of every identity has exactly 32 bytes.
    pub proof fn law_key_has_32_bytes(self)
        ensures
            self@.len() == KEY_LEN,
    {
    }
}

impl TextVerifier for Ed25519Verifier {
    open spec fn tag_len(&self) -> nat {
        ED25519_TAG_LEN as nat
    }

    /// A tag is valid for `input` if the verification equation of Ed25519
    /// holds of it, `input` and the key.
    open spec fn accepts(&self, input: Seq<u8>, sig: Seq<u8>) -> bool {
        ed25519_accepts(self@, input, sig)
    }

    fn verify(&self, input: &[u8], sig: &[u8]) -> (res: Result<bool, TextError>) {
        proof {
            use_type_invariant(self);
        }
        match signature_bytes(sig) {
            Ok(bytes) => Ok(verify_detached(&self.key, input, &bytes)),
            Err(e) => Err(e),
        }
    }
}

} // verus!
