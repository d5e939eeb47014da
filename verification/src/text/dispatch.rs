//! One call for a whole operation: select the algorithm, build the identity
//! from the key material, then sign or verify once.
//!
//! A failure to build the identity ends the operation: nothing is signed or
//! verified with a key that was refused, and nothing is tried again.

use vstd::prelude::*;
use crate::text::capability::{verdict, TextSigner, TextVerifier};
use crate::text::ed25519::{
    ed25519_accepts,
    ed25519_key_decodes,
    ed25519_signature,
    Ed25519Signer,
    Ed25519Verifier,
};
use crate::text::error::TextError;
use crate::text::format::TextSignFormat;
use crate::text::key::{key_part, KEY_LEN};
use crate::text::keyed_hash::{blake3_keyed_hash, Blake3};

verus! {

/// The tag that the algorithm `format` gives to `input` under the 32-byte
/// `key`.
pub open spec fn signed_tag(format: TextSignFormat, key: Seq<u8>, input: Seq<u8>) -> Seq<u8> {
    match format {
        TextSignFormat::Blake3 => blake3_keyed_hash(key, input)@,
        TextSignFormat::Ed25519 => ed25519_signature(key, input)@,
    }
}

/// Whether the 32-byte `key` is one that the algorithm `format` can verify
/// with.
pub open spec fn verifying_key_ok(format: TextSignFormat, key: Seq<u8>) -> bool {
    match format {
        TextSignFormat::Blake3 => true,
        TextSignFormat::Ed25519 => ed25519_key_decodes(key),
    }
}

/// Whether the algorithm `format` finds `sig`, a tag of the right length,
/// valid for `input` under the 32-byte `key`.
pub open spec fn tag_accepted(
    format: TextSignFormat,
    key: Seq<u8>,
    input: Seq<u8>,
    sig: Seq<u8>,
) -> bool {
    match format {
        TextSignFormat::Blake3 => sig == blake3_keyed_hash(key, input)@,
        TextSignFormat::Ed25519 => ed25519_accepts(key, input, sig),
    }
}

/// What [`process_text_sign`] answers.
pub open spec fn sign_outcome(format: TextSignFormat, key: Seq<u8>, input: Seq<u8>) -> Result<
    Seq<u8>,
    TextError,
> {
    if key.len() < KEY_LEN {
        Err(TextError::InvalidKeyLength)
    } else {
        Ok(signed_tag(format, key_part(key), input))
    }
}

/// Signs `input` by the algorithm `format`, with the key taken from the raw
/// key material `key`.
///
/// Fails with `InvalidKeyLength` on key material of fewer than 32 bytes, and
/// on no other. For Ed25519 the key material is the signing key.
pub fn process_text_sign(input: &[u8], key: &[u8], format: TextSignFormat) -> (res: Result<
    Vec<u8>,
    TextError,
>)
    ensures
        match res {
            Ok(tag) => {
                &&& sign_outcome(format, key@, input@) == Ok::<Seq<u8>, TextError>(tag@)
                &&& tag@.len() == format.tag_len()
            },
            Err(e) => sign_outcome(format, key@, input@) == Err::<Seq<u8>, TextError>(e),
        },
{
    match format {
        TextSignFormat::Blake3 => {
            match Blake3::try_new(key) {
                Ok(signer) => Ok(signer.sign(input)),
                Err(e) => Err(e),
            }
        },
        TextSignFormat::Ed25519 => {
            match Ed25519Signer::try_new(key) {
                Ok(signer) => Ok(signer.sign(input)),
                Err(e) => Err(e),
            }
        },
    }
}

/// What [`process_text_verify`] answers.
pub open spec fn verify_outcome(
    format: TextSignFormat,
    key: Seq<u8>,
    input: Seq<u8>,
    sig: Seq<u8>,
) -> Result<bool, TextError> {
    if key.len() < KEY_LEN || !verifying_key_ok(format, key_part(key)) {
        Err(TextError::InvalidKeyLength)
    } else {
        verdict(format.tag_len(), sig, tag_accepted(format, key_part(key), input, sig))
    }
}

/// Checks the tag `sig` against `input` by the algorithm `format`, with the
/// key taken from the raw key material `key`.
///
/// The identity is built first, so a key that is refused is reported before a
/// malformed tag is. For Ed25519 the key material is the verifying key.
pub fn process_text_verify(input: &[u8], key: &[u8], format: TextSignFormat, sig: &[u8]) -> (res:
    Result<bool, TextError>)
    ensures
        res == verify_outcome(format, key@, input@, sig@),
{
    match format {
        TextSignFormat::Blake3 => {
            match Blake3::try_new(key) {
                Ok(id) => id.verify(input, sig),
                Err(e) => Err(e),
            }
        },
        TextSignFormat::Ed25519 => {
            match Ed25519Verifier::try_new(key) {
                Ok(id) => id.verify(input, sig),
                Err(e) => Err(e),
            }
        },
    }
}

} // verus!
