//! What holds of signing and verification taken together.
//!
//! Each law is stated over the functions that the contracts of the identities
//! and of the dispatch functions speak of, and is proved from their
//! definitions.

use vstd::prelude::*;
use crate::text::capability::{verification, TextSigner, TextVerifier};
use crate::text::dispatch::{sign_outcome, signed_tag, verify_outcome};
use crate::text::ed25519::{ed25519_key_decodes, Ed25519Signer, Ed25519Verifier};
use crate::text::error::TextError;
use crate::text::format::TextSignFormat;
use crate::text::key::{key_part, KEY_LEN};
use crate::text::keyed_hash::Blake3;

verus! {

/// The tag that a keyed-hash identity gives to an input is accepted by the
/// same identity for that input.
pub proof fn law_keyed_hash_round_trip(id: Blake3, input: Seq<u8>)
    ensures
        verification(id, input, id.tag(input)) == Ok::<bool, TextError>(true),
{
}

/// Signing with the keyed hash and then verifying, with the same key material
/// and the same input, answers `Ok(true)`.
pub proof fn law_keyed_hash_round_trip_by_key(key: Seq<u8>, input: Seq<u8>)
    requires
        key.len() >= KEY_LEN,
    ensures
        sign_outcome(TextSignFormat::Blake3, key, input) matches Ok(tag) && verify_outcome(
            TextSignFormat::Blake3,
            key,
            input,
            tag,
        ) == Ok::<bool, TextError>(true),
{
}

/// Asked to check the tag of one input against another input, a keyed-hash
/// identity answers `true` exactly when the two inputs have the same keyed
/// digest, and never with an error.
pub proof fn law_keyed_hash_other_input(id: Blake3, input: Seq<u8>, other: Seq<u8>)
    ensures
        verification(id, other, id.tag(input)) == Ok::<bool, TextError>(
            id.tag(other) == id.tag(input),
        ),
{
}

/// A tag of the wrong byte length is malformed, for both algorithms: 32 bytes
/// are right for the keyed hash and 64 for Ed25519.
pub proof fn law_wrong_length_is_malformed(
    keyed: Blake3,
    public: Ed25519Verifier,
    input: Seq<u8>,
    sig: Seq<u8>,
)
    ensures
        sig.len() != 32 ==> verification(keyed, input, sig) == Err::<bool, TextError>(
            TextError::MalformedSignature,
        ),
        sig.len() != 64 ==> verification(public, input, sig) == Err::<bool, TextError>(
            TextError::MalformedSignature,
        ),
{
}

/// A tag of the right byte length always gets an answer, `true` or `false`:
/// a tag that does not match is no error.
pub proof fn law_right_length_gets_answer<V: TextVerifier>(id: V, input: Seq<u8>, sig: Seq<u8>)
    requires
        sig.len() == id.tag_len(),
    ensures
        verification(id, input, sig) == Ok::<bool, TextError>(id.accepts(input, sig)),
{
}

/// Key material of fewer than 32 bytes is refused by every algorithm, for
/// signing and for verifying.
pub proof fn law_short_key_is_refused(
    format: TextSignFormat,
    key: Seq<u8>,
    input: Seq<u8>,
    sig: Seq<u8>,
)
    requires
        key.len() < KEY_LEN,
    ensures
        sign_outcome(format, key, input) == Err::<Seq<u8>, TextError>(
            TextError::InvalidKeyLength,
        ),
        verify_outcome(format, key, input, sig) == Err::<bool, TextError>(
            TextError::InvalidKeyLength,
        ),
{
}

/// Of key material only the first 32 bytes count: two key materials that
/// agree on them sign identically and verify identically.
pub proof fn law_key_is_first_32_bytes(
    format: TextSignFormat,
    key: Seq<u8>,
    longer: Seq<u8>,
    input: Seq<u8>,
    sig: Seq<u8>,
)
    requires
        key.len() >= KEY_LEN,
        longer.len() >= KEY_LEN,
        key_part(key) == key_part(longer),
    ensures
        sign_outcome(format, key, input) is Ok,
        sign_outcome(format, key, input) == sign_outcome(format, longer, input),
        verify_outcome(format, key, input, sig) == verify_outcome(format, longer, input, sig),
{
}

/// The dispatch functions do what the identity of the selected algorithm
/// does: for key material of at least 32 bytes, signing gives the tag of the
/// signing identity that holds the key, and verifying gives the answer of the
/// verifying identity that holds it.
pub proof fn law_dispatch_is_the_identity(
    keyed: Blake3,
    signer: Ed25519Signer,
    public: Ed25519Verifier,
    key: Seq<u8>,
    input: Seq<u8>,
    sig: Seq<u8>,
)
    requires
        key.len() >= KEY_LEN,
    ensures
        keyed@ == key_part(key) ==> sign_outcome(TextSignFormat::Blake3, key, input) == Ok::<
            Seq<u8>,
            TextError,
        >(keyed.tag(input)),
        keyed@ == key_part(key) ==> verify_outcome(TextSignFormat::Blake3, key, input, sig)
            == verification(keyed, input, sig),
        signer@ == key_part(key) ==> sign_outcome(TextSignFormat::Ed25519, key, input) == Ok::<
            Seq<u8>,
            TextError,
        >(signer.tag(input)),
        public@ == key_part(key) && ed25519_key_decodes(public@) ==> verify_outcome(
            TextSignFormat::Ed25519,
            key,
            input,
            sig,
        ) == verification(public, input, sig),
{
}

/// A tag that is signed has the byte length that its algorithm fixes.
pub proof fn law_tag_length(format: TextSignFormat, key: Seq<u8>, input: Seq<u8>)
    ensures
        signed_tag(format, key, input).len() == format.tag_len(),
{
}

} // verus!
