//! The two capabilities: producing a tag for an input, and checking one.
//!
//! Each algorithm implements them for an identity of its own, which holds only
//! the key that the algorithm needs.

use vstd::prelude::*;
use crate::text::error::TextError;

verus! {

/// An identity that can produce a tag for any input.
pub trait TextSigner {
    /// The tag that this identity gives to `input`.
    spec fn tag(&self, input: Seq<u8>) -> Seq<u8>;

    /// Signs the whole of `input`.
    fn sign(&self, input: &[u8]) -> (tag: Vec<u8>)
        ensures
            tag@ == self.tag(input@),
    ;
}

/// An identity that can check a tag against any input.
pub trait TextVerifier {
    /// The byte length of every tag of this identity's algorithm.
    spec fn tag_len(&self) -> nat;

    /// Whether `sig`, a tag of the right length, is valid for `input` under
    /// this identity.
    spec fn accepts(&self, input: Seq<u8>, sig: Seq<u8>) -> bool;

    /// Checks `sig` against the whole of `input`.
    ///
    /// A tag of the wrong length is a mistake of the caller and is reported as
    /// an error. Any other tag gets an answer: `true` if it is valid for
    /// exactly this input under this identity, `false` if it is not.
    fn verify(&self, input: &[u8], sig: &[u8]) -> (res: Result<bool, TextError>)
        ensures
            res == verdict(self.tag_len(), sig@, self.accepts(input@, sig@)),
    ;
}

/// What verification answers for a tag `sig`, where tags have `tag_len` bytes
/// and `accepted` says whether the algorithm finds the tag valid.
pub open spec fn verdict(tag_len: nat, sig: Seq<u8>, accepted: bool) -> Result<bool, TextError> {
    if sig.len() != tag_len {
        Err(TextError::MalformedSignature)
    } else {
        Ok(accepted)
    }
}

/// What `verifier` answers when it is asked to check `sig` against `input`.
pub open spec fn verification<V: TextVerifier>(verifier: V, input: Seq<u8>, sig: Seq<u8>) -> Result<
    bool,
    TextError,
> {
    verdict(verifier.tag_len(), sig, verifier.accepts(input, sig))
}

} // verus!
