//! The algorithms that a caller can select.

use vstd::prelude::*;
use crate::text::ed25519::ED25519_TAG_LEN;
use crate::text::keyed_hash::BLAKE3_TAG_LEN;

verus! {

/// Selects the algorithm, and with it the shape of the key and the length of
/// the tag.
#[derive(Clone, Copy, Debug, PartialEq, Eq)]
pub enum TextSignFormat {
    /// The BLAKE3 keyed hash: one key signs and verifies.
    Blake3,
    /// Ed25519: a signing key signs, the paired verifying key verifies.
    Ed25519,
}

impl TextSignFormat {
    /// The byte length of the tags of this algorithm: 32 for the keyed hash,
    /// 64 for Ed25519.
    pub open spec fn tag_len(self) -> nat {
        match self {
            TextSignFormat::Blake3 => BLAKE3_TAG_LEN as nat,
            TextSignFormat::Ed25519 => ED25519_TAG_LEN as nat,
        }
    }
}

} // verus!
