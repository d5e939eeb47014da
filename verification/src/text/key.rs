//! Key material: raw bytes whose shape each algorithm checks for itself.

use vstd::prelude::*;
use crate::text::error::TextError;

verus! {

/// Number of bytes in a key, for every algorithm of this library.
pub const KEY_LEN: usize = 32;

/// The part of some key material that serves as the key: its first 32 bytes.
pub open spec fn key_part(material: Seq<u8>) -> Seq<u8> {
    material.take(KEY_LEN as int)
}

/// Takes the key out of raw key material.
///
/// Material shorter than a key is refused. From longer material the first 32
/// bytes are the key and the rest is ignored, so that any secret file of
/// sufficient length can serve as a key.
pub fn key_from_material(material: &[u8]) -> (res: Result<[u8; 32], TextError>)
    ensures
        match res {
            Ok(key) => material@.len() >= KEY_LEN && key@ == key_part(material@),
            Err(e) => material@.len() < KEY_LEN && e == TextError::InvalidKeyLength,
        },
{
    if material.len() < KEY_LEN {
        return Err(TextError::InvalidKeyLength);
    }
    let mut key: [u8; 32] = [0u8; 32];
    let mut i: usize = 0;
    while i < KEY_LEN
        invariant
            i <= KEY_LEN,
            material@.len() >= KEY_LEN,
            forall|j: int| 0 <= j < i ==> key@[j] == material@[j],
        decreases KEY_LEN - i,
    {
        key[i] = material[i];
        i += 1;
    }
    assert(key@ =~= key_part(material@));
    Ok(key)
}

} // verus!
