//! The symmetric algorithm: the BLAKE3 keyed hash.
//!
//! One 32-byte key signs and verifies. The tag of an input is its 32-byte keyed
//! digest, and verification computes that digest again, with the same key, and
//! compares it with the tag it was given.

use vstd::prelude::*;
use crate::text::capability::{verdict, TextSigner, TextVerifier};
use crate::text::error::TextError;
use crate::text::key::{key_from_material, key_part, KEY_LEN};

verus! {

/// Number of bytes in a keyed-hash tag.
pub const BLAKE3_TAG_LEN: usize = 32;

/// The 32-byte digest that `blake3::keyed_hash` computes of `input` under the
/// 32-byte `key`.
pub uninterp spec fn blake3_keyed_hash(key: Seq<u8>, input: Seq<u8>) -> [u8; 32];

/// Calls `blake3::keyed_hash` and copies the digest out of the `Hash` that it
/// returns.
///
/// Trusted: the digest depends on the key and the input alone.
#[verifier::external_body]
fn keyed_hash(key: &[u8; 32], input: &[u8]) -> (digest: [u8; 32])
    ensures
        digest == blake3_keyed_hash(key@, input@),
{
    *::blake3::keyed_hash(key, input).as_bytes()
}

/// Whether two byte strings are equal, found without stopping at the first
/// difference.
///
/// The differences of all positions are folded into one byte, and only that
/// byte is looked at, once, at the end. The time this takes depends on the
/// length of the strings and not on where they differ, so it tells an attacker
/// nothing about how much of a forged tag is right.
pub fn constant_time_eq(a: &[u8], b: &[u8]) -> (eq: bool)
    ensures
        eq == (a@ == b@),
{
    if a.len() != b.len() {
        return false;
    }
    let mut diff: u8 = 0;
    let mut i: usize = 0;
    while i < a.len()
        invariant
            i <= a@.len(),
            a@.len() == b@.len(),
            diff == 0 <==> a@.take(i as int) =~= b@.take(i as int),
        decreases a@.len() - i,
    {
        let x: u8 = a[i];
        let y: u8 = b[i];
        proof {
            assert((diff | (x ^ y)) == 0 <==> diff == 0 && x == y) by (bit_vector);
            let a0 = a@.take(i as int);
            let b0 = b@.take(i as int);
            let a1 = a@.take(i + 1);
            let b1 = b@.take(i + 1);
            assert(a1 =~= a0.push(x));
            assert(b1 =~= b0.push(y));
            assert(a1.drop_last() =~= a0);
            assert(b1.drop_last() =~= b0);
            assert(a1.last() == x && b1.last() == y);
        }
        diff = diff | (x ^ y);
        i += 1;
    }
    proof {
        assert(a@.take(a@.len() as int) =~= a@);
        assert(b@.take(b@.len() as int) =~= b@);
    }
    diff == 0
}

/// A keyed-hash identity: the 32-byte key that both signs and verifies.
pub struct Blake3 {
    key: [u8; 32],
}

impl View for Blake3 {
    type V = Seq<u8>;

    /// The key.
    closed spec fn view(&self) -> Seq<u8> {
        self.key@
    }
}

impl Blake3 {
    /// An identity that holds `key`.
    pub fn new(key: &[u8; 32]) -> (id: Self)
        ensures
            id@ == key@,
    {
        Self { key: *key }
    }

    /// An identity from raw key material.
    ///
    /// Fails with `InvalidKeyLength` on fewer than 32 bytes. Of more than 32
    /// bytes only the first 32 are the key.
    pub fn try_new(key: &[u8]) -> (res: Result<Self, TextError>)
        ensures
            match res {
                Ok(id) => key@.len() >= KEY_LEN && id@ == key_part(key@),
                Err(e) => key@.len() < KEY_LEN && e == TextError::InvalidKeyLength,
            },
    {
        match key_from_material(key) {
            Ok(k) => Ok(Blake3::new(&k)),
            Err(e) => Err(e),
        }
    }

    /// The key of every identity has exactly 32 bytes.
    pub proof fn law_key_has_32_bytes(self)
        ensures
            self@.len() == KEY_LEN,
    {
    }

    /// Compares the digest `expected`, computed for some input, with the tag
    /// `sig` that a caller presents for that input.
    ///
    /// A tag that does not have 32 bytes is malformed: it is never cut or
    /// padded to fit. A tag of 32 bytes is compared with the digest in
    /// constant time.
    pub fn check_tag(expected: &[u8; 32], sig: &[u8]) -> (res: Result<bool, TextError>)
        ensures
            res == verdict(BLAKE3_TAG_LEN as nat, sig@, sig@ == expected@),
    {
        if sig.len() != BLAKE3_TAG_LEN {
            return Err(TextError::MalformedSignature);
        }
        Ok(constant_time_eq(expected, sig))
    }
}

impl TextSigner for Blake3 {
    /// The keyed digest of `input`.
    open spec fn tag(&self, input: Seq<u8>) -> Seq<u8> {
        blake3_keyed_hash(self@, input)@
    }

    fn sign(&self, input: &[u8]) -> (tag: Vec<u8>) {
        let digest = keyed_hash(&self.key, input);
        vstd::slice::slice_to_vec(digest.as_slice())
    }
}

impl TextVerifier for Blake3 {
    open spec fn tag_len(&self) -> nat {
        BLAKE3_TAG_LEN as nat
    }

    /// A tag is valid for `input` if it is the keyed digest of `input`.
    open spec fn accepts(&self, input: Seq<u8>, sig: Seq<u8>) -> bool {
        sig == blake3_keyed_hash(self@, input)@
    }

    fn verify(&self, input: &[u8], sig: &[u8]) -> (res: Result<bool, TextError>) {
        let digest = keyed_hash(&self.key, input);
        Blake3::check_tag(&digest, sig)
    }
}

} // verus!
