use rcli::text::key::key_from_material;
use rcli::text::keyed_hash::constant_time_eq;
use rcli::{Blake3, TextError, TextSigner, TextVerifier};

fn hex(text: &str) -> Vec<u8> {
    let digits: Vec<u8> = text
        .bytes()
        .map(|c| match c {
            b'0'..=b'9' => c - b'0',
            b'a'..=b'f' => c - b'a' + 10,
            _ => panic!("not a hex digit"),
        })
        .collect();
    digits.chunks(2).map(|pair| pair[0] * 16 + pair[1]).collect()
}

#[test]
fn hello_world_under_the_zero_key() {
    let id = Blake3::new(&[0u8; 32]);
    let tag = id.sign(b"hello world");
    assert_eq!(tag.len(), 32);
    assert_eq!(id.verify(b"hello world", &tag), Ok(true));
    assert_eq!(id.verify(b"hello worlD", &tag), Ok(false));
}

#[test]
fn keyed_hash_tag_is_the_keyed_digest() {
    let key = [7u8; 32];
    let id = Blake3::new(&key);
    let inputs: [&[u8]; 4] = [b"", b"a", b"hello world", &[0x5au8; 3000]];
    for input in inputs {
        let tag = id.sign(input);
        assert_eq!(tag.as_slice(), blake3::keyed_hash(&key, input).as_bytes());
    }
}

#[test]
fn keyed_hash_known_answer() {
    let mut key = [0u8; 32];
    key.copy_from_slice(b"whats the Elvish word for friend");
    let id = Blake3::new(&key);
    let expected = hex("92b2b75604ed3c761f9d6f62392c8a9227ad0ea3f09573e783f1498a4ed60d26");
    assert_eq!(id.sign(b""), expected);
    assert_eq!(id.verify(b"", &expected), Ok(true));
}

#[test]
fn keyed_hash_is_not_the_plain_hash() {
    let id = Blake3::new(&[0u8; 32]);
    let plain = blake3::hash(b"hello world");
    assert_ne!(id.sign(b"hello world").as_slice(), plain.as_bytes());
    assert_eq!(id.verify(b"hello world", plain.as_bytes()), Ok(false));
}

#[test]
fn keyed_hash_is_deterministic() {
    let id = Blake3::new(&[3u8; 32]);
    assert_eq!(id.sign(b"same input"), id.sign(b"same input"));
    let again = Blake3::new(&[3u8; 32]);
    assert_eq!(id.sign(b"same input"), again.sign(b"same input"));
}

#[test]
fn keyed_hash_round_trip() {
    let keys = [[0u8; 32], [1u8; 32], [0xffu8; 32]];
    let inputs: [&[u8]; 3] = [b"", b"x", b"The quick brown fox jumps over the lazy dog"];
    for key in keys {
        let id = Blake3::new(&key);
        for input in inputs {
            let tag = id.sign(input);
            assert_eq!(id.verify(input, &tag), Ok(true));
        }
    }
}

#[test]
fn keyed_hash_rejects_every_single_bit_mutation() {
    let id = Blake3::new(&[9u8; 32]);
    let input = b"hello world".to_vec();
    let tag = id.sign(&input);
    for byte in 0..input.len() {
        for bit in 0..8 {
            let mut other = input.clone();
            other[byte] ^= 1 << bit;
            assert_eq!(id.verify(&other, &tag), Ok(false));
        }
    }
}

#[test]
fn keyed_hash_rejects_a_mutated_tag() {
    let id = Blake3::new(&[9u8; 32]);
    let tag = id.sign(b"hello world");
    for byte in 0..tag.len() {
        let mut other = tag.clone();
        other[byte] ^= 0x80;
        assert_eq!(id.verify(b"hello world", &other), Ok(false));
    }
}

#[test]
fn keyed_hash_rejects_the_tag_of_another_key() {
    let signer = Blake3::new(&[1u8; 32]);
    let other = Blake3::new(&[2u8; 32]);
    let tag = signer.sign(b"hello world");
    assert_eq!(other.verify(b"hello world", &tag), Ok(false));
}

#[test]
fn keyed_hash_tag_of_wrong_length_is_malformed() {
    let id = Blake3::new(&[0u8; 32]);
    let tag = id.sign(b"hello world");
    assert_eq!(id.verify(b"hello world", &tag[..31]), Err(TextError::MalformedSignature));
    let mut longer = tag.clone();
    longer.push(0);
    assert_eq!(longer.len(), 33);
    assert_eq!(id.verify(b"hello world", &longer), Err(TextError::MalformedSignature));
    assert_eq!(id.verify(b"hello world", &[]), Err(TextError::MalformedSignature));
    assert_eq!(id.verify(b"hello world", &[0u8; 64]), Err(TextError::MalformedSignature));
}

#[test]
fn check_tag_compares_all_bytes() {
    let expected = [5u8; 32];
    assert_eq!(Blake3::check_tag(&expected, &[5u8; 32]), Ok(true));
    let mut last = [5u8; 32];
    last[31] = 4;
    assert_eq!(Blake3::check_tag(&expected, &last), Ok(false));
    let mut first = [5u8; 32];
    first[0] = 6;
    assert_eq!(Blake3::check_tag(&expected, &first), Ok(false));
    assert_eq!(Blake3::check_tag(&expected, &[5u8; 31]), Err(TextError::MalformedSignature));
    assert_eq!(Blake3::check_tag(&expected, &[5u8; 33]), Err(TextError::MalformedSignature));
}

#[test]
fn constant_time_eq_is_equality() {
    assert!(constant_time_eq(b"", b""));
    assert!(constant_time_eq(b"abc", b"abc"));
    assert!(!constant_time_eq(b"abc", b"abd"));
    assert!(!constant_time_eq(b"abc", b"bbc"));
    assert!(!constant_time_eq(b"abc", b"ab"));
    assert!(!constant_time_eq(b"", b"a"));
    assert!(!constant_time_eq(&[0x0f, 0xf0], &[0xf0, 0x0f]));
    assert!(!constant_time_eq(&[1, 2], &[2, 1]));
}

#[test]
fn short_key_material_is_refused() {
    assert!(matches!(Blake3::try_new(&[]), Err(TextError::InvalidKeyLength)));
    assert!(matches!(Blake3::try_new(&[1u8; 31]), Err(TextError::InvalidKeyLength)));
    assert_eq!(key_from_material(&[1u8; 31]), Err(TextError::InvalidKeyLength));
}

#[test]
fn key_is_the_first_32_bytes_of_the_material() {
    let mut material = [0u8; 40];
    for i in 0..40 {
        material[i] = i as u8;
    }
    let mut prefix = [0u8; 32];
    prefix.copy_from_slice(&material[..32]);
    assert_eq!(key_from_material(&material), Ok(prefix));
    assert_eq!(key_from_material(&prefix), Ok(prefix));

    let long = Blake3::try_new(&material).unwrap();
    let exact = Blake3::try_new(&prefix).unwrap();
    let direct = Blake3::new(&prefix);
    let tag = exact.sign(b"hello world");
    assert_eq!(long.sign(b"hello world"), tag);
    assert_eq!(direct.sign(b"hello world"), tag);
    assert_eq!(long.verify(b"hello world", &tag), Ok(true));

    material[32] = 0xff;
    let changed_tail = Blake3::try_new(&material).unwrap();
    assert_eq!(changed_tail.sign(b"hello world"), tag);
    material[31] = 0xff;
    let changed_key = Blake3::try_new(&material).unwrap();
    assert_ne!(changed_key.sign(b"hello world"), tag);
}
