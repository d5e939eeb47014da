//! Content signing and verification behind one pair of capabilities, and the
//! answers of a small file server.
//!
//! A signer turns a byte string into a fixed-size tag, a verifier checks a tag
//! against a byte string. Two algorithms implement the capabilities: the BLAKE3
//! keyed hash, where one 32-byte key signs and verifies, and Ed25519, where a
//! signing key produces 64-byte signatures that the paired verifying key checks.
//!
//! The library works on values that the caller has already read. Reading the
//! input and the key file, and serving requests, is left to the caller.

pub mod http_serve;
pub mod text;

pub use http_serve::{file_response, FileRead};
pub use text::capability::{TextSigner, TextVerifier};
pub use text::dispatch::{process_text_sign, process_text_verify};
pub use text::ed25519::{Ed25519Signer, Ed25519Verifier};
pub use text::error::TextError;
pub use text::format::TextSignFormat;
pub use text::keyed_hash::Blake3;
