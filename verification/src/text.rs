//! Signing and verifying byte strings.

pub mod capability;
pub mod dispatch;
pub mod ed25519;
pub mod error;
pub mod format;
pub mod key;
pub mod keyed_hash;
pub mod laws;
