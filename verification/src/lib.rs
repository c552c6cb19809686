//! Encrypted vault engine of a personal password manager.
//!
//! Secret records (passwords, notes, cards, TOTP seeds) are turned into
//! authenticated ciphertext for storage and back, each category under a key
//! of its own, one record at a time or a whole vault at once.

pub mod codec;
pub mod encryption;
pub mod entries;
pub mod error;
pub mod hex;
pub mod json;
pub mod model;
pub mod parallel;
pub mod sequences;
pub mod text;
pub mod vault;
pub mod vault_laws;
