//! Cryptography of the vault: Base64 text encoding, AES-256-GCM sealing,
//! Argon2id key derivation and the vault file format built on them.

pub mod cipher;
pub mod encoding;
pub mod kdf;
pub mod random;
pub mod secret;
pub mod vault_file;
