//! Password-vault core: the encrypted vault file format, its authenticated
//! header encoding, key derivation and sealing, and the entry store that an
//! unlocked session works on.

pub mod autolock;
pub mod clipboard;
pub mod clock;
pub mod crypto;
pub mod error;
pub mod json;
pub mod model;
pub mod session;
pub mod settings;
