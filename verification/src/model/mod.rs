//! The vault's contents: entries and the document that holds them.

pub mod entry;
pub mod vault_data;
