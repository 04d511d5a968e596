# pwvault

The core of a desktop password vault, written in Verus and verified.

A vault file is JSON with a header (magic, format version, Argon2id
parameters and salt, AES-256-GCM nonce) and a Base64 ciphertext. The
vault's plaintext is sealed with AES-256-GCM under a key derived from the
master password with Argon2id; the header, written as compact JSON, is the
associated data, so a changed header no longer authenticates.

Layout of `src/`:

- `json.rs`: decimal numbers and JSON string literals as bytes, with the
  lemmas that let the header be read back from its encoding.
- `crypto/`: Base64 (`encoding.rs`), AES-256-GCM (`cipher.rs`), Argon2id
  (`kdf.rs`), the operating system's random bytes (`random.rs`), the
  derived key and decrypted plaintext held in `zeroize::Zeroizing` so they
  are wiped when dropped (`secret.rs`) and the vault file format
  (`vault_file.rs`), including the
  proofs that a created or re-sealed vault unlocks to what it was sealed
  with and that the associated data determines the whole header.
- `model/`: entries, their summaries and the decrypted document, with the
  lookup, edit and removal operations.
- `session.rs`: the locked or unlocked session and the entry commands, with
  the proofs about what a lookup finds after an add, an edit or a delete.
- `clipboard.rs`, `autolock.rs`, `settings.rs`, `clock.rs`, `error.rs`.

`app/` holds the Tauri application: commands, the shared state behind a
mutex, reading and atomically writing the vault file, the serde forms of the
library's types, and the background timers.
