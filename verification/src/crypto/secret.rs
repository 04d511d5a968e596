//! Secrets held in `zeroize::Zeroizing`, which wipes them from memory when
//! they are dropped: the derived key and the decrypted plaintext. Each is kept
//! in a type of this library whose contents Verus does not see; the wrappers
//! below say what they hold.

use vstd::prelude::*;
use zeroize::Zeroizing;

use crate::crypto::kdf::KEY_LEN;

verus! {

/// A derived vault key, held in `Zeroizing` so that it is wiped when
/// dropped.
#[verifier::external_body]
#[derive(Debug)]
pub struct SecretKey(pub(crate) Zeroizing<[u8; KEY_LEN]>);

/// Decrypted bytes, held in `Zeroizing` so that they are wiped when dropped.
#[verifier::external_body]
#[derive(Debug)]
pub struct SecretBytes(pub(crate) Zeroizing<Vec<u8>>);

/// The key bytes that a [`SecretKey`] holds.
pub uninterp spec fn key_held(k: SecretKey) -> Seq<u8>;

/// The bytes that a [`SecretBytes`] holds.
pub uninterp spec fn bytes_held(b: SecretBytes) -> Seq<u8>;

/// Borrows the key inside a [`SecretKey`] through `Zeroizing`'s `Deref`.
/// Claimed of the crate: the borrow is the wrapped key itself.
#[verifier::external_body]
pub fn reveal_key(k: &SecretKey) -> (r: &[u8; KEY_LEN])
    ensures
        r@ == key_held(*k),
{
    &k.0
}

impl core::ops::Deref for SecretKey {
    type Target = [u8; KEY_LEN];

    /// The wrapped key, through `Zeroizing`'s `Deref`; nothing is claimed
    /// here (verified code reads the key with [`reveal_key`]).
    #[verifier::external_body]
    fn deref(&self) -> &[u8; KEY_LEN] {
        &self.0
    }
}

impl core::ops::Deref for SecretBytes {
    type Target = Vec<u8>;

    /// The wrapped bytes, through `Zeroizing`'s `Deref`; nothing is claimed.
    #[verifier::external_body]
    fn deref(&self) -> &Vec<u8> {
        &self.0
    }
}

} // verus!
