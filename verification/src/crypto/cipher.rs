//! AES-256-GCM sealing of the vault's plaintext.

use aes_gcm::aead::{Aead, Payload};
use aes_gcm::{Aes256Gcm, Key, KeyInit, Nonce};
use vstd::prelude::*;
use zeroize::Zeroizing;

use crate::crypto::random::os_random_bytes;
use crate::crypto::secret::{bytes_held, SecretBytes};
use crate::error::{CryptoError, CryptoErrorModel};

verus! {

/// Length in bytes of an AES-GCM nonce.
pub const NONCE_LEN: usize = 12;

/// Length in bytes of the authentication tag appended to every ciphertext.
pub const TAG_LEN: usize = 16;

/// Longest plaintext, and longest associated data, that AES-GCM accepts.
pub const AES_GCM_MAX_INPUT: u64 = 0x10_0000_0000;

/// Whether AES-GCM takes a plaintext and associated data of these lengths.
pub open spec fn aes_gcm_accepts(plaintext_len: nat, aad_len: nat) -> bool {
    plaintext_len <= AES_GCM_MAX_INPUT && aad_len <= AES_GCM_MAX_INPUT
}

/// The ciphertext (with its tag appended) that `Aes256Gcm::encrypt` of the
/// `aes-gcm` crate gives for a key, nonce, associated data and plaintext.
pub uninterp spec fn aes256gcm_sealed(
    key: Seq<u8>,
    nonce: Seq<u8>,
    aad: Seq<u8>,
    plaintext: Seq<u8>,
) -> Seq<u8>;

/// What `Aes256Gcm::decrypt` of the `aes-gcm` crate gives for a key, nonce,
/// associated data and ciphertext: the plaintext, or nothing when the
/// ciphertext does not authenticate.
pub uninterp spec fn aes256gcm_opened(
    key: Seq<u8>,
    nonce: Seq<u8>,
    aad: Seq<u8>,
    ciphertext: Seq<u8>,
) -> Option<Seq<u8>>;

/// A fresh nonce from the operating system's random number generator; its
/// failure is reported as [`CryptoError::Random`].
pub fn generate_nonce() -> (r: Result<[u8; NONCE_LEN], CryptoError>)
    ensures
        r is Err ==> r->Err_0@ is Random,
{
    match os_random_bytes::<NONCE_LEN>() {
        Ok(nonce) => Ok(nonce),
        Err(m) => Err(CryptoError::Random(m)),
    }
}

/// `Aes256Gcm::encrypt` of the `aes-gcm` crate, with the crate's error
/// turned into `None`.
///
/// Claimed of the crate: it fails exactly when the plaintext or the
/// associated data is longer than 2^36 bytes; otherwise the result is the
/// ciphertext named [`aes256gcm_sealed`], 16 tag bytes longer than the
/// plaintext, and decrypting it under the same key, nonce and associated data
/// gives the plaintext back.
#[verifier::external_body]
fn aes_gcm_seal(
    key: &[u8; 32],
    nonce: &[u8; NONCE_LEN],
    aad: &[u8],
    plaintext: &[u8],
) -> (r: Option<Vec<u8>>)
    ensures
        r is Some <==> aes_gcm_accepts(plaintext@.len(), aad@.len()),
        r is Some ==> r.unwrap()@ == aes256gcm_sealed(key@, nonce@, aad@, plaintext@),
        r is Some ==> r.unwrap()@.len() == plaintext@.len() + TAG_LEN,
        r is Some ==> aes256gcm_opened(key@, nonce@, aad@, r.unwrap()@) == Some(plaintext@),
{
    let cipher = Aes256Gcm::new(Key::<Aes256Gcm>::from_slice(key));
    cipher.encrypt(Nonce::from_slice(nonce), Payload { msg: plaintext, aad }).ok()
}

/// `Aes256Gcm::decrypt` of the `aes-gcm` crate, with the crate's error
/// turned into `None` and the plaintext handed over in `Zeroizing`.
///
/// Claimed of the crate: the outcome is a function of the key, nonce,
/// associated data and ciphertext (named [`aes256gcm_opened`]).
#[verifier::external_body]
fn aes_gcm_open(
    key: &[u8; 32],
    nonce: &[u8; NONCE_LEN],
    aad: &[u8],
    ciphertext: &[u8],
) -> (r: Option<SecretBytes>)
    ensures
        match r {
            Some(p) => aes256gcm_opened(key@, nonce@, aad@, ciphertext@) == Some(bytes_held(p)),
            None => aes256gcm_opened(key@, nonce@, aad@, ciphertext@) is None,
        },
{
    let cipher = Aes256Gcm::new(Key::<Aes256Gcm>::from_slice(key));
    match cipher.decrypt(Nonce::from_slice(nonce), Payload { msg: ciphertext, aad }) {
        Ok(plaintext) => Some(SecretBytes(Zeroizing::new(plaintext))),
        Err(_) => None,
    }
}

/// Encrypts and authenticates `plaintext` together with `aad`.
pub fn encrypt(
    key: &[u8; 32],
    nonce: &[u8; NONCE_LEN],
    aad: &[u8],
    plaintext: &[u8],
) -> (r: Result<Vec<u8>, CryptoError>)
    ensures
        r is Ok <==> aes_gcm_accepts(plaintext@.len(), aad@.len()),
        r matches Ok(c) ==> {
            &&& c@ == aes256gcm_sealed(key@, nonce@, aad@, plaintext@)
            &&& c@.len() == plaintext@.len() + TAG_LEN
            &&& aes256gcm_opened(key@, nonce@, aad@, c@) == Some(plaintext@)
        },
        r matches Err(e) ==> e@ == CryptoErrorModel::Encrypt,
{
    match aes_gcm_seal(key, nonce, aad, plaintext) {
        Some(c) => Ok(c),
        None => Err(CryptoError::Encrypt),
    }
}

/// Checks and decrypts `ciphertext` under `aad`; any failure to authenticate
/// is reported as [`CryptoError::Decrypt`]. The plaintext is wiped from
/// memory when dropped.
pub fn decrypt(
    key: &[u8; 32],
    nonce: &[u8; NONCE_LEN],
    aad: &[u8],
    ciphertext: &[u8],
) -> (r: Result<SecretBytes, CryptoError>)
    ensures
        match r {
            Ok(p) => aes256gcm_opened(key@, nonce@, aad@, ciphertext@) == Some(bytes_held(p)),
            Err(e) => aes256gcm_opened(key@, nonce@, aad@, ciphertext@) is None && e@
                == CryptoErrorModel::Decrypt,
        },
{
    match aes_gcm_open(key, nonce, aad, ciphertext) {
        Some(p) => Ok(p),
        None => Err(CryptoError::Decrypt),
    }
}

} // verus!
