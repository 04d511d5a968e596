use pwvault::crypto::cipher::{decrypt, encrypt, generate_nonce};
use pwvault::error::CryptoError;

#[test]
fn round_trips_plaintext() {
    let key = [0x42u8; 32];
    let nonce = generate_nonce().unwrap();
    let aad = b"header-v1";
    let plaintext = b"top secret entries json";

    let ciphertext = encrypt(&key, &nonce, aad, plaintext).unwrap();
    let decrypted = decrypt(&key, &nonce, aad, &ciphertext).unwrap();
    assert_eq!(&*decrypted, plaintext);
}

#[test]
fn rejects_tampered_ciphertext() {
    let key = [0x42u8; 32];
    let nonce = generate_nonce().unwrap();
    let aad = b"header-v1";
    let mut ciphertext = encrypt(&key, &nonce, aad, b"secret").unwrap();
    let last = ciphertext.len() - 1;
    ciphertext[last] ^= 0x01;
    assert!(decrypt(&key, &nonce, aad, &ciphertext).is_err());
}

#[test]
fn rejects_tampered_aad() {
    let key = [0x42u8; 32];
    let nonce = generate_nonce().unwrap();
    let ciphertext = encrypt(&key, &nonce, b"header-v1", b"secret").unwrap();
    assert!(decrypt(&key, &nonce, b"header-v2", &ciphertext).is_err());
}

#[test]
fn rejects_wrong_key() {
    let key = [0x42u8; 32];
    let wrong_key = [0x24u8; 32];
    let nonce = generate_nonce().unwrap();
    let ciphertext = encrypt(&key, &nonce, b"", b"secret").unwrap();
    assert!(decrypt(&wrong_key, &nonce, b"", &ciphertext).is_err());
}

#[test]
fn generates_unique_nonces() {
    assert_ne!(generate_nonce().unwrap(), generate_nonce().unwrap());
}

#[test]
fn ciphertext_carries_a_sixteen_byte_tag() {
    let key = [7u8; 32];
    let nonce = [1u8; 12];
    let ciphertext = encrypt(&key, &nonce, b"aad", b"twelve bytes").unwrap();
    assert_eq!(ciphertext.len(), 12 + 16);
    assert_ne!(&ciphertext[..12], b"twelve bytes");
}

#[test]
fn sealing_is_deterministic_for_fixed_inputs() {
    let key = [9u8; 32];
    let nonce = [3u8; 12];
    let a = encrypt(&key, &nonce, b"h", b"data").unwrap();
    let b = encrypt(&key, &nonce, b"h", b"data").unwrap();
    assert_eq!(a, b);
}

#[test]
fn failed_authentication_is_a_decrypt_error() {
    let key = [9u8; 32];
    let nonce = [3u8; 12];
    let err = decrypt(&key, &nonce, b"", b"too short").unwrap_err();
    assert!(matches!(err, CryptoError::Decrypt));
    assert_eq!(
        err.message(),
        "failed to unlock vault: incorrect password or corrupt data"
    );
}
