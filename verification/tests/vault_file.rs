use base64::engine::general_purpose::STANDARD as B64;
use base64::Engine;
use pwvault::crypto::vault_file::{CipherHeader, KdfHeader, VaultFile, MAGIC};
use pwvault::error::CryptoError;

#[test]
fn round_trips_create_and_unlock() {
    let plaintext = br#"{"entries":[]}"#;
    let (vault, _key) = VaultFile::create("hunter2", plaintext).unwrap();
    let (_key2, decrypted) = vault.unlock("hunter2").unwrap();
    assert_eq!(&*decrypted, plaintext);
}

#[test]
fn rejects_wrong_password() {
    let (vault, _key) = VaultFile::create("correct-password", b"secret data").unwrap();
    assert!(vault.unlock("wrong-password").is_err());
}

#[test]
fn detects_tampered_ciphertext() {
    let (mut vault, _key) = VaultFile::create("hunter2", b"secret data").unwrap();
    let mut raw = B64.decode(&vault.ciphertext).unwrap();
    let last = raw.len() - 1;
    raw[last] ^= 0x01;
    vault.ciphertext = B64.encode(raw);
    assert!(vault.unlock("hunter2").is_err());
}

#[test]
fn detects_tampered_header() {
    let (mut vault, _key) = VaultFile::create("hunter2", b"secret data").unwrap();
    vault.kdf.iterations += 1; // header field is bound into AAD
    assert!(vault.unlock("hunter2").is_err());
}

#[test]
fn reencrypt_uses_fresh_nonce_and_preserves_plaintext() {
    let (mut vault, key) = VaultFile::create("hunter2", b"v1").unwrap();
    let nonce_before = vault.cipher.nonce.clone();
    vault.reencrypt(&key, b"v2").unwrap();
    assert_ne!(vault.cipher.nonce, nonce_before);
    let (_key2, decrypted) = vault.unlock("hunter2").unwrap();
    assert_eq!(&*decrypted, b"v2");
}

fn sample_vault() -> VaultFile {
    VaultFile {
        magic: MAGIC.to_string(),
        format_version: 1,
        kdf: KdfHeader {
            algorithm: "argon2id".to_string(),
            salt: "c2FsdHNhbHRzYWx0c2FsdA==".to_string(),
            memory_kib: 8,
            iterations: 1,
            parallelism: 1,
        },
        cipher: CipherHeader {
            algorithm: "aes-256-gcm".to_string(),
            nonce: "bm9uY2Vub25jZTEy".to_string(),
        },
        created_at: 1,
        modified_at: 2,
        ciphertext: String::new(),
    }
}

#[test]
fn aad_is_the_compact_json_header() {
    let aad = sample_vault().build_aad();
    let expected = String::new()
        + r#"{"magic":"PWMGRVAULT","format_version":1,"#
        + r#""kdf":{"algorithm":"argon2id","salt":"c2FsdHNhbHRzYWx0c2FsdA==","memory_kib":8,"iterations":1,"parallelism":1},"#
        + r#""cipher":{"algorithm":"aes-256-gcm","nonce":"bm9uY2Vub25jZTEy"}}"#;
    assert_eq!(String::from_utf8(aad).unwrap(), expected);
}

#[test]
fn aad_escapes_header_strings_like_json() {
    let mut vault = sample_vault();
    vault.magic = "a\"b\\c\nd\u{1}é".to_string();
    let aad = String::from_utf8(vault.build_aad()).unwrap();
    assert!(aad.starts_with(r#"{"magic":"a\"b\\c\nd\u0001é","format_version":1,"#));
}

#[test]
fn aad_changes_with_every_header_field() {
    let base = sample_vault().build_aad();
    let mut v = sample_vault();
    v.kdf.memory_kib = 80;
    assert_ne!(v.build_aad(), base);
    let mut v = sample_vault();
    v.kdf.salt.push('x');
    assert_ne!(v.build_aad(), base);
    let mut v = sample_vault();
    v.cipher.nonce = "AAAAAAAAAAAAAAAA".to_string();
    assert_ne!(v.build_aad(), base);
    let mut v = sample_vault();
    v.ciphertext = "ignored".to_string();
    v.modified_at = 99;
    assert_eq!(v.build_aad(), base);
}

#[test]
fn created_vault_has_the_production_header() {
    let (vault, _key) = VaultFile::create("pw", b"x").unwrap();
    assert_eq!(vault.magic, "PWMGRVAULT");
    assert_eq!(vault.format_version, 1);
    assert_eq!(vault.kdf.algorithm, "argon2id");
    assert_eq!(vault.kdf.memory_kib, 65536);
    assert_eq!(vault.kdf.iterations, 3);
    assert_eq!(vault.kdf.parallelism, 4);
    assert_eq!(B64.decode(&vault.kdf.salt).unwrap().len(), 16);
    assert_eq!(vault.cipher.algorithm, "aes-256-gcm");
    assert_eq!(B64.decode(&vault.cipher.nonce).unwrap().len(), 12);
    assert_eq!(B64.decode(&vault.ciphertext).unwrap().len(), 1 + 16);
}

#[test]
fn unlock_reports_header_problems_in_order() {
    let mut v = sample_vault();
    v.magic = "OTHER".to_string();
    v.format_version = 7;
    assert!(matches!(v.unlock("pw"), Err(CryptoError::InvalidMagic)));
    let mut v = sample_vault();
    v.format_version = 7;
    let err = v.unlock("pw").unwrap_err();
    assert!(matches!(err, CryptoError::UnsupportedVersion(7)));
    assert_eq!(err.message(), "unsupported vault format version: 7");
    let mut v = sample_vault();
    v.kdf.algorithm = "scrypt".to_string();
    v.cipher.algorithm = "des".to_string();
    match v.unlock("pw") {
        Err(CryptoError::UnsupportedAlgorithm(a)) => assert_eq!(a, "scrypt"),
        other => panic!("unexpected {:?}", other),
    }
    let mut v = sample_vault();
    v.cipher.algorithm = "des".to_string();
    let err = v.unlock("pw").unwrap_err();
    assert_eq!(err.message(), "unsupported algorithm: des");
}

#[test]
fn unlock_reports_bad_salt_and_nonce() {
    let mut v = sample_vault();
    v.kdf.salt = "not base64!".to_string();
    let err = v.unlock("pw").unwrap_err();
    assert!(matches!(err, CryptoError::Decrypt));
    assert_eq!(err.message(), "failed to unlock vault: incorrect password or corrupt data");
    let mut v = sample_vault();
    v.kdf.salt = B64.encode([1u8; 8]);
    assert!(matches!(v.unlock("pw"), Err(CryptoError::Decrypt)));
    let mut v = sample_vault();
    v.cipher.nonce = B64.encode([1u8; 8]);
    assert!(matches!(v.unlock("pw"), Err(CryptoError::Decrypt)));
    let mut v = sample_vault();
    v.cipher.nonce = "@@@@".to_string();
    assert!(matches!(v.unlock("pw"), Err(CryptoError::Decrypt)));
    let mut v = sample_vault();
    v.ciphertext = "%%%".to_string();
    assert!(matches!(v.unlock("pw"), Err(CryptoError::Decrypt)));
}

#[test]
fn wrong_password_and_damaged_data_give_the_same_error() {
    let (vault, _key) = VaultFile::create("right", b"payload").unwrap();
    assert!(matches!(vault.unlock("wrong"), Err(CryptoError::Decrypt)));
    let mut damaged = vault.clone();
    damaged.ciphertext = "not base64 at all!".to_string();
    assert!(matches!(damaged.unlock("right"), Err(CryptoError::Decrypt)));
    let mut tampered = vault.clone();
    let mut ct = B64.decode(&tampered.ciphertext).unwrap();
    ct[0] ^= 1;
    tampered.ciphertext = B64.encode(&ct);
    assert!(matches!(tampered.unlock("right"), Err(CryptoError::Decrypt)));
    let mut bad_nonce = vault.clone();
    bad_nonce.cipher.nonce = "!!".to_string();
    assert!(matches!(bad_nonce.decrypt_with_key(&[0u8; 32]), Err(CryptoError::Decrypt)));
}

#[test]
fn create_with_given_randomness_is_deterministic() {
    let salt = [7u8; 16];
    let nonce = [9u8; 12];
    let (a, ka) = VaultFile::create_with("pw", b"data", &salt, &nonce, 1234).unwrap();
    let (b, kb) = VaultFile::create_with("pw", b"data", &salt, &nonce, 1234).unwrap();
    assert_eq!(*ka, *kb);
    assert_eq!(a.ciphertext, b.ciphertext);
    assert_eq!(a.kdf.salt, B64.encode(salt));
    assert_eq!(a.cipher.nonce, B64.encode(nonce));
    assert_eq!(a.created_at, 1234);
    assert_eq!(a.modified_at, 1234);
    assert_eq!(B64.decode(&a.ciphertext).unwrap().len(), 4 + 16);
    let (k2, p2) = a.unlock("pw").unwrap();
    assert_eq!(*k2, *ka);
    assert_eq!(&*p2, b"data");
}

#[test]
fn reencrypt_with_stamps_the_given_nonce_and_time() {
    let mut v = sample_vault();
    let key = [5u8; 32];
    let nonce = [3u8; 12];
    v.reencrypt_with(&key, b"plain", &nonce, 99).unwrap();
    assert_eq!(v.cipher.nonce, B64.encode(nonce));
    assert_eq!(v.modified_at, 99);
    assert_eq!(v.created_at, 1);
    assert_eq!(&*v.decrypt_with_key(&key).unwrap(), b"plain");
}

#[test]
fn decrypt_with_key_opens_a_resealed_vault() {
    let mut v = sample_vault();
    let key = [5u8; 32];
    v.reencrypt(&key, b"plain").unwrap();
    assert_eq!(&*v.decrypt_with_key(&key).unwrap(), b"plain");
    assert!(matches!(v.decrypt_with_key(&[6u8; 32]), Err(CryptoError::Decrypt)));
    assert_eq!(v.created_at, 1);
}

#[test]
fn loaded_files_must_carry_the_magic() {
    let v = sample_vault();
    assert!(VaultFile::from_loaded(v).is_ok());
    let mut v = sample_vault();
    v.magic = "SOMETHING".to_string();
    assert!(matches!(VaultFile::from_loaded(v), Err(CryptoError::InvalidMagic)));
}

#[test]
fn sealings_fit_in_memory_on_this_machine() {
    assert!(pwvault::crypto::vault_file::seal_fits_in_memory(0));
    assert!(pwvault::crypto::vault_file::seal_fits_in_memory(1 << 30));
    assert!(pwvault::crypto::vault_file::seal_fits_in_memory(usize::MAX));
}

#[test]
fn header_errors_come_before_the_parallelism_limit() {
    let mut v = sample_vault();
    v.kdf.parallelism = u32::MAX;
    v.magic = "OTHER".to_string();
    assert!(v.is_derivation_checkable());
    assert!(matches!(v.unlock("pw"), Err(CryptoError::InvalidMagic)));
    let mut v = sample_vault();
    v.kdf.parallelism = u32::MAX;
    v.kdf.salt = B64.encode([1u8; 8]);
    assert!(v.is_derivation_checkable());
    assert!(matches!(v.unlock("pw"), Err(CryptoError::Decrypt)));
    let mut v = sample_vault();
    v.kdf.parallelism = 0x2000_0000;
    assert!(!v.is_derivation_checkable());
    v.kdf.parallelism = 0x1FFF_FFFF;
    assert!(v.is_derivation_checkable());
    match v.unlock("pw") {
        Err(CryptoError::Kdf(m)) => assert_eq!(m, "memory cost is too small"),
        other => panic!("unexpected {:?}", other),
    }
}

#[test]
fn a_created_vault_reseals_and_unlocks_to_the_new_plaintext() {
    let (mut vault, key) = VaultFile::create("hunter2", b"v1").unwrap();
    vault.reencrypt(&key, b"second version").unwrap();
    assert_eq!(B64.decode(&vault.ciphertext).unwrap().len(), 14 + 16);
    let (key2, decrypted) = vault.unlock("hunter2").unwrap();
    assert_eq!(*key2, *key);
    assert_eq!(&*decrypted, b"second version");
}
