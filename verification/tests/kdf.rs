use pwvault::crypto::kdf::{derive_key, generate_salt, KdfParams};
use pwvault::error::CryptoError;

// Fast params for tests: the production parameters (KdfParams::default) are
// deliberately expensive.
fn test_params() -> KdfParams {
    KdfParams {
        memory_kib: 8,
        iterations: 1,
        parallelism: 1,
    }
}

#[test]
fn derives_same_key_for_same_password_and_salt() {
    let salt = generate_salt().unwrap();
    let params = test_params();
    let key1 = derive_key("correct horse battery staple", &salt, &params).unwrap();
    let key2 = derive_key("correct horse battery staple", &salt, &params).unwrap();
    assert_eq!(*key1, *key2);
}

#[test]
fn derives_different_keys_for_different_passwords() {
    let salt = generate_salt().unwrap();
    let params = test_params();
    let key1 = derive_key("password-one", &salt, &params).unwrap();
    let key2 = derive_key("password-two", &salt, &params).unwrap();
    assert_ne!(*key1, *key2);
}

#[test]
fn derives_different_keys_for_different_salts() {
    let params = test_params();
    let key1 = derive_key("same-password", &generate_salt().unwrap(), &params).unwrap();
    let key2 = derive_key("same-password", &generate_salt().unwrap(), &params).unwrap();
    assert_ne!(*key1, *key2);
}

#[test]
fn generates_unique_salts() {
    let salt1 = generate_salt().unwrap();
    let salt2 = generate_salt().unwrap();
    assert_ne!(salt1, salt2);
}

#[test]
fn default_params_are_the_production_costs() {
    let params = KdfParams::default();
    assert_eq!(params.memory_kib, 65536);
    assert_eq!(params.iterations, 3);
    assert_eq!(params.parallelism, 4);
}

fn kdf_message(params: KdfParams) -> String {
    match derive_key("pw", &[1u8; 16], &params) {
        Err(CryptoError::Kdf(m)) => m,
        other => panic!("expected a KDF error, got {:?}", other),
    }
}

#[test]
fn refuses_too_little_memory() {
    let m = kdf_message(KdfParams { memory_kib: 7, iterations: 1, parallelism: 1 });
    assert_eq!(m, "memory cost is too small");
    let m = kdf_message(KdfParams { memory_kib: 15, iterations: 1, parallelism: 2 });
    assert_eq!(m, "memory cost is too small");
}

#[test]
fn refuses_zero_iterations() {
    let m = kdf_message(KdfParams { memory_kib: 8, iterations: 0, parallelism: 1 });
    assert_eq!(m, "time cost is too small");
}

#[test]
fn refuses_zero_parallelism() {
    let m = kdf_message(KdfParams { memory_kib: 8, iterations: 1, parallelism: 0 });
    assert_eq!(m, "not enough threads");
}

#[test]
fn refuses_too_much_parallelism() {
    let m = kdf_message(KdfParams { memory_kib: 0x1FFF_FFF8, iterations: 1, parallelism: 0x100_0000 });
    assert_eq!(m, "too many threads");
}

#[test]
fn kdf_error_message_names_the_cause() {
    let err = derive_key("pw", &[1u8; 16], &KdfParams { memory_kib: 8, iterations: 0, parallelism: 1 })
        .unwrap_err();
    assert_eq!(err.message(), "failed to derive key: time cost is too small");
}
