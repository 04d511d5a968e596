use pwvault::error::{AppError, CryptoError};

#[test]
fn crypto_error_messages() {
    assert_eq!(CryptoError::Encrypt.message(), "encryption failed");
    assert_eq!(
        CryptoError::InvalidMagic.message(),
        "vault file is not a recognized password-manager vault"
    );
    assert_eq!(
        CryptoError::UnsupportedVersion(4294967295).message(),
        "unsupported vault format version: 4294967295"
    );
    assert_eq!(CryptoError::UnsupportedVersion(0).message(), "unsupported vault format version: 0");
    assert_eq!(CryptoError::Kdf("x".to_string()).message(), "failed to derive key: x");
    assert_eq!(CryptoError::Serde("bad".to_string()).message(), "invalid vault json: bad");
    assert_eq!(CryptoError::Io("gone".to_string()).message(), "io error: gone");
    assert_eq!(CryptoError::Base64("b".to_string()).message(), "invalid base64 data: b");
    assert_eq!(CryptoError::Random("busy".to_string()).message(), "OS RNG failure: busy");
    assert_eq!(CryptoError::Clock.message(), "system clock before unix epoch");
}

#[test]
fn app_errors_carry_crypto_messages() {
    match AppError::from_crypto(CryptoError::Decrypt) {
        AppError::Crypto(m) => {
            assert_eq!(m, "failed to unlock vault: incorrect password or corrupt data")
        }
        other => panic!("unexpected {:?}", other),
    }
    assert_eq!(AppError::Locked.message(), "vault is locked");
    assert_eq!(AppError::AlreadyExists.message(), "a vault already exists");
    assert_eq!(AppError::NotFound.message(), "no vault exists yet");
    assert_eq!(AppError::Io("disk".to_string()).message(), "disk");
}
