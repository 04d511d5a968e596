//! Errors of the vault core: failures of the vault file and its cryptography,
//! and the errors that the application layer hands to its user interface.

use vstd::prelude::*;
use vstd::string::*;

use crate::json::{decimal_string, decimal_text};

verus! {

/// Why a vault file could not be created, opened, re-sealed or stored.
#[derive(Debug, Clone)]
pub enum CryptoError {
    Kdf(String),
    Encrypt,
    Decrypt,
    InvalidMagic,
    UnsupportedVersion(u32),
    UnsupportedAlgorithm(String),
    Base64(String),
    Serde(String),
    Io(String),
    Random(String),
    Clock,
}

/// A [`CryptoError`] with its texts taken as character sequences.
pub enum CryptoErrorModel {
    Kdf(Seq<char>),
    Encrypt,
    Decrypt,
    InvalidMagic,
    UnsupportedVersion(u32),
    UnsupportedAlgorithm(Seq<char>),
    Base64(Seq<char>),
    Serde(Seq<char>),
    Io(Seq<char>),
    Random(Seq<char>),
    Clock,
}

impl View for CryptoError {
    type V = CryptoErrorModel;

    open spec fn view(&self) -> CryptoErrorModel {
        match self {
            CryptoError::Kdf(m) => CryptoErrorModel::Kdf(m@),
            CryptoError::Encrypt => CryptoErrorModel::Encrypt,
            CryptoError::Decrypt => CryptoErrorModel::Decrypt,
            CryptoError::InvalidMagic => CryptoErrorModel::InvalidMagic,
            CryptoError::UnsupportedVersion(v) => CryptoErrorModel::UnsupportedVersion(*v),
            CryptoError::UnsupportedAlgorithm(a) => CryptoErrorModel::UnsupportedAlgorithm(a@),
            CryptoError::Base64(m) => CryptoErrorModel::Base64(m@),
            CryptoError::Serde(m) => CryptoErrorModel::Serde(m@),
            CryptoError::Io(m) => CryptoErrorModel::Io(m@),
            CryptoError::Random(m) => CryptoErrorModel::Random(m@),
            CryptoError::Clock => CryptoErrorModel::Clock,
        }
    }
}

impl CryptoErrorModel {
    /// The human-readable description of the error.
    pub open spec fn text(self) -> Seq<char> {
        match self {
            CryptoErrorModel::Kdf(m) => "failed to derive key: "@ + m,
            CryptoErrorModel::Encrypt => "encryption failed"@,
            CryptoErrorModel::Decrypt => "failed to unlock vault: incorrect password or corrupt data"@,
            CryptoErrorModel::InvalidMagic => "vault file is not a recognized password-manager vault"@,
            CryptoErrorModel::UnsupportedVersion(v) => "unsupported vault format version: "@
                + decimal_text(v as nat),
            CryptoErrorModel::UnsupportedAlgorithm(a) => "unsupported algorithm: "@ + a,
            CryptoErrorModel::Base64(m) => "invalid base64 data: "@ + m,
            CryptoErrorModel::Serde(m) => "invalid vault json: "@ + m,
            CryptoErrorModel::Io(m) => "io error: "@ + m,
            CryptoErrorModel::Random(m) => "OS RNG failure: "@ + m,
            CryptoErrorModel::Clock => "system clock before unix epoch"@,
        }
    }

    /// Whether the error is a failure of the machine rather than of the
    /// vault: the random number generator or the clock could not be read.
    pub open spec fn is_environment(self) -> bool {
        self is Random || self is Clock
    }
}

impl CryptoError {
    /// The human-readable description of the error.
    pub fn message(&self) -> (r: String)
        ensures
            r@ == self@.text(),
    {
        match self {
            CryptoError::Kdf(m) => String::from_str("failed to derive key: ").concat(m.as_str()),
            CryptoError::Encrypt => String::from_str("encryption failed"),
            CryptoError::Decrypt => String::from_str(
                "failed to unlock vault: incorrect password or corrupt data",
            ),
            CryptoError::InvalidMagic => String::from_str(
                "vault file is not a recognized password-manager vault",
            ),
            CryptoError::UnsupportedVersion(v) => {
                let digits = decimal_string(*v);
                String::from_str("unsupported vault format version: ").concat(digits.as_str())
            },
            CryptoError::UnsupportedAlgorithm(a) => String::from_str(
                "unsupported algorithm: ",
            ).concat(a.as_str()),
            CryptoError::Base64(m) => String::from_str("invalid base64 data: ").concat(m.as_str()),
            CryptoError::Serde(m) => String::from_str("invalid vault json: ").concat(m.as_str()),
            CryptoError::Io(m) => String::from_str("io error: ").concat(m.as_str()),
            CryptoError::Random(m) => String::from_str("OS RNG failure: ").concat(m.as_str()),
            CryptoError::Clock => String::from_str("system clock before unix epoch"),
        }
    }
}

/// The errors that vault commands report to the user interface.
#[derive(Debug, Clone)]
pub enum AppError {
    Locked,
    AlreadyExists,
    NotFound,
    Crypto(String),
    Io(String),
}

/// An [`AppError`] with its texts taken as character sequences.
pub enum AppErrorModel {
    Locked,
    AlreadyExists,
    NotFound,
    Crypto(Seq<char>),
    Io(Seq<char>),
}

impl View for AppError {
    type V = AppErrorModel;

    open spec fn view(&self) -> AppErrorModel {
        match self {
            AppError::Locked => AppErrorModel::Locked,
            AppError::AlreadyExists => AppErrorModel::AlreadyExists,
            AppError::NotFound => AppErrorModel::NotFound,
            AppError::Crypto(m) => AppErrorModel::Crypto(m@),
            AppError::Io(m) => AppErrorModel::Io(m@),
        }
    }
}

impl AppErrorModel {
    /// The human-readable description of the error.
    pub open spec fn text(self) -> Seq<char> {
        match self {
            AppErrorModel::Locked => "vault is locked"@,
            AppErrorModel::AlreadyExists => "a vault already exists"@,
            AppErrorModel::NotFound => "no vault exists yet"@,
            AppErrorModel::Crypto(m) => m,
            AppErrorModel::Io(m) => m,
        }
    }
}

/// How a vault-file failure is reported to the user interface: as a crypto
/// error that carries the failure's description.
pub open spec fn reported(e: CryptoErrorModel) -> AppErrorModel {
    AppErrorModel::Crypto(e.text())
}

/// Whether `e` reports a failure of the random number generator or of the
/// clock (see [`CryptoErrorModel::is_environment`]).
pub open spec fn reports_environment(e: AppErrorModel) -> bool {
    exists|c: CryptoErrorModel| c.is_environment() && #[trigger] reported(c) == e
}

impl AppError {
    /// Reports a vault-file failure to the user interface.
    pub fn from_crypto(err: CryptoError) -> (r: AppError)
        ensures
            r@ == reported(err@),
    {
        AppError::Crypto(err.message())
    }

    /// The human-readable description of the error.
    pub fn message(&self) -> (r: String)
        ensures
            r@ == self@.text(),
    {
        match self {
            AppError::Locked => String::from_str("vault is locked"),
            AppError::AlreadyExists => String::from_str("a vault already exists"),
            AppError::NotFound => String::from_str("no vault exists yet"),
            AppError::Crypto(m) => m.clone(),
            AppError::Io(m) => m.clone(),
        }
    }
}

} // verus!
