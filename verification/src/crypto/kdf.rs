//! Argon2id derivation of the vault key from the master password.

use argon2::{Algorithm, Argon2, Params, Version};
use vstd::prelude::*;
use zeroize::Zeroizing;

use crate::crypto::random::os_random_bytes;
use crate::crypto::secret::{key_held, SecretKey};
use crate::error::{CryptoError, CryptoErrorModel};
use crate::json::utf8;

verus! {

/// Length in bytes of the random salt.
pub const SALT_LEN: usize = 16;

/// Length in bytes of the derived key.
pub const KEY_LEN: usize = 32;

/// Largest parallelism that Argon2's parameter check can take: it multiplies
/// the parallelism by eight in 32-bit arithmetic.
pub const MAX_CHECKED_PARALLELISM: u32 = 0x1FFF_FFFF;

/// Argon2id cost parameters.
#[derive(Debug, Clone, PartialEq, Eq, Structural)]
pub struct KdfParams {
    pub memory_kib: u32,
    pub iterations: u32,
    pub parallelism: u32,
}

impl Default for KdfParams {
    /// The production parameters: 64 MiB of memory, three passes, four lanes.
    fn default() -> (r: Self)
        ensures
            r.memory_kib == 65536,
            r.iterations == 3,
            r.parallelism == 4,
    {
        KdfParams { memory_kib: 65536, iterations: 3, parallelism: 4 }
    }
}

/// The key that `Argon2::hash_password_into` of the `argon2` crate writes for
/// Argon2id, version 0x13, a 32-byte output and the given password, salt,
/// memory cost, time cost and parallelism.
pub uninterp spec fn argon2id_key(
    password: Seq<u8>,
    salt: Seq<u8>,
    memory_kib: u32,
    iterations: u32,
    parallelism: u32,
) -> Seq<u8>;

/// Why the `argon2` crate refuses a derivation, as its error's text, or
/// nothing when it accepts: `Params::new` checks the costs in this order, and
/// `hash_password_into` then checks the password's length (the 16-byte salt
/// and the 32-byte output are always within its limits).
pub open spec fn argon2_rejection(
    memory_kib: u32,
    iterations: u32,
    parallelism: u32,
    password_len: nat,
) -> Option<Seq<char>> {
    if memory_kib < 8 || memory_kib < 8 * parallelism {
        Some("memory cost is too small"@)
    } else if iterations < 1 {
        Some("time cost is too small"@)
    } else if parallelism < 1 {
        Some("not enough threads"@)
    } else if parallelism > 0xFF_FFFF {
        Some("too many threads"@)
    } else if password_len > 0xFFFF_FFFF {
        Some("password is too long"@)
    } else {
        None
    }
}

/// What [`derive_key`] gives: the key, or the text of the refusal.
pub open spec fn derived_key(password: Seq<char>, salt: Seq<u8>, params: KdfParams) -> Result<
    Seq<u8>,
    Seq<char>,
> {
    match argon2_rejection(
        params.memory_kib,
        params.iterations,
        params.parallelism,
        utf8(password).len(),
    ) {
        Some(m) => Err(m),
        None => Ok(
            argon2id_key(
                utf8(password),
                salt,
                params.memory_kib,
                params.iterations,
                params.parallelism,
            ),
        ),
    }
}

/// The key derivation reads the whole password: whenever it accepts, the key
/// is Argon2id of the password's entire UTF-8 encoding, the salt and the
/// costs; and it accepts exactly when Argon2 takes the costs and the
/// password's length.
pub proof fn law_derived_key_uses_whole_password(
    password: Seq<char>,
    salt: Seq<u8>,
    params: KdfParams,
)
    ensures
        derived_key(password, salt, params) is Ok <==> argon2_rejection(
            params.memory_kib,
            params.iterations,
            params.parallelism,
            utf8(password).len(),
        ) is None,
        derived_key(password, salt, params) is Ok ==> derived_key(password, salt, params)->Ok_0
            == argon2id_key(
            utf8(password),
            salt,
            params.memory_kib,
            params.iterations,
            params.parallelism,
        ),
{
}

/// A fresh salt from the operating system's random number generator; its
/// failure is reported as [`CryptoError::Random`].
pub fn generate_salt() -> (r: Result<[u8; SALT_LEN], CryptoError>)
    ensures
        r is Err ==> r->Err_0@ is Random,
{
    match os_random_bytes::<SALT_LEN>() {
        Ok(salt) => Ok(salt),
        Err(m) => Err(CryptoError::Random(m)),
    }
}

/// `Params::new` followed by `Argon2::hash_password_into` of the `argon2`
/// crate, for Argon2id version 0x13 and a 32-byte key written straight into
/// `Zeroizing`; the crate's error is returned as its `Display` text.
///
/// Claimed of the crate: it refuses exactly as [`argon2_rejection`] says,
/// and otherwise the key is the one named [`argon2id_key`]. A parallelism
/// above [`MAX_CHECKED_PARALLELISM`] overflows the crate's parameter check,
/// which `requires` leaves out. The memory that the derivation allocates is
/// not modelled: the crate aborts when the allocator cannot provide it.
#[verifier::external_body]
fn argon2id_derive(
    password: &[u8],
    salt: &[u8; SALT_LEN],
    memory_kib: u32,
    iterations: u32,
    parallelism: u32,
) -> (r: Result<SecretKey, String>)
    requires
        parallelism <= MAX_CHECKED_PARALLELISM,
    ensures
        match r {
            Ok(k) => argon2_rejection(memory_kib, iterations, parallelism, password@.len()) is None
                && key_held(k) == argon2id_key(password@, salt@, memory_kib, iterations, parallelism),
            Err(m) => argon2_rejection(memory_kib, iterations, parallelism, password@.len())
                == Some(m@),
        },
{
    let params = match Params::new(memory_kib, iterations, parallelism, Some(KEY_LEN)) {
        Ok(params) => params,
        Err(e) => return Err(e.to_string()),
    };
    let mut key = Zeroizing::new([0u8; KEY_LEN]);
    match Argon2::new(Algorithm::Argon2id, Version::V0x13, params).hash_password_into(
        password,
        salt,
        key.as_mut(),
    ) {
        Ok(()) => {},
        Err(e) => return Err(e.to_string()),
    }
    Ok(SecretKey(key))
}

/// Derives the vault key from `password` and `salt` with Argon2id under
/// `params`; a refusal of the parameters or the password is reported as
/// [`CryptoError::Kdf`] with the refusal's text. The key is wiped from memory
/// when dropped.
pub fn derive_key(password: &str, salt: &[u8; SALT_LEN], params: &KdfParams) -> (r: Result<
    SecretKey,
    CryptoError,
>)
    requires
        params.parallelism <= MAX_CHECKED_PARALLELISM,
    ensures
        r is Ok ==> key_held(r->Ok_0) == argon2id_key(
            utf8(password@),
            salt@,
            params.memory_kib,
            params.iterations,
            params.parallelism,
        ),
        r is Ok <==> argon2_rejection(
            params.memory_kib,
            params.iterations,
            params.parallelism,
            utf8(password@).len(),
        ) is None,
        r is Err ==> r->Err_0@ == CryptoErrorModel::Kdf(
            argon2_rejection(
                params.memory_kib,
                params.iterations,
                params.parallelism,
                utf8(password@).len(),
            )->Some_0,
        ),
        match r {
            Ok(k) => derived_key(password@, salt@, *params) == Ok::<Seq<u8>, Seq<char>>(key_held(k)),
            Err(e) => derived_key(password@, salt@, *params) is Err && e@ == CryptoErrorModel::Kdf(
                derived_key(password@, salt@, *params)->Err_0,
            ),
        },
{
    let bytes = password.as_bytes();
    match argon2id_derive(bytes, salt, params.memory_kib, params.iterations, params.parallelism) {
        Ok(k) => Ok(k),
        Err(m) => Err(CryptoError::Kdf(m)),
    }
}

} // verus!
