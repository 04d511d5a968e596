//! Random bytes from the operating system.

use vstd::prelude::*;

verus! {

/// `getrandom::getrandom` of the `getrandom` crate on a fresh array, with the
/// crate's error returned as its `Display` text. Nothing is claimed of the
/// bytes, nor of when the generator fails.
#[verifier::external_body]
pub(crate) fn os_random_bytes<const N: usize>() -> (r: Result<[u8; N], String>) {
    let mut bytes = [0u8; N];
    match getrandom::getrandom(&mut bytes) {
        Ok(()) => Ok(bytes),
        Err(e) => Err(e.to_string()),
    }
}

} // verus!
