//! Locking the vault after a period without user activity.

use vstd::prelude::*;

verus! {

/// Locks the vault after this many seconds of inactivity: a utility of this
/// kind should not stay unlocked in the background.
pub const DEFAULT_TIMEOUT_SECS: u64 = 300;

/// Whether the watcher locks the vault now: it is unlocked and has been idle
/// for at least the timeout.
pub fn should_autolock(is_unlocked: bool, idle_secs: u64) -> (r: bool)
    ensures
        r == (is_unlocked && idle_secs >= DEFAULT_TIMEOUT_SECS),
{
    is_unlocked && idle_secs >= DEFAULT_TIMEOUT_SECS
}

} // verus!
