//! Whether the daemon runs, judged from its lock file.
use vstd::prelude::*;

verus! {

/// The daemon runs when the lock file could be opened and its exclusive
/// lock could not be taken. `opened` tells whether the file opened;
/// `lock_acquired` is the outcome of `try_lock_exclusive` (`None` when
/// the attempt itself failed, which counts as acquired).
pub fn check_running(opened: bool, lock_acquired: Option<bool>) -> (r: bool)
    ensures
        r == (opened && lock_acquired == Some(false)),
{
    if !opened {
        return false;
    }
    match lock_acquired {
        Some(acquired) => !acquired,
        None => false,
    }
}

} // verus!
