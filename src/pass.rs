//! Conditions that end a whole check or activation pass.
use vstd::prelude::*;

verus! {

/// Why a whole pass stopped.
pub enum PassError {
    /// Another pass of the same phase holds the lock; retry later.
    AlreadyRunning,
    /// The state file could not be written; nothing of the pass was kept.
    Persistence,
}

/// A pass may start only when it acquired its phase's lock; otherwise it stops at once,
/// before the state is read or written.
pub fn begin_pass(lock_acquired: bool) -> (r: Result<(), PassError>)
    ensures
        r is Ok <==> lock_acquired,
        r is Err ==> r->Err_0 is AlreadyRunning,
{
    if lock_acquired {
        Ok(())
    } else {
        Err(PassError::AlreadyRunning)
    }
}

} // verus!
