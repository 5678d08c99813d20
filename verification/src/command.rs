//! The success rule of the command runner.
//!
//! The daemon runs its start and end commands through a shell, blocking
//! until the child exits.  Spawning and waiting are process work done by
//! the caller; what counts as a successful run is a rule of this library.

use vstd::prelude::*;

verus! {

/// Whether a command run succeeded.  `exit_success` is `None` when the
/// child could not be spawned or waited for, and otherwise carries
/// whether it exited with a success status.  A run that never produced a
/// status is always a failure; a non-zero exit status is a failure
/// exactly when `check_success` asks for statuses to be checked.
pub fn command_succeeded(exit_success: Option<bool>, check_success: bool) -> (r: bool)
    ensures
        r <==> (exit_success matches Some(success) && (success || !check_success)),
{
    match exit_success {
        None => false,
        Some(success) => success || !check_success,
    }
}

} // verus!
