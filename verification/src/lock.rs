//! Outcomes of operations that are guarded by the lock on the results
//! directory. Waiting for the lock races against the shutdown of the
//! scheduler, so a wait can end without the lock.

use vstd::prelude::*;

verus! {

/// How waiting for the lock on the results directory ended.
#[derive(Debug, Clone, PartialEq, Eq)]
pub enum LockOutcome {
    /// The lock is held.
    Acquired,
    /// The scheduler is shutting down; the lock was not taken.
    Cancelled,
    /// The lock could not be taken.
    Failed(String),
}

/// Why a result could not be written.
#[derive(Debug, Clone, PartialEq, Eq)]
pub enum WriteError {
    /// The scheduler is shutting down.
    Cancelled,
    /// Locking, writing or unlocking failed.
    Failed(String),
}

/// The result of a write that is guarded by the lock, from what was
/// observed. Without the lock nothing is written: a cancelled wait is
/// reported as cancellation, never as a failed write. With the lock, the
/// first failure of writing and releasing is reported.
pub fn guarded_write_result(
    lock: LockOutcome,
    write_failure: Option<String>,
    release_failure: Option<String>,
) -> (result: Result<(), WriteError>)
    ensures
        result == match lock {
            LockOutcome::Cancelled => Err::<(), WriteError>(WriteError::Cancelled),
            LockOutcome::Failed(message) => Err(WriteError::Failed(message)),
            LockOutcome::Acquired => match write_failure {
                Some(message) => Err(WriteError::Failed(message)),
                None => match release_failure {
                    Some(message) => Err(WriteError::Failed(message)),
                    None => Ok(()),
                },
            },
        },
{
    match lock {
        LockOutcome::Cancelled => Err(WriteError::Cancelled),
        LockOutcome::Failed(message) => Err(WriteError::Failed(message)),
        LockOutcome::Acquired => match write_failure {
            Some(message) => Err(WriteError::Failed(message)),
            None => match release_failure {
                Some(message) => Err(WriteError::Failed(message)),
                None => Ok(()),
            },
        },
    }
}

} // verus!
