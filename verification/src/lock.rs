//! The lock that keeps two launchers from starting two mpv instances at once.
use vstd::prelude::*;

use crate::mpv::STARTUP_TIMEOUT_MILLISECONDS;
use crate::pipe::CONNECT_TIMEOUT_MILLISECONDS;
use crate::win32::{wait_abandoned, wait_object_0, wait_timeout};

verus! {

/// The name of the session-local mutex.
pub const MUTEX_NAME: &'static str = "Local\\umpv_lock";

/// How long a launcher waits for another one to release the lock. It must
/// stay at or above the longest the holder can take, the connect timeout and
/// the startup timeout together, or a waiting launcher gives up too early.
pub const ACQUIRE_TIMEOUT_MILLISECONDS: u32 = 10_000;

/// Why the lock could not be taken.
#[derive(Clone, Copy, Debug, PartialEq, Eq, Structural)]
pub enum LockError {
    CreateFailed,
    WaitFailed,
    TimedOut,
}

impl LockError {
    /// The message shown for the error.
    pub open spec fn message_text(self) -> Seq<char> {
        match self {
            LockError::CreateFailed => "Failed to create umpv lock."@,
            LockError::WaitFailed => "Failed to wait for umpv lock."@,
            LockError::TimedOut => "Timed out waiting for umpv lock.\nAnother umpv instance is holding it."@,
        }
    }

    /// The message shown for the error.
    pub fn message(&self) -> (m: String)
        ensures
            m@ == self.message_text(),
    {
        match self {
            LockError::CreateFailed => String::from_str("Failed to create umpv lock."),
            LockError::WaitFailed => String::from_str("Failed to wait for umpv lock."),
            LockError::TimedOut => String::from_str(
                "Timed out waiting for umpv lock.\nAnother umpv instance is holding it.",
            ),
        }
    }
}

/// What taking the lock came to: `created` tells whether the mutex could be
/// created or opened, `wait_result` is what waiting for it returned.
pub open spec fn acquire_result_spec(created: bool, wait_result: u32) -> Result<(), LockError> {
    if !created {
        Err(LockError::CreateFailed)
    } else if wait_result == 0 || wait_result == 128 {
        Ok(())
    } else if wait_result == 258 {
        Err(LockError::TimedOut)
    } else {
        Err(LockError::WaitFailed)
    }
}

/// What taking the lock came to: `created` tells whether the mutex could be
/// created or opened, `wait_result` is what waiting for it returned. A mutex
/// left by a launcher that ended while holding it is taken over.
pub fn acquire_result(created: bool, wait_result: u32) -> (r: Result<(), LockError>)
    ensures
        r == acquire_result_spec(created, wait_result),
{
    if !created {
        return Err(LockError::CreateFailed);
    }
    if wait_result == wait_object_0() || wait_result == wait_abandoned() {
        Ok(())
    } else if wait_result == wait_timeout() {
        Err(LockError::TimedOut)
    } else {
        Err(LockError::WaitFailed)
    }
}

/// A launcher waiting for the lock waits at least as long as the holder can
/// take to connect to mpv and to start a new one.
pub proof fn lemma_acquire_timeout_covers_holder()
    ensures
        ACQUIRE_TIMEOUT_MILLISECONDS >= CONNECT_TIMEOUT_MILLISECONDS + STARTUP_TIMEOUT_MILLISECONDS,
{
}

} // verus!
