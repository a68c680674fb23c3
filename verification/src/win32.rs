//! The Win32 constants that the launcher's decisions compare against,
//! taken from `windows_sys`.
use vstd::prelude::*;

verus! {

/// `windows_sys::Win32::Foundation::WAIT_OBJECT_0`: a waited-on object was
/// signalled. The crate defines it as 0.
#[verifier::external_body]
pub(crate) fn wait_object_0() -> (code: u32)
    ensures
        code == 0,
{
    windows_sys::Win32::Foundation::WAIT_OBJECT_0
}

/// `windows_sys::Win32::Foundation::WAIT_ABANDONED`: a waited-on mutex was
/// left by a thread that ended while holding it. The crate defines it as 128.
#[verifier::external_body]
pub(crate) fn wait_abandoned() -> (code: u32)
    ensures
        code == 128,
{
    windows_sys::Win32::Foundation::WAIT_ABANDONED
}

/// `windows_sys::Win32::Foundation::WAIT_TIMEOUT`: a wait ran out of time.
/// The crate defines it as 258.
#[verifier::external_body]
pub(crate) fn wait_timeout() -> (code: u32)
    ensures
        code == 258,
{
    windows_sys::Win32::Foundation::WAIT_TIMEOUT
}

/// `windows_sys::Win32::Foundation::ERROR_FILE_NOT_FOUND`. The crate defines
/// it as 2.
#[verifier::external_body]
pub(crate) fn error_file_not_found() -> (code: u32)
    ensures
        code == 2,
{
    windows_sys::Win32::Foundation::ERROR_FILE_NOT_FOUND
}

/// `windows_sys::Win32::Foundation::ERROR_PIPE_BUSY`: every instance of a
/// named pipe is in use. The crate defines it as 231.
#[verifier::external_body]
pub(crate) fn error_pipe_busy() -> (code: u32)
    ensures
        code == 231,
{
    windows_sys::Win32::Foundation::ERROR_PIPE_BUSY
}

/// `windows_sys::Win32::Foundation::ERROR_SEM_TIMEOUT`: a wait for a named
/// pipe instance ran out of time. The crate defines it as 121.
#[verifier::external_body]
pub(crate) fn error_sem_timeout() -> (code: u32)
    ensures
        code == 121,
{
    windows_sys::Win32::Foundation::ERROR_SEM_TIMEOUT
}

} // verus!
