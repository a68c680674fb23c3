use umpv::lock::{acquire_result, LockError, ACQUIRE_TIMEOUT_MILLISECONDS};
use umpv::mpv::{launch_arguments, MpvError, STARTUP_TIMEOUT_MILLISECONDS};
use umpv::pipe::CONNECT_TIMEOUT_MILLISECONDS;

#[test]
fn lock_outcomes() {
    assert_eq!(acquire_result(true, 0), Ok(()));
    assert_eq!(acquire_result(true, 128), Ok(()));
    assert_eq!(acquire_result(true, 258), Err(LockError::TimedOut));
    assert_eq!(acquire_result(true, 0xFFFF_FFFF), Err(LockError::WaitFailed));
    assert_eq!(acquire_result(true, 1), Err(LockError::WaitFailed));
    assert_eq!(acquire_result(false, 0), Err(LockError::CreateFailed));
}

#[test]
fn lock_timeout_covers_holder() {
    assert!(ACQUIRE_TIMEOUT_MILLISECONDS >= CONNECT_TIMEOUT_MILLISECONDS + STARTUP_TIMEOUT_MILLISECONDS);
}

#[test]
fn lock_error_messages() {
    assert_eq!(LockError::CreateFailed.message(), "Failed to create umpv lock.");
    assert_eq!(LockError::WaitFailed.message(), "Failed to wait for umpv lock.");
    assert_eq!(
        LockError::TimedOut.message(),
        "Timed out waiting for umpv lock.\nAnother umpv instance is holding it."
    );
}

#[test]
fn mpv_launch_arguments() {
    assert_eq!(
        launch_arguments(r"\\.\pipe\umpv-1", "--odd.mkv"),
        vec![r"--input-ipc-server=\\.\pipe\umpv-1".to_string(), "--".to_string(), "--odd.mkv".to_string()]
    );
}

#[test]
fn mpv_error_messages() {
    assert_eq!(MpvError::SpawnFailed("not found".to_string()).message(), "Failed to launch mpv.exe: not found");
    assert_eq!(MpvError::Exited.message(), "mpv.exe exited before it opened the file.");
    assert_eq!(MpvError::WaitFailed.message(), "Failed to wait for mpv.exe.");
    assert_eq!(MpvError::StartupTimedOut.message(), "Timed out waiting for mpv.exe to start.");
}
