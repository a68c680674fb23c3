use umpv::command_line::LoadfileFlags;
use umpv::lock::LockError;
use umpv::mpv::MpvError;
use umpv::pipe::{Pipe, PipeError};
use umpv::session::{open_in_mpv, OpenAction, OpenError, OpenEvent};

fn start(file: &str) -> (umpv::session::OpenSession, OpenAction) {
    open_in_mpv(&Pipe::for_current_session(3), file.to_string(), LoadfileFlags::AppendPlay)
}

fn lock_taken() -> OpenEvent {
    OpenEvent::LockTaken { created: true, wait_result: 0 }
}

#[test]
fn sends_to_running_mpv() {
    let (mut s, a) = start(r"C:\v\a.mkv");
    assert!(matches!(a, OpenAction::AcquireLock { timeout_milliseconds: 10_000 }));
    match s.next(lock_taken()) {
        OpenAction::OpenPipe { path, start_deadline } => {
            assert_eq!(path, r"\\.\pipe\umpv-3");
            assert_eq!(start_deadline, Some(5000));
        },
        _ => panic!(),
    }
    assert!(matches!(s.next(OpenEvent::PipeOpened { open_error: None, deadline_passed: false }), OpenAction::ReadServerPid));
    match s.next(OpenEvent::ServerPidRead(Some(4242))) {
        OpenAction::WriteCommand { command } => {
            assert_eq!(command, "raw loadfile \"C:\\\\v\\\\a.mkv\" append+play\n")
        },
        _ => panic!(),
    }
    assert!(matches!(s.next(OpenEvent::CommandWritten(true)), OpenAction::Finish { activate_window: Some(4242) }));
}

#[test]
fn unknown_server_pid_raises_nothing() {
    let (mut s, _) = start("a");
    s.next(lock_taken());
    s.next(OpenEvent::PipeOpened { open_error: None, deadline_passed: false });
    s.next(OpenEvent::ServerPidRead(None));
    assert!(matches!(s.next(OpenEvent::CommandWritten(true)), OpenAction::Finish { activate_window: None }));
}

#[test]
fn write_failure() {
    let (mut s, _) = start("a");
    s.next(lock_taken());
    s.next(OpenEvent::PipeOpened { open_error: None, deadline_passed: false });
    s.next(OpenEvent::ServerPidRead(Some(1)));
    assert!(matches!(s.next(OpenEvent::CommandWritten(false)), OpenAction::Fail(OpenError::Pipe(PipeError::WriteFailed))));
}

#[test]
fn busy_pipe_retries_until_deadline() {
    let (mut s, _) = start("a");
    s.next(lock_taken());
    match s.next(OpenEvent::PipeOpened { open_error: Some(Some(231)), deadline_passed: false }) {
        OpenAction::WaitForInstance { path, timeout_milliseconds } => {
            assert_eq!(path, r"\\.\pipe\umpv-3");
            assert_eq!(timeout_milliseconds, 5);
        },
        _ => panic!(),
    }
    match s.next(OpenEvent::InstanceWaited) {
        OpenAction::OpenPipe { start_deadline, .. } => assert_eq!(start_deadline, None),
        _ => panic!(),
    }
    assert!(matches!(
        s.next(OpenEvent::PipeOpened { open_error: Some(Some(231)), deadline_passed: true }),
        OpenAction::Fail(OpenError::Pipe(PipeError::ConnectFailed))
    ));
}

#[test]
fn other_pipe_errors_fail() {
    let (mut s, _) = start("a");
    s.next(lock_taken());
    assert!(matches!(
        s.next(OpenEvent::PipeOpened { open_error: Some(Some(5)), deadline_passed: false }),
        OpenAction::Fail(OpenError::Pipe(PipeError::ConnectFailed))
    ));
}

#[test]
fn launches_new_mpv_when_none_listens() {
    let (mut s, _) = start("--odd.mkv");
    s.next(lock_taken());
    match s.next(OpenEvent::PipeOpened { open_error: Some(Some(2)), deadline_passed: false }) {
        OpenAction::SpawnMpv { arguments } => assert_eq!(
            arguments,
            vec![r"--input-ipc-server=\\.\pipe\umpv-3".to_string(), "--".to_string(), "--odd.mkv".to_string()]
        ),
        _ => panic!(),
    }
    match s.next(OpenEvent::MpvSpawned(Ok(77))) {
        OpenAction::CheckServer { path, allow_foreground, start_deadline } => {
            assert_eq!(path, r"\\.\pipe\umpv-3");
            assert_eq!(allow_foreground, Some(77));
            assert_eq!(start_deadline, Some(5000));
        },
        _ => panic!(),
    }
    assert!(matches!(
        s.next(OpenEvent::ServerChecked { wait_outcome: Err(2), deadline_passed: false }),
        OpenAction::WaitForProcess { timeout_milliseconds: 5 }
    ));
    match s.next(OpenEvent::ProcessWaited(258)) {
        OpenAction::CheckServer { allow_foreground, start_deadline, .. } => {
            assert_eq!(allow_foreground, None);
            assert_eq!(start_deadline, None);
        },
        _ => panic!(),
    }
    assert!(matches!(
        s.next(OpenEvent::ServerChecked { wait_outcome: Err(121), deadline_passed: true }),
        OpenAction::Finish { activate_window: None }
    ));
}

#[test]
fn new_mpv_failures() {
    let (mut s, _) = start("a");
    s.next(lock_taken());
    s.next(OpenEvent::PipeOpened { open_error: Some(Some(2)), deadline_passed: false });
    match s.next(OpenEvent::MpvSpawned(Err("denied".to_string()))) {
        OpenAction::Fail(e) => assert_eq!(e.message(), "Failed to launch mpv.exe: denied"),
        _ => panic!(),
    }

    let (mut s, _) = start("a");
    s.next(lock_taken());
    s.next(OpenEvent::PipeOpened { open_error: Some(Some(2)), deadline_passed: false });
    s.next(OpenEvent::MpvSpawned(Ok(1)));
    assert!(matches!(
        s.next(OpenEvent::ServerChecked { wait_outcome: Err(2), deadline_passed: true }),
        OpenAction::Fail(OpenError::Mpv(MpvError::StartupTimedOut))
    ));

    let (mut s, _) = start("a");
    s.next(lock_taken());
    s.next(OpenEvent::PipeOpened { open_error: Some(Some(2)), deadline_passed: false });
    s.next(OpenEvent::MpvSpawned(Ok(1)));
    s.next(OpenEvent::ServerChecked { wait_outcome: Err(2), deadline_passed: false });
    assert!(matches!(s.next(OpenEvent::ProcessWaited(0)), OpenAction::Fail(OpenError::Mpv(MpvError::Exited))));

    let (mut s, _) = start("a");
    s.next(lock_taken());
    s.next(OpenEvent::PipeOpened { open_error: Some(Some(2)), deadline_passed: false });
    s.next(OpenEvent::MpvSpawned(Ok(1)));
    s.next(OpenEvent::ServerChecked { wait_outcome: Err(2), deadline_passed: false });
    assert!(matches!(s.next(OpenEvent::ProcessWaited(0xFFFF_FFFF)), OpenAction::Fail(OpenError::Mpv(MpvError::WaitFailed))));
}

#[test]
fn lock_failures() {
    let (mut s, _) = start("a");
    assert!(matches!(
        s.next(OpenEvent::LockTaken { created: true, wait_result: 258 }),
        OpenAction::Fail(OpenError::Lock(LockError::TimedOut))
    ));
    let (mut s, _) = start("a");
    assert!(matches!(
        s.next(OpenEvent::LockTaken { created: false, wait_result: 0 }),
        OpenAction::Fail(OpenError::Lock(LockError::CreateFailed))
    ));
    let (mut s, _) = start("a");
    assert!(matches!(s.next(OpenEvent::LockTaken { created: true, wait_result: 128 }), OpenAction::OpenPipe { .. }));
}

#[test]
fn events_that_do_not_answer_change_nothing() {
    let (mut s, _) = start("a");
    assert!(matches!(s.next(OpenEvent::InstanceWaited), OpenAction::AcquireLock { .. }));
    s.next(OpenEvent::LockTaken { created: true, wait_result: 258 });
    assert!(matches!(s.next(lock_taken()), OpenAction::Fail(OpenError::Lock(LockError::TimedOut))));
}

#[test]
fn open_error_messages() {
    assert_eq!(OpenError::Lock(LockError::CreateFailed).message(), "Failed to create umpv lock.");
    assert_eq!(OpenError::Pipe(PipeError::ConnectFailed).message(), "Failed to connect to mpv.");
    assert_eq!(OpenError::Mpv(MpvError::Exited).message(), "mpv.exe exited before it opened the file.");
}
