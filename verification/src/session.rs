//! Opening a file: in the mpv that already listens on the session's pipe,
//! or in a new mpv when none does.
//!
//! The work alternates between Windows calls (the lock, the pipe, the new
//! process) and decisions. The decisions live here as a flow: it tells the
//! caller which call to make next, takes what the call returned, and ends
//! with the window to raise or the error to show.
use vstd::prelude::*;

use crate::command_line::LoadfileFlags;
use crate::lock::{acquire_result, acquire_result_spec, LockError, ACQUIRE_TIMEOUT_MILLISECONDS};
use crate::mpv::{
    launch_arguments, launch_arguments_text, MpvError, MpvErrorView, POLL_INTERVAL_MILLISECONDS,
    STARTUP_TIMEOUT_MILLISECONDS,
};
use crate::pipe::{
    connect_step, connect_step_spec, loadfile_command, loadfile_command_text, server_exists, server_exists_spec,
    ConnectStep, Pipe, PipeError, CONNECT_TIMEOUT_MILLISECONDS, INSTANCE_WAIT_MILLISECONDS,
};
use crate::win32::{wait_object_0, wait_timeout};

verus! {

/// Why a file could not be opened.
#[derive(Debug)]
pub enum OpenError {
    Lock(LockError),
    Pipe(PipeError),
    Mpv(MpvError),
}

/// Why a file could not be opened, with texts as characters.
pub enum OpenErrorView {
    Lock(LockError),
    Pipe(PipeError),
    Mpv(MpvErrorView),
}

impl View for OpenError {
    type V = OpenErrorView;

    open spec fn view(&self) -> OpenErrorView {
        match self {
            OpenError::Lock(e) => OpenErrorView::Lock(*e),
            OpenError::Pipe(e) => OpenErrorView::Pipe(*e),
            OpenError::Mpv(e) => OpenErrorView::Mpv(e@),
        }
    }
}

impl OpenErrorView {
    /// The message shown for the error.
    pub open spec fn message_text(self) -> Seq<char> {
        match self {
            OpenErrorView::Lock(e) => e.message_text(),
            OpenErrorView::Pipe(e) => e.message_text(),
            OpenErrorView::Mpv(e) => e.message_text(),
        }
    }
}

impl OpenError {
    /// The message shown for the error.
    pub fn message(&self) -> (m: String)
        ensures
            m@ == self@.message_text(),
    {
        match self {
            OpenError::Lock(e) => e.message(),
            OpenError::Pipe(e) => e.message(),
            OpenError::Mpv(e) => e.message(),
        }
    }

    /// A copy of the error.
    pub fn duplicate(&self) -> (e: OpenError)
        ensures
            e@ == self@,
    {
        match self {
            OpenError::Lock(e) => OpenError::Lock(*e),
            OpenError::Pipe(e) => OpenError::Pipe(*e),
            OpenError::Mpv(MpvError::SpawnFailed(reason)) => OpenError::Mpv(MpvError::SpawnFailed(reason.clone())),
            OpenError::Mpv(MpvError::Exited) => OpenError::Mpv(MpvError::Exited),
            OpenError::Mpv(MpvError::WaitFailed) => OpenError::Mpv(MpvError::WaitFailed),
            OpenError::Mpv(MpvError::StartupTimedOut) => OpenError::Mpv(MpvError::StartupTimedOut),
        }
    }
}

/// Where opening a file stands.
#[derive(Clone, Copy, Debug, PartialEq, Eq, Structural)]
pub enum OpenStage {
    /// Waiting to hold the lock.
    AcquiringLock,
    /// Waiting for an attempt to open the pipe.
    Connecting,
    /// Waiting while every pipe instance is busy.
    WaitingForInstance,
    /// Connected; waiting for the id of the process at the other end.
    ReadingServerPid,
    /// Waiting for the command to be written to the pipe.
    Writing,
    /// No mpv listens; waiting for a new one to start.
    Spawning,
    /// Waiting to learn whether the new mpv listens on the pipe yet.
    CheckingServer,
    /// Waiting on the new mpv process for a moment.
    WaitingForProcess,
    /// Finished.
    Done,
}

/// A Windows call for the caller to make, or the end of the flow.
#[derive(Debug)]
pub enum OpenAction {
    /// Create or open the session's lock and wait for it up to the timeout.
    AcquireLock { timeout_milliseconds: u32 },
    /// Open the pipe for writing. When `start_deadline` holds a duration,
    /// the connect deadline is that long from now.
    OpenPipe { path: String, start_deadline: Option<u32> },
    /// Wait up to the timeout for an instance of the pipe to be free.
    WaitForInstance { path: String, timeout_milliseconds: u32 },
    /// Read the id of the process at the other end of the open pipe.
    ReadServerPid,
    /// Write `command` to the open pipe.
    WriteCommand { command: String },
    /// Start mpv (next to the launcher) with these arguments.
    SpawnMpv { arguments: Vec<String> },
    /// Check without waiting whether the pipe exists. Before that, let the
    /// process `allow_foreground` raise its window, and start the startup
    /// deadline when `start_deadline` holds a duration.
    CheckServer { path: String, allow_foreground: Option<u32>, start_deadline: Option<u32> },
    /// Wait on the new mpv process up to the timeout.
    WaitForProcess { timeout_milliseconds: u32 },
    /// Release the lock; then raise the window of the process
    /// `activate_window` when there is one.
    Finish { activate_window: Option<u32> },
    /// Release the lock; then show the error.
    Fail(OpenError),
}

/// A Windows call, with texts as characters.
pub enum OpenActionView {
    AcquireLock { timeout_milliseconds: u32 },
    OpenPipe { path: Seq<char>, start_deadline: Option<u32> },
    WaitForInstance { path: Seq<char>, timeout_milliseconds: u32 },
    ReadServerPid,
    WriteCommand { command: Seq<char> },
    SpawnMpv { arguments: Seq<Seq<char>> },
    CheckServer { path: Seq<char>, allow_foreground: Option<u32>, start_deadline: Option<u32> },
    WaitForProcess { timeout_milliseconds: u32 },
    Finish { activate_window: Option<u32> },
    Fail(OpenErrorView),
}

impl View for OpenAction {
    type V = OpenActionView;

    open spec fn view(&self) -> OpenActionView {
        match self {
            OpenAction::AcquireLock { timeout_milliseconds } => OpenActionView::AcquireLock {
                timeout_milliseconds: *timeout_milliseconds,
            },
            OpenAction::OpenPipe { path, start_deadline } => OpenActionView::OpenPipe {
                path: path@,
                start_deadline: *start_deadline,
            },
            OpenAction::WaitForInstance { path, timeout_milliseconds } => OpenActionView::WaitForInstance {
                path: path@,
                timeout_milliseconds: *timeout_milliseconds,
            },
            OpenAction::ReadServerPid => OpenActionView::ReadServerPid,
            OpenAction::WriteCommand { command } => OpenActionView::WriteCommand { command: command@ },
            OpenAction::SpawnMpv { arguments } => OpenActionView::SpawnMpv {
                arguments: arguments@.map_values(|a: String| a@),
            },
            OpenAction::CheckServer { path, allow_foreground, start_deadline } => OpenActionView::CheckServer {
                path: path@,
                allow_foreground: *allow_foreground,
                start_deadline: *start_deadline,
            },
            OpenAction::WaitForProcess { timeout_milliseconds } => OpenActionView::WaitForProcess {
                timeout_milliseconds: *timeout_milliseconds,
            },
            OpenAction::Finish { activate_window } => OpenActionView::Finish { activate_window: *activate_window },
            OpenAction::Fail(e) => OpenActionView::Fail(e@),
        }
    }
}

/// What a Windows call returned.
#[derive(Debug)]
pub enum OpenEvent {
    /// Taking the lock: whether the mutex could be created, and what the
    /// wait for it returned.
    LockTaken { created: bool, wait_result: u32 },
    /// Opening the pipe: `None` when it opened, else the error's code if it
    /// carries one; and whether the connect deadline has passed.
    PipeOpened { open_error: Option<Option<u32>>, deadline_passed: bool },
    /// Waiting for a free pipe instance is over.
    InstanceWaited,
    /// The id of the process at the other end, when it could be read.
    ServerPidRead(Option<u32>),
    /// Writing the command: whether it was written whole.
    CommandWritten(bool),
    /// Starting mpv: its process id, or why it could not start.
    MpvSpawned(Result<u32, String>),
    /// Checking the pipe: what waiting for an instance without waiting
    /// returned (`Err` holds the last error), and whether the startup
    /// deadline has passed.
    ServerChecked { wait_outcome: Result<(), u32>, deadline_passed: bool },
    /// Waiting on the new process: what the wait returned.
    ProcessWaited(u32),
}

/// What a Windows call returned, with texts as characters.
pub enum OpenEventView {
    LockTaken { created: bool, wait_result: u32 },
    PipeOpened { open_error: Option<Option<u32>>, deadline_passed: bool },
    InstanceWaited,
    ServerPidRead(Option<u32>),
    CommandWritten(bool),
    MpvSpawned(Result<u32, Seq<char>>),
    ServerChecked { wait_outcome: Result<(), u32>, deadline_passed: bool },
    ProcessWaited(u32),
}

impl View for OpenEvent {
    type V = OpenEventView;

    open spec fn view(&self) -> OpenEventView {
        match self {
            OpenEvent::LockTaken { created, wait_result } => OpenEventView::LockTaken {
                created: *created,
                wait_result: *wait_result,
            },
            OpenEvent::PipeOpened { open_error, deadline_passed } => OpenEventView::PipeOpened {
                open_error: *open_error,
                deadline_passed: *deadline_passed,
            },
            OpenEvent::InstanceWaited => OpenEventView::InstanceWaited,
            OpenEvent::ServerPidRead(pid) => OpenEventView::ServerPidRead(*pid),
            OpenEvent::CommandWritten(ok) => OpenEventView::CommandWritten(*ok),
            OpenEvent::MpvSpawned(r) => OpenEventView::MpvSpawned(
                match r {
                    Ok(pid) => Ok(*pid),
                    Err(reason) => Err(reason@),
                },
            ),
            OpenEvent::ServerChecked { wait_outcome, deadline_passed } => OpenEventView::ServerChecked {
                wait_outcome: *wait_outcome,
                deadline_passed: *deadline_passed,
            },
            OpenEvent::ProcessWaited(code) => OpenEventView::ProcessWaited(*code),
        }
    }
}

/// The state of opening a file.
pub struct OpenState {
    pub stage: OpenStage,
    /// The path of the session's pipe.
    pub pipe_path: Seq<char>,
    /// The file to open (an absolute path).
    pub file: Seq<char>,
    pub loadfile_flags: LoadfileFlags,
    /// Whether the next attempt to open the pipe is the first one.
    pub first_attempt: bool,
    /// The id of the process at the other end of the pipe, when known.
    pub server_pid: Option<u32>,
    /// The id of the new mpv process.
    pub process_id: u32,
    /// Whether the next check of the pipe is the first after the start.
    pub first_check: bool,
    /// The outcome, once done: the window to raise, or the error.
    pub outcome: Result<Option<u32>, OpenErrorView>,
}

/// The flow ends with `outcome`.
pub open spec fn ended(s: OpenState, outcome: Result<Option<u32>, OpenErrorView>) -> OpenState {
    OpenState { stage: OpenStage::Done, outcome, ..s }
}

/// Opening `file` through the pipe at `pipe_path`, before anything happened.
pub open spec fn open_start(pipe_path: Seq<char>, file: Seq<char>, loadfile_flags: LoadfileFlags) -> OpenState {
    OpenState {
        stage: OpenStage::AcquiringLock,
        pipe_path,
        file,
        loadfile_flags,
        first_attempt: true,
        server_pid: None,
        process_id: 0,
        first_check: true,
        outcome: Ok(None),
    }
}

/// The state after `event`. An event that does not answer the pending call
/// changes nothing.
pub open spec fn open_next(s: OpenState, event: OpenEventView) -> OpenState {
    match (s.stage, event) {
        (OpenStage::AcquiringLock, OpenEventView::LockTaken { created, wait_result }) => {
            match acquire_result_spec(created, wait_result) {
                Ok(()) => OpenState { stage: OpenStage::Connecting, first_attempt: true, ..s },
                Err(e) => ended(s, Err(OpenErrorView::Lock(e))),
            }
        },
        (OpenStage::Connecting, OpenEventView::PipeOpened { open_error, deadline_passed }) => {
            match connect_step_spec(open_error, deadline_passed) {
                ConnectStep::Connected => OpenState { stage: OpenStage::ReadingServerPid, ..s },
                ConnectStep::NoServer => OpenState { stage: OpenStage::Spawning, ..s },
                ConnectStep::Retry => OpenState { stage: OpenStage::WaitingForInstance, ..s },
                ConnectStep::Failed => ended(s, Err(OpenErrorView::Pipe(PipeError::ConnectFailed))),
            }
        },
        (OpenStage::WaitingForInstance, OpenEventView::InstanceWaited) => OpenState {
            stage: OpenStage::Connecting,
            first_attempt: false,
            ..s
        },
        (OpenStage::ReadingServerPid, OpenEventView::ServerPidRead(pid)) => OpenState {
            stage: OpenStage::Writing,
            server_pid: pid,
            ..s
        },
        (OpenStage::Writing, OpenEventView::CommandWritten(written)) => {
            if written {
                ended(s, Ok(s.server_pid))
            } else {
                ended(s, Err(OpenErrorView::Pipe(PipeError::WriteFailed)))
            }
        },
        (OpenStage::Spawning, OpenEventView::MpvSpawned(spawned)) => {
            match spawned {
                Ok(pid) => OpenState { stage: OpenStage::CheckingServer, process_id: pid, first_check: true, ..s },
                Err(reason) => ended(s, Err(OpenErrorView::Mpv(MpvErrorView::SpawnFailed(reason)))),
            }
        },
        (OpenStage::CheckingServer, OpenEventView::ServerChecked { wait_outcome, deadline_passed }) => {
            if server_exists_spec(wait_outcome) {
                ended(s, Ok(None))
            } else if deadline_passed {
                ended(s, Err(OpenErrorView::Mpv(MpvErrorView::StartupTimedOut)))
            } else {
                OpenState { stage: OpenStage::WaitingForProcess, ..s }
            }
        },
        (OpenStage::WaitingForProcess, OpenEventView::ProcessWaited(code)) => {
            if code == 258 {
                OpenState { stage: OpenStage::CheckingServer, first_check: false, ..s }
            } else if code == 0 {
                ended(s, Err(OpenErrorView::Mpv(MpvErrorView::Exited)))
            } else {
                ended(s, Err(OpenErrorView::Mpv(MpvErrorView::WaitFailed)))
            }
        },
        _ => s,
    }
}

/// The call that the flow in state `s` waits for, or its end.
pub open spec fn open_pending(s: OpenState) -> OpenActionView {
    match s.stage {
        OpenStage::AcquiringLock => OpenActionView::AcquireLock { timeout_milliseconds: ACQUIRE_TIMEOUT_MILLISECONDS },
        OpenStage::Connecting => OpenActionView::OpenPipe {
            path: s.pipe_path,
            start_deadline: if s.first_attempt {
                Some(CONNECT_TIMEOUT_MILLISECONDS)
            } else {
                None
            },
        },
        OpenStage::WaitingForInstance => OpenActionView::WaitForInstance {
            path: s.pipe_path,
            timeout_milliseconds: INSTANCE_WAIT_MILLISECONDS,
        },
        OpenStage::ReadingServerPid => OpenActionView::ReadServerPid,
        OpenStage::Writing => OpenActionView::WriteCommand {
            command: loadfile_command_text(s.file, s.loadfile_flags.text()),
        },
        OpenStage::Spawning => OpenActionView::SpawnMpv { arguments: launch_arguments_text(s.pipe_path, s.file) },
        OpenStage::CheckingServer => OpenActionView::CheckServer {
            path: s.pipe_path,
            allow_foreground: if s.first_check {
                Some(s.process_id)
            } else {
                None
            },
            start_deadline: if s.first_check {
                Some(STARTUP_TIMEOUT_MILLISECONDS)
            } else {
                None
            },
        },
        OpenStage::WaitingForProcess => OpenActionView::WaitForProcess {
            timeout_milliseconds: POLL_INTERVAL_MILLISECONDS,
        },
        OpenStage::Done => match s.outcome {
            Ok(activate_window) => OpenActionView::Finish { activate_window },
            Err(e) => OpenActionView::Fail(e),
        },
    }
}

/// The stages in which the file goes to an mpv that already listens.
pub open spec fn is_sending(stage: OpenStage) -> bool {
    stage == OpenStage::ReadingServerPid || stage == OpenStage::Writing
}

/// The stages in which a new mpv is started for the file.
pub open spec fn is_launching(stage: OpenStage) -> bool {
    stage == OpenStage::Spawning || stage == OpenStage::CheckingServer || stage == OpenStage::WaitingForProcess
}

/// Once done, the flow stays done whatever happens.
pub proof fn lemma_open_done_is_final(s: OpenState, event: OpenEventView)
    requires
        s.stage == OpenStage::Done,
    ensures
        open_next(s, event) == s,
{
}

/// No step changes which file is opened, through which pipe, in which mode.
pub proof fn lemma_open_keeps_request(s: OpenState, event: OpenEventView)
    ensures
        open_next(s, event).file == s.file,
        open_next(s, event).pipe_path == s.pipe_path,
        open_next(s, event).loadfile_flags == s.loadfile_flags,
{
}

/// The event says that the lock is held.
pub open spec fn lock_is_taken(event: OpenEventView) -> bool {
    match event {
        OpenEventView::LockTaken { created, wait_result } => acquire_result_spec(created, wait_result) is Ok,
        _ => false,
    }
}

/// Nothing touches the pipe before the lock is held: the flow leaves the
/// lock stage only for the pipe, once the lock is taken, or to fail.
pub proof fn lemma_open_takes_lock_first(s: OpenState, event: OpenEventView)
    requires
        s.stage == OpenStage::AcquiringLock,
    ensures
        open_next(s, event).stage == OpenStage::AcquiringLock || open_next(s, event).stage == OpenStage::Done || (
        open_next(s, event).stage == OpenStage::Connecting && lock_is_taken(event)),
{
}

/// A file goes either to the mpv that listens or to a new one, never to
/// both: once the flow sends, it never starts mpv, and once it starts mpv,
/// it never sends.
pub proof fn lemma_open_sends_or_launches(s: OpenState, event: OpenEventView)
    ensures
        is_sending(s.stage) ==> is_sending(open_next(s, event).stage) || open_next(s, event).stage == OpenStage::Done,
        is_launching(s.stage) ==> is_launching(open_next(s, event).stage) || open_next(s, event).stage
            == OpenStage::Done,
{
}

/// The window raised at the end is that of the mpv that received the file;
/// a new mpv raises its own window, so none is raised for it.
pub proof fn lemma_open_raises_only_the_receiver(s: OpenState, event: OpenEventView)
    requires
        s.stage != OpenStage::Done,
        open_next(s, event).stage == OpenStage::Done,
    ensures
        open_next(s, event).outcome matches Ok(Some(pid)) ==> s.stage == OpenStage::Writing && s.server_pid
            == Some(pid),
        is_launching(s.stage) && open_next(s, event).outcome is Ok ==> open_next(s, event).outcome == Ok::<
            Option<u32>,
            OpenErrorView,
        >(None),
{
}

/// The event of an attempt to open the pipe.
pub open spec fn pipe_opened(open_error: Option<Option<u32>>, deadline_passed: bool) -> OpenEventView {
    OpenEventView::PipeOpened { open_error, deadline_passed }
}

/// A file opens in the mpv that listens on the pipe, or in a new mpv when
/// none does: once the pipe opens, the flow sends the `loadfile` command
/// for the file; when the pipe does not exist, it starts mpv on the pipe
/// with the file.
pub proof fn lemma_open_in_running_or_new_mpv(s: OpenState, deadline_passed: bool, server_pid: Option<u32>)
    requires
        s.stage == OpenStage::Connecting,
    ensures
        open_pending(open_next(s, pipe_opened(None, deadline_passed))) == OpenActionView::ReadServerPid,
        open_pending(open_next(open_next(s, pipe_opened(None, deadline_passed)), OpenEventView::ServerPidRead(server_pid)))
            == (OpenActionView::WriteCommand { command: loadfile_command_text(s.file, s.loadfile_flags.text()) }),
        open_pending(open_next(s, pipe_opened(Some(Some(2)), deadline_passed)))
            == (OpenActionView::SpawnMpv { arguments: launch_arguments_text(s.pipe_path, s.file) }),
{
}

/// While every pipe instance is busy, the flow keeps waiting and trying
/// again until the deadline passes, and then fails.
pub proof fn lemma_open_busy_pipe(s: OpenState)
    requires
        s.stage == OpenStage::Connecting,
    ensures
        open_next(s, pipe_opened(Some(Some(231)), false)).stage == OpenStage::WaitingForInstance,
        open_pending(open_next(open_next(s, pipe_opened(Some(Some(231)), false)), OpenEventView::InstanceWaited))
            == (OpenActionView::OpenPipe { path: s.pipe_path, start_deadline: None }),
        open_pending(open_next(s, pipe_opened(Some(Some(231)), true)))
            == OpenActionView::Fail(OpenErrorView::Pipe(PipeError::ConnectFailed)),
{
}

/// The event of a check whether the new mpv listens on the pipe.
pub open spec fn server_checked(wait_outcome: Result<(), u32>, deadline_passed: bool) -> OpenEventView {
    OpenEventView::ServerChecked { wait_outcome, deadline_passed }
}

/// Waiting for the new mpv ends as soon as it listens: a check whose wait
/// for a pipe instance succeeded, or ran out of time because every instance
/// is busy (`ERROR_SEM_TIMEOUT`), finishes the flow successfully with no
/// window to raise, whether or not the deadline has passed. A check that
/// finds no pipe waits on the process again before the deadline, and fails
/// with the startup timeout after it.
pub proof fn lemma_open_new_mpv_listening_ends_wait(s: OpenState, deadline_passed: bool, last_error: u32)
    requires
        s.stage == OpenStage::CheckingServer,
    ensures
        open_next(s, server_checked(Ok(()), deadline_passed)).stage == OpenStage::Done,
        open_next(s, server_checked(Ok(()), deadline_passed)).outcome == Ok::<Option<u32>, OpenErrorView>(None),
        open_pending(open_next(s, server_checked(Ok(()), deadline_passed)))
            == (OpenActionView::Finish { activate_window: None }),
        open_next(s, server_checked(Err(121), deadline_passed)).stage == OpenStage::Done,
        open_next(s, server_checked(Err(121), deadline_passed)).outcome == Ok::<Option<u32>, OpenErrorView>(None),
        last_error != 121 ==> open_next(s, server_checked(Err(last_error), false)).stage
            == OpenStage::WaitingForProcess,
        last_error != 121 ==> open_next(s, server_checked(Err(last_error), true)).outcome == Err::<
            Option<u32>,
            OpenErrorView,
        >(OpenErrorView::Mpv(MpvErrorView::StartupTimedOut)),
{
}

/// Opening a file in mpv: the file to open, the session's pipe and the
/// loadfile mode.
pub struct OpenSession {
    stage: OpenStage,
    pipe_path: String,
    file: String,
    loadfile_flags: LoadfileFlags,
    first_attempt: bool,
    server_pid: Option<u32>,
    process_id: u32,
    first_check: bool,
    outcome: Result<Option<u32>, OpenError>,
}

impl View for OpenSession {
    type V = OpenState;

    closed spec fn view(&self) -> OpenState {
        OpenState {
            stage: self.stage,
            pipe_path: self.pipe_path@,
            file: self.file@,
            loadfile_flags: self.loadfile_flags,
            first_attempt: self.first_attempt,
            server_pid: self.server_pid,
            process_id: self.process_id,
            first_check: self.first_check,
            outcome: match self.outcome {
                Ok(w) => Ok(w),
                Err(e) => Err(e@),
            },
        }
    }
}

/// Opening `file` (an absolute path) in mpv starts: the flow and the first
/// call it asks for, which takes the lock.
pub fn open_in_mpv(pipe: &Pipe, file: String, loadfile_flags: LoadfileFlags) -> (started: (OpenSession, OpenAction))
    ensures
        started.0@ == open_start(pipe.0@, file@, loadfile_flags),
        started.1@ == open_pending(started.0@),
{
    let session = OpenSession {
        stage: OpenStage::AcquiringLock,
        pipe_path: pipe.0.clone(),
        file,
        loadfile_flags,
        first_attempt: true,
        server_pid: None,
        process_id: 0,
        first_check: true,
        outcome: Ok(None),
    };
    let action = session.pending();
    (session, action)
}

impl OpenSession {
    /// The call that the flow waits for, or its end.
    pub fn pending(&self) -> (action: OpenAction)
        ensures
            action@ == open_pending(self@),
    {
        match self.stage {
            OpenStage::AcquiringLock => OpenAction::AcquireLock { timeout_milliseconds: ACQUIRE_TIMEOUT_MILLISECONDS },
            OpenStage::Connecting => OpenAction::OpenPipe {
                path: self.pipe_path.clone(),
                start_deadline: if self.first_attempt {
                    Some(CONNECT_TIMEOUT_MILLISECONDS)
                } else {
                    None
                },
            },
            OpenStage::WaitingForInstance => OpenAction::WaitForInstance {
                path: self.pipe_path.clone(),
                timeout_milliseconds: INSTANCE_WAIT_MILLISECONDS,
            },
            OpenStage::ReadingServerPid => OpenAction::ReadServerPid,
            OpenStage::Writing => OpenAction::WriteCommand {
                command: loadfile_command(self.file.as_str(), self.loadfile_flags.as_str()),
            },
            OpenStage::Spawning => OpenAction::SpawnMpv {
                arguments: launch_arguments(self.pipe_path.as_str(), self.file.as_str()),
            },
            OpenStage::CheckingServer => OpenAction::CheckServer {
                path: self.pipe_path.clone(),
                allow_foreground: if self.first_check {
                    Some(self.process_id)
                } else {
                    None
                },
                start_deadline: if self.first_check {
                    Some(STARTUP_TIMEOUT_MILLISECONDS)
                } else {
                    None
                },
            },
            OpenStage::WaitingForProcess => OpenAction::WaitForProcess {
                timeout_milliseconds: POLL_INTERVAL_MILLISECONDS,
            },
            OpenStage::Done => match &self.outcome {
                Ok(activate_window) => OpenAction::Finish { activate_window: *activate_window },
                Err(e) => OpenAction::Fail(e.duplicate()),
            },
        }
    }

    /// The flow ends with `outcome`.
    fn end(&mut self, outcome: Result<Option<u32>, OpenError>)
        ensures
            final(self)@ == ended(old(self)@, match outcome {
                Ok(w) => Ok(w),
                Err(e) => Err(e@),
            }),
    {
        self.stage = OpenStage::Done;
        self.outcome = outcome;
    }

    /// Takes what the pending call returned; gives the next call.
    pub fn next(&mut self, event: OpenEvent) -> (action: OpenAction)
        ensures
            final(self)@ == open_next(old(self)@, event@),
            action@ == open_pending(final(self)@),
    {
        match (self.stage, event) {
            (OpenStage::AcquiringLock, OpenEvent::LockTaken { created, wait_result }) => {
                match acquire_result(created, wait_result) {
                    Ok(()) => {
                        self.stage = OpenStage::Connecting;
                        self.first_attempt = true;
                    },
                    Err(e) => self.end(Err(OpenError::Lock(e))),
                }
            },
            (OpenStage::Connecting, OpenEvent::PipeOpened { open_error, deadline_passed }) => {
                match connect_step(open_error, deadline_passed) {
                    ConnectStep::Connected => self.stage = OpenStage::ReadingServerPid,
                    ConnectStep::NoServer => self.stage = OpenStage::Spawning,
                    ConnectStep::Retry => self.stage = OpenStage::WaitingForInstance,
                    ConnectStep::Failed => self.end(Err(OpenError::Pipe(PipeError::ConnectFailed))),
                }
            },
            (OpenStage::WaitingForInstance, OpenEvent::InstanceWaited) => {
                self.stage = OpenStage::Connecting;
                self.first_attempt = false;
            },
            (OpenStage::ReadingServerPid, OpenEvent::ServerPidRead(pid)) => {
                self.stage = OpenStage::Writing;
                self.server_pid = pid;
            },
            (OpenStage::Writing, OpenEvent::CommandWritten(written)) => {
                if written {
                    let pid = self.server_pid;
                    self.end(Ok(pid));
                } else {
                    self.end(Err(OpenError::Pipe(PipeError::WriteFailed)));
                }
            },
            (OpenStage::Spawning, OpenEvent::MpvSpawned(spawned)) => {
                match spawned {
                    Ok(pid) => {
                        self.stage = OpenStage::CheckingServer;
                        self.process_id = pid;
                        self.first_check = true;
                    },
                    Err(reason) => self.end(Err(OpenError::Mpv(MpvError::SpawnFailed(reason)))),
                }
            },
            (OpenStage::CheckingServer, OpenEvent::ServerChecked { wait_outcome, deadline_passed }) => {
                if server_exists(wait_outcome) {
                    self.end(Ok(None));
                } else if deadline_passed {
                    self.end(Err(OpenError::Mpv(MpvError::StartupTimedOut)));
                } else {
                    self.stage = OpenStage::WaitingForProcess;
                }
            },
            (OpenStage::WaitingForProcess, OpenEvent::ProcessWaited(code)) => {
                if code == wait_timeout() {
                    self.stage = OpenStage::CheckingServer;
                    self.first_check = false;
                } else if code == wait_object_0() {
                    self.end(Err(OpenError::Mpv(MpvError::Exited)));
                } else {
                    self.end(Err(OpenError::Mpv(MpvError::WaitFailed)));
                }
            },
            _ => {},
        }
        self.pending()
    }
}

} // verus!
