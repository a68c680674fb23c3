//! Starting mpv and waiting until it listens on the pipe.
use vstd::prelude::*;

verus! {

/// How long a new mpv may take to start listening on the pipe.
pub const STARTUP_TIMEOUT_MILLISECONDS: u32 = 5000;

/// How long each wait on the new mpv process lasts between two checks.
pub const POLL_INTERVAL_MILLISECONDS: u32 = 5;

/// The class name of mpv's windows.
pub const MPV_WINDOW_CLASS_NAME: &'static str = "mpv";

/// Why starting mpv failed.
#[derive(Debug)]
pub enum MpvError {
    /// The process could not be started; the text says why.
    SpawnFailed(String),
    Exited,
    WaitFailed,
    StartupTimedOut,
}

/// Why starting mpv failed, with the text as characters.
pub enum MpvErrorView {
    SpawnFailed(Seq<char>),
    Exited,
    WaitFailed,
    StartupTimedOut,
}

impl View for MpvError {
    type V = MpvErrorView;

    open spec fn view(&self) -> MpvErrorView {
        match self {
            MpvError::SpawnFailed(reason) => MpvErrorView::SpawnFailed(reason@),
            MpvError::Exited => MpvErrorView::Exited,
            MpvError::WaitFailed => MpvErrorView::WaitFailed,
            MpvError::StartupTimedOut => MpvErrorView::StartupTimedOut,
        }
    }
}

impl MpvErrorView {
    /// The message shown for the error.
    pub open spec fn message_text(self) -> Seq<char> {
        match self {
            MpvErrorView::SpawnFailed(reason) => "Failed to launch mpv.exe: "@ + reason,
            MpvErrorView::Exited => "mpv.exe exited before it opened the file."@,
            MpvErrorView::WaitFailed => "Failed to wait for mpv.exe."@,
            MpvErrorView::StartupTimedOut => "Timed out waiting for mpv.exe to start."@,
        }
    }
}

impl MpvError {
    /// The message shown for the error.
    pub fn message(&self) -> (m: String)
        ensures
            m@ == self@.message_text(),
    {
        match self {
            MpvError::SpawnFailed(reason) => String::from_str("Failed to launch mpv.exe: ").concat(reason.as_str()),
            MpvError::Exited => String::from_str("mpv.exe exited before it opened the file."),
            MpvError::WaitFailed => String::from_str("Failed to wait for mpv.exe."),
            MpvError::StartupTimedOut => String::from_str("Timed out waiting for mpv.exe to start."),
        }
    }
}

/// The option that tells mpv on which pipe to listen.
pub open spec fn ipc_server_argument_text(pipe_path: Seq<char>) -> Seq<char> {
    "--input-ipc-server="@ + pipe_path
}

/// The arguments that a new mpv is started with: listen on the pipe, and
/// open the file (after `--`, so that no file name is read as an option).
pub open spec fn launch_arguments_text(pipe_path: Seq<char>, file: Seq<char>) -> Seq<Seq<char>> {
    seq![ipc_server_argument_text(pipe_path), "--"@, file]
}

/// The arguments that a new mpv is started with: listen on the pipe, and
/// open the file (after `--`, so that no file name is read as an option).
pub fn launch_arguments(pipe_path: &str, file: &str) -> (arguments: Vec<String>)
    ensures
        arguments@.map_values(|a: String| a@) == launch_arguments_text(pipe_path@, file@),
{
    let mut arguments: Vec<String> = Vec::new();
    arguments.push(String::from_str("--input-ipc-server=").concat(pipe_path));
    arguments.push(String::from_str("--"));
    arguments.push(String::from_str(file));
    assert(arguments@.map_values(|a: String| a@) =~= launch_arguments_text(pipe_path@, file@));
    arguments
}

} // verus!
