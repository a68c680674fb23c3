//! A single-instance launcher for mpv on Windows: it hands a file to the mpv
//! that already runs in the user's session, through mpv's named-pipe IPC, or
//! starts a new mpv when none runs; and it points file extensions at itself
//! in the per-user registry, or back at mpv.
//!
//! This library holds the launcher's decisions, each with its contract: the
//! command line, the text sent to mpv, the file names it refuses, and the
//! flows that say which Windows call comes next. The program around it makes
//! the calls.

pub mod command_line;
pub mod launcher;
pub mod lock;
pub mod mpv;
pub mod pipe;
pub mod registry;
pub mod session;
pub mod text;
mod win32;
