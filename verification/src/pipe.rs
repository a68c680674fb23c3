//! The named pipe on which mpv listens, and the command sent through it.
use vstd::prelude::*;

use crate::text::{decimal, decimal_text, push_char};
use crate::win32::{error_file_not_found, error_pipe_busy, error_sem_timeout};

verus! {

/// How long the launcher keeps trying while every pipe instance is busy.
pub const CONNECT_TIMEOUT_MILLISECONDS: u32 = 5000;

/// How long each wait for a free pipe instance lasts.
pub const INSTANCE_WAIT_MILLISECONDS: u32 = 5;

/// Why talking to mpv through the pipe failed.
#[derive(Clone, Copy, Debug, PartialEq, Eq, Structural)]
pub enum PipeError {
    SessionIdUnavailable,
    ConnectFailed,
    WriteFailed,
}

impl PipeError {
    /// The message shown for the error.
    pub open spec fn message_text(self) -> Seq<char> {
        match self {
            PipeError::SessionIdUnavailable => "Failed to determine the session id."@,
            PipeError::ConnectFailed => "Failed to connect to mpv."@,
            PipeError::WriteFailed => "Failed to send the file to mpv."@,
        }
    }

    /// The message shown for the error.
    pub fn message(&self) -> (m: String)
        ensures
            m@ == self.message_text(),
    {
        match self {
            PipeError::SessionIdUnavailable => String::from_str("Failed to determine the session id."),
            PipeError::ConnectFailed => String::from_str("Failed to connect to mpv."),
            PipeError::WriteFailed => String::from_str("Failed to send the file to mpv."),
        }
    }
}

/// The Windows error code that an OS error carries: its raw value read as
/// unsigned, or `None` when the error carries none.
pub fn error_code(raw_os_error: Option<i32>) -> (code: Option<u32>)
    ensures
        code == match raw_os_error {
            Some(raw) => Some(raw as u32),
            None => None::<u32>,
        },
{
    match raw_os_error {
        Some(raw) => Some(#[verifier::truncate] (raw as u32)),
        None => None,
    }
}

/// How one character of the file name is written inside the quoted argument
/// of mpv's `loadfile` command.
pub open spec fn escaped_char(c: char) -> Seq<char> {
    if c == '\\' {
        seq!['\\', '\\']
    } else if c == '"' {
        seq!['\\', '"']
    } else if c == '\n' {
        seq!['\\', 'n']
    } else {
        seq![c]
    }
}

/// How a file name is written inside the quoted argument of mpv's `loadfile`
/// command: backslashes, quotes and line feeds are escaped.
pub open spec fn escaped(s: Seq<char>) -> Seq<char>
    decreases s.len(),
{
    if s.len() == 0 {
        Seq::empty()
    } else {
        escaped_char(s[0]) + escaped(s.skip(1))
    }
}

/// How mpv reads the text of a quoted argument back: a backslash takes the
/// character after it literally, except that `\n` is a line feed.
pub open spec fn unescaped(s: Seq<char>) -> Seq<char>
    decreases s.len(),
{
    if s.len() == 0 {
        Seq::empty()
    } else if s[0] == '\\' && s.len() >= 2 {
        seq![if s[1] == 'n' { '\n' } else { s[1] }] + unescaped(s.skip(2))
    } else {
        seq![s[0]] + unescaped(s.skip(1))
    }
}

/// The command line that asks mpv to load `file` with the given mode.
pub open spec fn loadfile_command_text(file: Seq<char>, loadfile_flags: Seq<char>) -> Seq<char> {
    "raw loadfile \""@ + escaped(file) + "\" "@ + loadfile_flags + "\n"@
}

/// Escaping a longer name appends the escaped last character.
pub proof fn lemma_escaped_push(s: Seq<char>, c: char)
    ensures
        escaped(s.push(c)) == escaped(s) + escaped_char(c),
    decreases s.len(),
{
    if s.len() == 0 {
        assert(s.push(c).skip(1) =~= Seq::<char>::empty());
        assert(escaped(Seq::<char>::empty()) == Seq::<char>::empty());
        assert(s.push(c)[0] == c);
        assert(escaped(s) == Seq::<char>::empty());
        assert(escaped(s.push(c)) =~= escaped_char(c));
    } else {
        lemma_escaped_push(s.skip(1), c);
        assert(s.push(c).skip(1) =~= s.skip(1).push(c));
        assert(escaped(s.push(c)) =~= escaped(s) + escaped_char(c));
    }
}

/// The command line that asks mpv to load `file` with the given mode.
pub fn loadfile_command(file: &str, loadfile_flags: &str) -> (command: String)
    ensures
        command@ == loadfile_command_text(file@, loadfile_flags@),
{
    let mut escaped_file = String::new();
    for c in it: file.chars()
        invariant
            it.seq() == file@,
            escaped_file@ == escaped(file@.take(it.index() as int)),
    {
        proof {
            let i = it.index() as int;
            assert(file@.take(i + 1) =~= file@.take(i).push(c));
            lemma_escaped_push(file@.take(i), c);
        }
        if c == '\\' {
            push_char(&mut escaped_file, '\\');
            push_char(&mut escaped_file, '\\');
        } else if c == '"' {
            push_char(&mut escaped_file, '\\');
            push_char(&mut escaped_file, '"');
        } else if c == '\n' {
            push_char(&mut escaped_file, '\\');
            push_char(&mut escaped_file, 'n');
        } else {
            push_char(&mut escaped_file, c);
        }
        assert(escaped_file@ =~= escaped(file@.take(it.index() + 1)));
    }
    assert(file@.take(file@.len() as int) =~= file@);
    let command = String::from_str("raw loadfile \"")
        .concat(escaped_file.as_str())
        .concat("\" ")
        .concat(loadfile_flags)
        .concat("\n");
    assert(command@ =~= loadfile_command_text(file@, loadfile_flags@));
    command
}

/// mpv reads back exactly the file name that was escaped.
pub proof fn lemma_unescaped_escaped(s: Seq<char>)
    ensures
        unescaped(escaped(s)) == s,
    decreases s.len(),
{
    if s.len() > 0 {
        lemma_unescaped_escaped(s.skip(1));
        let e = escaped_char(s[0]);
        let rest = escaped(s.skip(1));
        assert(escaped(s) == e + rest);
        if e.len() == 2 {
            assert((e + rest).skip(2) =~= rest);
        } else {
            assert((e + rest).skip(1) =~= rest);
        }
        assert(seq![s[0]] + s.skip(1) =~= s);
    }
}

/// Escaping touches only backslashes, double quotes and line feeds: each of
/// those three becomes a backslash followed by itself (`n` for the line
/// feed), and every other character stays as it is.
pub proof fn lemma_escaped_char_touches_only_three(c: char)
    ensures
        c == '\\' ==> escaped_char(c) == seq!['\\', '\\'],
        c == '"' ==> escaped_char(c) == seq!['\\', '"'],
        c == '\n' ==> escaped_char(c) == seq!['\\', 'n'],
        c != '\\' && c != '"' && c != '\n' ==> escaped_char(c) == seq![c],
{
}

/// A file name without backslashes, double quotes and line feeds is sent
/// as it is.
pub proof fn lemma_escaped_plain_name_unchanged(s: Seq<char>)
    requires
        forall|i: int| 0 <= i < s.len() ==> s[i] != '\\' && s[i] != '"' && s[i] != '\n',
    ensures
        escaped(s) == s,
    decreases s.len(),
{
    if s.len() > 0 {
        lemma_escaped_plain_name_unchanged(s.skip(1));
        lemma_escaped_char_touches_only_three(s[0]);
        assert(seq![s[0]] + s.skip(1) =~= s);
    }
}

/// An escaped file name holds no line feed.
pub proof fn lemma_escaped_has_no_line_feed(s: Seq<char>)
    ensures
        forall|i: int| 0 <= i < escaped(s).len() ==> escaped(s)[i] != '\n',
    decreases s.len(),
{
    if s.len() > 0 {
        lemma_escaped_has_no_line_feed(s.skip(1));
        let e = escaped_char(s[0]);
        let rest = escaped(s.skip(1));
        assert forall|i: int| 0 <= i < escaped(s).len() implies escaped(s)[i] != '\n' by {
            if i < e.len() {
                assert(escaped(s)[i] == e[i]);
            } else {
                assert(escaped(s)[i] == rest[i - e.len()]);
            }
        }
    }
}

/// The command is a single line whatever the file name holds: its only line
/// feed is the one that ends it, when the mode's name holds none.
pub proof fn lemma_loadfile_command_is_one_line(file: Seq<char>, loadfile_flags: Seq<char>)
    requires
        forall|i: int| 0 <= i < loadfile_flags.len() ==> loadfile_flags[i] != '\n',
    ensures
        loadfile_command_text(file, loadfile_flags).last() == '\n',
        forall|i: int|
            0 <= i < loadfile_command_text(file, loadfile_flags).len() - 1
                ==> loadfile_command_text(file, loadfile_flags)[i] != '\n',
{
    reveal_strlit("raw loadfile \"");
    reveal_strlit("\" ");
    reveal_strlit("\n");
    lemma_escaped_has_no_line_feed(file);
    let a = "raw loadfile \""@;
    let b = escaped(file);
    let c = "\" "@;
    let d = loadfile_flags;
    let text = loadfile_command_text(file, loadfile_flags);
    assert(text =~= a + b + c + d + seq!['\n']);
    assert forall|i: int| 0 <= i < text.len() - 1 implies text[i] != '\n' by {
        if i < a.len() {
            assert(text[i] == a[i]);
        } else if i < a.len() + b.len() {
            assert(text[i] == b[i - a.len()]);
        } else if i < a.len() + b.len() + c.len() {
            assert(text[i] == c[i - a.len() - b.len()]);
        } else {
            assert(text[i] == d[i - a.len() - b.len() - c.len()]);
        }
    }
}

/// The named pipe of one logon session.
#[derive(Debug)]
pub struct Pipe(pub String);

/// The path of the pipe for the session with the given id.
pub open spec fn pipe_path_text(session_id: u32) -> Seq<char> {
    "\\\\.\\pipe\\umpv-"@ + decimal_text(session_id as nat)
}

impl Pipe {
    /// The pipe of the session with the given id; each session has its own,
    /// so launchers of different users never reach each other's mpv.
    pub fn for_current_session(session_id: u32) -> (pipe: Pipe)
        ensures
            pipe.0@ == pipe_path_text(session_id),
    {
        let path = String::from_str("\\\\.\\pipe\\umpv-").concat(decimal(session_id as u64).as_str());
        Pipe(path)
    }

    /// The pipe's path.
    pub fn path(&self) -> (path: &str)
        ensures
            path@ == self.0@,
    {
        self.0.as_str()
    }
}

/// Whether waiting for a free pipe instance shows that a server exists:
/// the wait succeeded, or it ran out of time (the pipe exists but is busy).
pub open spec fn server_exists_spec(wait_outcome: Result<(), u32>) -> bool {
    match wait_outcome {
        Ok(()) => true,
        Err(last_error) => last_error == 121,
    }
}

/// Whether waiting for a free pipe instance shows that a server exists:
/// the wait succeeded, or it ran out of time (the pipe exists but is busy).
pub fn server_exists(wait_outcome: Result<(), u32>) -> (exists: bool)
    ensures
        exists == server_exists_spec(wait_outcome),
{
    match wait_outcome {
        Ok(()) => true,
        Err(last_error) => last_error == error_sem_timeout(),
    }
}

/// What to do after one attempt to open the pipe.
#[derive(Clone, Copy, Debug, PartialEq, Eq, Structural)]
pub enum ConnectStep {
    /// The pipe is open.
    Connected,
    /// No mpv listens on the pipe.
    NoServer,
    /// Every instance is busy and there is time left: wait for one, then try again.
    Retry,
    /// Connecting failed.
    Failed,
}

/// What to do after one attempt to open the pipe: `open_error` is `None`
/// when the pipe was opened, else the error's code (if it carries one);
/// `deadline_passed` tells whether the connect timeout has run out.
pub open spec fn connect_step_spec(open_error: Option<Option<u32>>, deadline_passed: bool) -> ConnectStep {
    match open_error {
        None => ConnectStep::Connected,
        Some(Some(2)) => ConnectStep::NoServer,
        Some(Some(231)) => if deadline_passed {
            ConnectStep::Failed
        } else {
            ConnectStep::Retry
        },
        Some(_) => ConnectStep::Failed,
    }
}

/// What to do after one attempt to open the pipe: `open_error` is `None`
/// when the pipe was opened, else the error's code (if it carries one);
/// `deadline_passed` tells whether the connect timeout has run out.
pub fn connect_step(open_error: Option<Option<u32>>, deadline_passed: bool) -> (step: ConnectStep)
    ensures
        step == connect_step_spec(open_error, deadline_passed),
{
    match open_error {
        None => ConnectStep::Connected,
        Some(Some(code)) => {
            if code == error_file_not_found() {
                ConnectStep::NoServer
            } else if code == error_pipe_busy() {
                if deadline_passed {
                    ConnectStep::Failed
                } else {
                    ConnectStep::Retry
                }
            } else {
                ConnectStep::Failed
            }
        },
        Some(None) => ConnectStep::Failed,
    }
}

} // verus!
