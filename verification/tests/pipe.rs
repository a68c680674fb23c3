use umpv::pipe::{
    connect_step, error_code, loadfile_command, server_exists, ConnectStep, Pipe, PipeError,
};

#[test]
fn loadfile_command_plain() {
    assert_eq!(loadfile_command(r"C:\v\a.mkv", "replace"), "raw loadfile \"C:\\\\v\\\\a.mkv\" replace\n");
}

#[test]
fn loadfile_command_escapes_quotes_and_line_feeds() {
    assert_eq!(loadfile_command("a\"b\nc", "append"), "raw loadfile \"a\\\"b\\nc\" append\n");
    assert_eq!(loadfile_command("", "insert-next+play"), "raw loadfile \"\" insert-next+play\n");
    assert_eq!(loadfile_command("\\\"", "append"), "raw loadfile \"\\\\\\\"\" append\n");
}

#[test]
fn loadfile_command_is_one_line() {
    let c = loadfile_command("x\ny\n\n", "append+play");
    assert_eq!(c.matches('\n').count(), 1);
    assert!(c.ends_with('\n'));
}

fn unescape(s: &str) -> String {
    let mut out = String::new();
    let mut chars = s.chars();
    while let Some(c) = chars.next() {
        if c == '\\' {
            match chars.next() {
                Some('n') => out.push('\n'),
                Some(d) => out.push(d),
                None => out.push('\\'),
            }
        } else {
            out.push(c);
        }
    }
    out
}

#[test]
fn escaped_file_reads_back() {
    for file in [r"C:\a\b.mkv", "q\"uote", "line\nfeed", "\\n", "é🎬"] {
        let c = loadfile_command(file, "replace");
        let inner = &c["raw loadfile \"".len()..c.len() - "\" replace\n".len()];
        assert_eq!(unescape(inner), file);
    }
}

#[test]
fn pipe_path_per_session() {
    assert_eq!(Pipe::for_current_session(1).path(), r"\\.\pipe\umpv-1");
    assert_eq!(Pipe::for_current_session(0).path(), r"\\.\pipe\umpv-0");
    assert_eq!(Pipe::for_current_session(4294967295).path(), r"\\.\pipe\umpv-4294967295");
}

#[test]
fn error_code_reads_unsigned() {
    assert_eq!(error_code(Some(2)), Some(2));
    assert_eq!(error_code(Some(-1)), Some(0xFFFF_FFFF));
    assert_eq!(error_code(Some(-2147024894)), Some(0x8007_0002));
    assert_eq!(error_code(None), None);
}

#[test]
fn server_exists_when_wait_succeeds_or_times_out() {
    assert!(server_exists(Ok(())));
    assert!(server_exists(Err(121)));
    assert!(!server_exists(Err(2)));
    assert!(!server_exists(Err(231)));
}

#[test]
fn connect_steps() {
    assert_eq!(connect_step(None, true), ConnectStep::Connected);
    assert_eq!(connect_step(Some(Some(2)), false), ConnectStep::NoServer);
    assert_eq!(connect_step(Some(Some(2)), true), ConnectStep::NoServer);
    assert_eq!(connect_step(Some(Some(231)), false), ConnectStep::Retry);
    assert_eq!(connect_step(Some(Some(231)), true), ConnectStep::Failed);
    assert_eq!(connect_step(Some(Some(5)), false), ConnectStep::Failed);
    assert_eq!(connect_step(Some(None), false), ConnectStep::Failed);
}

#[test]
fn pipe_error_messages() {
    assert_eq!(PipeError::SessionIdUnavailable.message(), "Failed to determine the session id.");
    assert_eq!(PipeError::ConnectFailed.message(), "Failed to connect to mpv.");
    assert_eq!(PipeError::WriteFailed.message(), "Failed to send the file to mpv.");
}
