use umpv::command_line::{parse_arguments, shell_open_command, ArgumentError, Command, LoadfileFlags};

fn args(list: &[&str]) -> Vec<String> {
    list.iter().map(|s| s.to_string()).collect()
}

fn open_of(list: &[&str]) -> (Option<String>, LoadfileFlags) {
    match parse_arguments(args(list)) {
        Ok(Command::Open { file, loadfile_flags }) => (file, loadfile_flags),
        _ => panic!("expected an open command"),
    }
}

#[test]
fn as_str_names_every_mode() {
    assert_eq!(LoadfileFlags::Replace.as_str(), "replace");
    assert_eq!(LoadfileFlags::Append.as_str(), "append");
    assert_eq!(LoadfileFlags::AppendPlay.as_str(), "append+play");
    assert_eq!(LoadfileFlags::InsertNext.as_str(), "insert-next");
    assert_eq!(LoadfileFlags::InsertNextPlay.as_str(), "insert-next+play");
    assert_eq!(LoadfileFlags::InsertNext.to_text(), "insert-next");
}

#[test]
fn from_text_round_trips_every_mode() {
    for f in [
        LoadfileFlags::Replace,
        LoadfileFlags::Append,
        LoadfileFlags::AppendPlay,
        LoadfileFlags::InsertNext,
        LoadfileFlags::InsertNextPlay,
    ] {
        assert_eq!(LoadfileFlags::from_text(f.as_str()).ok(), Some(f));
        assert_eq!(f.as_str().parse::<LoadfileFlags>().ok(), Some(f));
    }
}

#[test]
fn from_text_refuses_unknown_modes() {
    for text in ["insert-at", "insert-at+play", "Replace", "", "append+"] {
        match LoadfileFlags::from_text(text) {
            Err(ArgumentError::UnsupportedLoadfileFlags(t)) => assert_eq!(t, text),
            _ => panic!("{text} should be refused"),
        }
    }
}

#[test]
fn default_mode_is_replace() {
    assert_eq!(LoadfileFlags::default(), LoadfileFlags::Replace);
    assert_eq!(LoadfileFlags::default_flags(), LoadfileFlags::Replace);
    assert_eq!(open_of(&[]), (None, LoadfileFlags::Replace));
}

#[test]
fn register_with_mode() {
    match parse_arguments(args(&["--register", "--loadfile=append+play"])) {
        Ok(Command::Register { loadfile_flags }) => assert_eq!(loadfile_flags, LoadfileFlags::AppendPlay),
        _ => panic!(),
    }
    match parse_arguments(args(&["--register"])) {
        Ok(Command::Register { loadfile_flags }) => assert_eq!(loadfile_flags, LoadfileFlags::Replace),
        _ => panic!(),
    }
}

#[test]
fn unregister_ignores_mode() {
    assert!(matches!(parse_arguments(args(&["--loadfile=append", "--unregister"])), Ok(Command::Unregister)));
}

#[test]
fn first_mode_wins() {
    assert!(matches!(parse_arguments(args(&["--register", "--unregister"])), Ok(Command::Register { .. })));
    assert!(matches!(parse_arguments(args(&["--unregister", "--register"])), Ok(Command::Unregister)));
}

#[test]
fn first_loadfile_mode_wins() {
    assert_eq!(open_of(&["--loadfile=append", "--loadfile=insert-next", "a.mkv"]).1, LoadfileFlags::Append);
}

#[test]
fn a_later_unknown_loadfile_mode_is_still_refused() {
    match parse_arguments(args(&["--loadfile=append", "--loadfile=bogus"])) {
        Err(ArgumentError::UnsupportedLoadfileFlags(t)) => assert_eq!(t, "bogus"),
        _ => panic!(),
    }
}

#[test]
fn only_the_first_file_is_kept() {
    assert_eq!(open_of(&["a.mkv", "b.mkv"]).0.as_deref(), Some("a.mkv"));
}

#[test]
fn arguments_after_double_dash_are_files() {
    assert_eq!(open_of(&["--", "--register"]), (Some("--register".to_string()), LoadfileFlags::Replace));
    assert_eq!(open_of(&["--", "--", "x"]).0.as_deref(), Some("--"));
    assert_eq!(open_of(&["--loadfile=insert-next", "--", "--weird name.mkv", "--bogus"]),
        (Some("--weird name.mkv".to_string()), LoadfileFlags::InsertNext));
}

#[test]
fn single_dash_arguments_are_files() {
    assert_eq!(open_of(&["-x"]).0.as_deref(), Some("-x"));
}

#[test]
fn unknown_option_is_refused() {
    match parse_arguments(args(&["--verbose", "a.mkv"])) {
        Err(ArgumentError::UnknownOption(o)) => assert_eq!(o, "--verbose"),
        _ => panic!(),
    }
    match parse_arguments(args(&["a.mkv", "--loadfile"])) {
        Err(ArgumentError::UnknownOption(o)) => assert_eq!(o, "--loadfile"),
        _ => panic!(),
    }
}

#[test]
fn argument_error_messages() {
    assert_eq!(ArgumentError::UnknownOption("--x".to_string()).message(), "Unknown option: --x");
    assert_eq!(
        ArgumentError::UnsupportedLoadfileFlags("insert-at".to_string()).message(),
        "Unsupported loadfile flags: insert-at"
    );
}

#[test]
fn shell_open_command_text() {
    assert_eq!(
        shell_open_command(r"C:\mpv\umpv.exe", LoadfileFlags::AppendPlay),
        r#""C:\mpv\umpv.exe" --loadfile=append+play -- "%L""#
    );
    assert_eq!(
        shell_open_command(r"C:\Program Files\mpv\umpv.exe", LoadfileFlags::Replace),
        r#""C:\Program Files\mpv\umpv.exe" --loadfile=replace -- "%L""#
    );
}

#[test]
fn registered_command_parses_back() {
    for f in [LoadfileFlags::Replace, LoadfileFlags::InsertNextPlay] {
        for file in [r"C:\v\a.mkv", "--register", "--"] {
            let option = format!("--loadfile={}", f.as_str());
            assert_eq!(open_of(&[option.as_str(), "--", file]), (Some(file.to_string()), f));
        }
    }
}

#[test]
fn a_refused_argument_ends_reading() {
    match parse_arguments(args(&["--bogus", "--register", "--", "a.mkv"])) {
        Err(ArgumentError::UnknownOption(o)) => assert_eq!(o, "--bogus"),
        _ => panic!(),
    }
    match parse_arguments(args(&["a.mkv", "--loadfile=insert-at", "--bogus"])) {
        Err(ArgumentError::UnsupportedLoadfileFlags(t)) => assert_eq!(t, "insert-at"),
        _ => panic!(),
    }
}
