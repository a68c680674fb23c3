//! The command line of the launcher: the options it accepts, the loadfile
//! modes, and the shell command that the registry holds for opening a file.
use vstd::prelude::*;

use crate::text::{chars_equal, chars_start_with, string_from, to_chars};

verus! {

/// The option that selects the loadfile mode, followed directly by its value.
pub const LOADFILE_OPTION_PREFIX: &'static str = "--loadfile=";

/// Whether the launcher registers or unregisters itself.
#[derive(Clone, Copy, Debug, PartialEq, Eq, Structural)]
pub enum Mode {
    Register,
    Unregister,
}

/// How mpv adds an opened file to its playlist.
#[derive(Clone, Copy, Debug, PartialEq, Eq, Structural)]
pub enum LoadfileFlags {
    Replace,
    Append,
    AppendPlay,
    InsertNext,
    InsertNextPlay,
}

impl LoadfileFlags {
    /// The name of the mode, as mpv's `loadfile` command spells it.
    pub open spec fn text(self) -> Seq<char> {
        match self {
            LoadfileFlags::Replace => "replace"@,
            LoadfileFlags::Append => "append"@,
            LoadfileFlags::AppendPlay => "append+play"@,
            LoadfileFlags::InsertNext => "insert-next"@,
            LoadfileFlags::InsertNextPlay => "insert-next+play"@,
        }
    }

    /// The mode named `text`, if any.
    pub open spec fn named(text: Seq<char>) -> Option<LoadfileFlags> {
        if text == LoadfileFlags::Replace.text() {
            Some(LoadfileFlags::Replace)
        } else if text == LoadfileFlags::Append.text() {
            Some(LoadfileFlags::Append)
        } else if text == LoadfileFlags::AppendPlay.text() {
            Some(LoadfileFlags::AppendPlay)
        } else if text == LoadfileFlags::InsertNext.text() {
            Some(LoadfileFlags::InsertNext)
        } else if text == LoadfileFlags::InsertNextPlay.text() {
            Some(LoadfileFlags::InsertNextPlay)
        } else {
            None
        }
    }

    /// The mode used when none is given.
    pub fn default_flags() -> (f: LoadfileFlags)
        ensures
            f == LoadfileFlags::Replace,
    {
        LoadfileFlags::Replace
    }

    /// The name of the mode, as mpv's `loadfile` command spells it.
    pub fn as_str(self) -> (s: &'static str)
        ensures
            s@ == self.text(),
    {
        match self {
            LoadfileFlags::Replace => "replace",
            LoadfileFlags::Append => "append",
            LoadfileFlags::AppendPlay => "append+play",
            LoadfileFlags::InsertNext => "insert-next",
            LoadfileFlags::InsertNextPlay => "insert-next+play",
        }
    }

    /// The name of the mode as an owned string.
    pub fn to_text(self) -> (s: String)
        ensures
            s@ == self.text(),
    {
        String::from_str(self.as_str())
    }

    /// The mode whose name is `text`; unknown names are refused.
    pub fn from_text(text: &str) -> (r: Result<LoadfileFlags, ArgumentError>)
        ensures
            match LoadfileFlags::named(text@) {
                Some(f) => r == Ok::<LoadfileFlags, ArgumentError>(f),
                None => r matches Err(e) && e@ == ArgumentErrorView::UnsupportedLoadfileFlags(text@),
            },
    {
        let all = [
            LoadfileFlags::Replace,
            LoadfileFlags::Append,
            LoadfileFlags::AppendPlay,
            LoadfileFlags::InsertNext,
            LoadfileFlags::InsertNextPlay,
        ];
        let chars = to_chars(text);
        let mut i: usize = 0;
        while i < 5
            invariant
                0 <= i <= 5,
                chars@ == text@,
                all@ == seq![
                    LoadfileFlags::Replace,
                    LoadfileFlags::Append,
                    LoadfileFlags::AppendPlay,
                    LoadfileFlags::InsertNext,
                    LoadfileFlags::InsertNextPlay,
                ],
                forall|j: int| 0 <= j < i ==> all@[j].text() != text@,
            decreases 5 - i,
        {
            let candidate = all[i];
            let name = to_chars(candidate.as_str());
            if chars_equal(&chars, &name) {
                return Ok(candidate);
            }
            i = i + 1;
        }
        Err(ArgumentError::UnsupportedLoadfileFlags(String::from_str(text)))
    }
}

impl Default for LoadfileFlags {
    /// `replace`, the mode used when none is given.
    fn default() -> (f: LoadfileFlags)
        ensures
            f == LoadfileFlags::Replace,
    {
        LoadfileFlags::Replace
    }
}

impl std::str::FromStr for LoadfileFlags {
    type Err = ArgumentError;

    /// The mode whose name is `text`, as `LoadfileFlags::from_text` finds it.
    fn from_str(text: &str) -> (r: Result<LoadfileFlags, ArgumentError>)
        ensures
            match LoadfileFlags::named(text@) {
                Some(f) => r == Ok::<LoadfileFlags, ArgumentError>(f),
                None => r matches Err(e) && e@ == ArgumentErrorView::UnsupportedLoadfileFlags(text@),
            },
    {
        LoadfileFlags::from_text(text)
    }
}

/// A command line that the launcher refuses.
#[derive(Debug)]
pub enum ArgumentError {
    UnknownOption(String),
    UnsupportedLoadfileFlags(String),
}

/// What a refused command line is, with its text as characters.
pub enum ArgumentErrorView {
    UnknownOption(Seq<char>),
    UnsupportedLoadfileFlags(Seq<char>),
}

impl View for ArgumentError {
    type V = ArgumentErrorView;

    open spec fn view(&self) -> ArgumentErrorView {
        match self {
            ArgumentError::UnknownOption(s) => ArgumentErrorView::UnknownOption(s@),
            ArgumentError::UnsupportedLoadfileFlags(s) => ArgumentErrorView::UnsupportedLoadfileFlags(s@),
        }
    }
}

impl ArgumentError {
    /// The message shown for the refused command line.
    pub open spec fn message_text(self) -> Seq<char> {
        match self@ {
            ArgumentErrorView::UnknownOption(option) => "Unknown option: "@ + option,
            ArgumentErrorView::UnsupportedLoadfileFlags(flags) => "Unsupported loadfile flags: "@ + flags,
        }
    }

    /// The message shown for the refused command line.
    pub fn message(&self) -> (m: String)
        ensures
            m@ == self.message_text(),
    {
        match self {
            ArgumentError::UnknownOption(option) => String::from_str("Unknown option: ").concat(option.as_str()),
            ArgumentError::UnsupportedLoadfileFlags(flags) => String::from_str("Unsupported loadfile flags: ").concat(flags.as_str()),
        }
    }
}

/// What the launcher was asked to do.
#[derive(Debug)]
pub enum Command {
    Register { loadfile_flags: LoadfileFlags },
    Unregister,
    Open {
        /// The shell passes one file per invocation; extra files are ignored.
        file: Option<String>,
        loadfile_flags: LoadfileFlags,
    },
}

/// What the launcher was asked to do, with the file as characters.
pub enum CommandView {
    Register { loadfile_flags: LoadfileFlags },
    Unregister,
    Open { file: Option<Seq<char>>, loadfile_flags: LoadfileFlags },
}

impl View for Command {
    type V = CommandView;

    open spec fn view(&self) -> CommandView {
        match self {
            Command::Register { loadfile_flags } => CommandView::Register { loadfile_flags: *loadfile_flags },
            Command::Unregister => CommandView::Unregister,
            Command::Open { file, loadfile_flags } => CommandView::Open {
                file: match file {
                    Some(f) => Some(f@),
                    None => None,
                },
                loadfile_flags: *loadfile_flags,
            },
        }
    }
}

/// What the arguments read so far have set.
pub struct ArgumentsRead {
    pub mode: Option<Mode>,
    pub loadfile_flags: Option<LoadfileFlags>,
    pub file: Option<Seq<char>>,
    pub past_end_of_options: bool,
}

/// Keeps what is already set; sets it to `next` only where nothing is.
pub open spec fn first_of<T>(current: Option<T>, next: T) -> Option<T> {
    match current {
        Some(v) => Some(v),
        None => Some(next),
    }
}

/// Nothing read yet.
pub open spec fn nothing_read() -> ArgumentsRead {
    ArgumentsRead { mode: None, loadfile_flags: None, file: None, past_end_of_options: false }
}

/// Reads one more argument.
pub open spec fn read_argument(read: ArgumentsRead, argument: Seq<char>) -> Result<ArgumentsRead, ArgumentErrorView> {
    if read.past_end_of_options || !"--"@.is_prefix_of(argument) {
        Ok(ArgumentsRead { file: first_of(read.file, argument), ..read })
    } else if argument == "--"@ {
        Ok(ArgumentsRead { past_end_of_options: true, ..read })
    } else if argument == "--register"@ {
        Ok(ArgumentsRead { mode: first_of(read.mode, Mode::Register), ..read })
    } else if argument == "--unregister"@ {
        Ok(ArgumentsRead { mode: first_of(read.mode, Mode::Unregister), ..read })
    } else if LOADFILE_OPTION_PREFIX@.is_prefix_of(argument) {
        let text = argument.skip(LOADFILE_OPTION_PREFIX@.len() as int);
        match LoadfileFlags::named(text) {
            Some(f) => Ok(ArgumentsRead { loadfile_flags: first_of(read.loadfile_flags, f), ..read }),
            None => Err(ArgumentErrorView::UnsupportedLoadfileFlags(text)),
        }
    } else {
        Err(ArgumentErrorView::UnknownOption(argument))
    }
}

/// Reads the arguments in order, stopping at the first refused one.
pub open spec fn read_arguments(arguments: Seq<Seq<char>>) -> Result<ArgumentsRead, ArgumentErrorView>
    decreases arguments.len(),
{
    if arguments.len() == 0 {
        Ok(nothing_read())
    } else {
        match read_arguments(arguments.drop_last()) {
            Ok(read) => read_argument(read, arguments.last()),
            Err(e) => Err(e),
        }
    }
}

/// Once an argument is refused, no later argument changes the outcome.
pub proof fn lemma_refusal_is_final(arguments: Seq<Seq<char>>, k: int)
    requires
        0 <= k <= arguments.len(),
        read_arguments(arguments.take(k)) is Err,
    ensures
        read_arguments(arguments) == read_arguments(arguments.take(k)),
    decreases arguments.len(),
{
    if k == arguments.len() {
        assert(arguments.take(k) =~= arguments);
    } else {
        let rest = arguments.drop_last();
        assert(rest.take(k) =~= arguments.take(k));
        lemma_refusal_is_final(rest, k);
    }
}

/// The command that the arguments read ask for.
pub open spec fn command_of(read: ArgumentsRead) -> CommandView {
    let loadfile_flags = match read.loadfile_flags {
        Some(f) => f,
        None => LoadfileFlags::Replace,
    };
    match read.mode {
        Some(Mode::Register) => CommandView::Register { loadfile_flags },
        Some(Mode::Unregister) => CommandView::Unregister,
        None => CommandView::Open { file: read.file, loadfile_flags },
    }
}

/// The command that a command line asks for, or why it is refused.
pub open spec fn parsed_command(arguments: Seq<Seq<char>>) -> Result<CommandView, ArgumentErrorView> {
    match read_arguments(arguments) {
        Ok(read) => Ok(command_of(read)),
        Err(e) => Err(e),
    }
}

/// The arguments as character sequences.
pub open spec fn arguments_view(arguments: Seq<String>) -> Seq<Seq<char>> {
    arguments.map_values(|a: String| a@)
}

/// Reads the command line (without the program name).
pub fn parse_arguments(arguments: Vec<String>) -> (r: Result<Command, ArgumentError>)
    ensures
        match r {
            Ok(c) => parsed_command(arguments_view(arguments@)) == Ok::<CommandView, ArgumentErrorView>(c@),
            Err(e) => parsed_command(arguments_view(arguments@)) == Err::<CommandView, ArgumentErrorView>(e@),
        },
{
    let ghost args = arguments_view(arguments@);
    let mut mode: Option<Mode> = None;
    let mut loadfile_flags: Option<LoadfileFlags> = None;
    let mut file: Option<String> = None;
    let mut past_end_of_options = false;

    let end_of_options = to_chars("--");
    let register = to_chars("--register");
    let unregister = to_chars("--unregister");
    let loadfile_prefix = to_chars(LOADFILE_OPTION_PREFIX);

    let mut i: usize = 0;
    while i < arguments.len()
        invariant
            i <= arguments@.len(),
            args == arguments_view(arguments@),
            end_of_options@ == "--"@,
            register@ == "--register"@,
            unregister@ == "--unregister"@,
            loadfile_prefix@ == LOADFILE_OPTION_PREFIX@,
            read_arguments(args.take(i as int)) == Ok::<ArgumentsRead, ArgumentErrorView>(ArgumentsRead {
                mode,
                loadfile_flags,
                file: match file {
                    Some(f) => Some(f@),
                    None => None,
                },
                past_end_of_options,
            }),
        decreases arguments@.len() - i,
    {
        let argument = arguments[i].clone();
        assert(args.take(i + 1).drop_last() =~= args.take(i as int));
        assert(args.take(i + 1).last() == argument@);
        let chars = to_chars(argument.as_str());
        if past_end_of_options || !chars_start_with(&chars, &end_of_options) {
            if file.is_none() {
                file = Some(argument);
            }
        } else if chars_equal(&chars, &end_of_options) {
            past_end_of_options = true;
        } else if chars_equal(&chars, &register) {
            if mode.is_none() {
                mode = Some(Mode::Register);
            }
        } else if chars_equal(&chars, &unregister) {
            if mode.is_none() {
                mode = Some(Mode::Unregister);
            }
        } else if chars_start_with(&chars, &loadfile_prefix) {
            let text = string_from(&chars, loadfile_prefix.len());
            match LoadfileFlags::from_text(text.as_str()) {
                Ok(f) => {
                    if loadfile_flags.is_none() {
                        loadfile_flags = Some(f);
                    }
                },
                Err(e) => {
                    proof {
                        lemma_refusal_is_final(args, i + 1);
                    }
                    return Err(e);
                },
            }
        } else {
            proof {
                lemma_refusal_is_final(args, i + 1);
            }
            return Err(ArgumentError::UnknownOption(argument));
        }
        i = i + 1;
    }
    assert(args.take(arguments@.len() as int) =~= args);

    let flags = match loadfile_flags {
        Some(f) => f,
        None => LoadfileFlags::default_flags(),
    };
    match mode {
        Some(Mode::Register) => Ok(Command::Register { loadfile_flags: flags }),
        Some(Mode::Unregister) => Ok(Command::Unregister),
        None => Ok(Command::Open { file, loadfile_flags: flags }),
    }
}

/// The command that the shell runs to open a file with the launcher at
/// `umpv_path`; `%L` is the shell's placeholder for the selected file.
pub open spec fn shell_open_command_text(umpv_path: Seq<char>, loadfile_flags: LoadfileFlags) -> Seq<char> {
    "\""@ + umpv_path + "\" "@ + LOADFILE_OPTION_PREFIX@ + loadfile_flags.text() + " -- \"%L\""@
}

/// The command that the shell runs to open a file with the launcher at
/// `umpv_path`; `%L` is the shell's placeholder for the selected file.
pub fn shell_open_command(umpv_path: &str, loadfile_flags: LoadfileFlags) -> (command: String)
    ensures
        command@ == shell_open_command_text(umpv_path@, loadfile_flags),
{
    let command = String::from_str("\"")
        .concat(umpv_path)
        .concat("\" ")
        .concat(LOADFILE_OPTION_PREFIX)
        .concat(loadfile_flags.as_str())
        .concat(" -- \"%L\"");
    assert(command@ =~= shell_open_command_text(umpv_path@, loadfile_flags));
    command
}

/// Each loadfile mode is found again by its name.
pub proof fn lemma_loadfile_flags_named_by_text(f: LoadfileFlags)
    ensures
        LoadfileFlags::named(f.text()) == Some(f),
{
    reveal_strlit("replace");
    reveal_strlit("append");
    reveal_strlit("append+play");
    reveal_strlit("insert-next");
    reveal_strlit("insert-next+play");
    assert("replace"@.len() == 7);
    assert("append"@.len() == 6);
    assert("append+play"@.len() == 11);
    assert("insert-next"@.len() == 11);
    assert("insert-next+play"@.len() == 16);
    assert("append+play"@[0] != "insert-next"@[0]);
}

/// A name is the name of at most one loadfile mode.
pub proof fn lemma_loadfile_flags_text_injective(f: LoadfileFlags, g: LoadfileFlags)
    ensures
        f.text() == g.text() ==> f == g,
{
    lemma_loadfile_flags_named_by_text(f);
    lemma_loadfile_flags_named_by_text(g);
}

/// The arguments that the shell passes when it runs the registered command
/// for `file` open that file with the registered mode, whatever the file's
/// name is (one that starts with `--` too).
pub proof fn lemma_registered_command_opens_file(loadfile_flags: LoadfileFlags, file: Seq<char>)
    ensures
        parsed_command(seq![LOADFILE_OPTION_PREFIX@ + loadfile_flags.text(), "--"@, file])
            == Ok::<CommandView, ArgumentErrorView>(CommandView::Open { file: Some(file), loadfile_flags }),
{
    reveal_strlit("--");
    reveal_strlit("--register");
    reveal_strlit("--unregister");
    reveal_strlit("--loadfile=");
    let option = LOADFILE_OPTION_PREFIX@ + loadfile_flags.text();
    let args = seq![option, "--"@, file];
    lemma_loadfile_flags_named_by_text(loadfile_flags);
    assert(option.skip(LOADFILE_OPTION_PREFIX@.len() as int) =~= loadfile_flags.text());
    assert("--"@.is_prefix_of(option));
    assert(LOADFILE_OPTION_PREFIX@.is_prefix_of(option));
    assert(option != "--"@) by {
        assert(option.len() > 2);
    }
    assert(option != "--register"@) by {
        assert(option[2] != "--register"@[2]);
    }
    assert(option != "--unregister"@) by {
        assert(option[2] != "--unregister"@[2]);
    }
    assert(LOADFILE_OPTION_PREFIX@ == "--loadfile="@);
    assert(LOADFILE_OPTION_PREFIX@.len() == 11);
    assert(args.drop_last().drop_last().drop_last() =~= Seq::<Seq<char>>::empty());
    assert(args.drop_last().drop_last() =~= seq![option]);
    assert(args.drop_last() =~= seq![option, "--"@]);
    assert(seq![option].drop_last() =~= Seq::<Seq<char>>::empty());
    assert(read_arguments(Seq::<Seq<char>>::empty()) == Ok::<ArgumentsRead, ArgumentErrorView>(nothing_read()));
    assert(read_argument(nothing_read(), option) == Ok::<ArgumentsRead, ArgumentErrorView>(ArgumentsRead { mode: None, loadfile_flags: Some(loadfile_flags), file: None, past_end_of_options: false }));
    let r1 = ArgumentsRead { mode: None, loadfile_flags: Some(loadfile_flags), file: None, past_end_of_options: false };
    assert(read_arguments(seq![option]) == Ok::<ArgumentsRead, ArgumentErrorView>(r1));
    let r2 = ArgumentsRead { past_end_of_options: true, ..r1 };
    assert(read_arguments(seq![option, "--"@]) == Ok::<ArgumentsRead, ArgumentErrorView>(r2));
    let r3 = ArgumentsRead { file: Some(file), ..r2 };
    assert(read_arguments(args) == Ok::<ArgumentsRead, ArgumentErrorView>(r3));
}

/// The mode named in a registered command for the launcher at `umpv_path`:
/// the text after the quoted path, a space and the loadfile option prefix,
/// up to the trailing ` -- "%L"`.
pub open spec fn registered_mode_token(command: Seq<char>, umpv_path: Seq<char>) -> Seq<char> {
    command.subrange(umpv_path.len() + 3 + LOADFILE_OPTION_PREFIX@.len() as int, command.len() - 8)
}

/// The command registered for opening files runs the launcher at its quoted
/// path with the loadfile option, `--` and the shell's file placeholder; the
/// mode it names is the registered mode's own name, so that when the shell
/// runs it for any file, the launcher reads back an open command for that
/// file with the registered mode.
pub proof fn lemma_shell_open_command_parses_back(umpv_path: Seq<char>, loadfile_flags: LoadfileFlags, file: Seq<char>)
    ensures
        ({
            let command = shell_open_command_text(umpv_path, loadfile_flags);
            &&& command.take(umpv_path.len() + 2int) == "\""@ + umpv_path + "\""@
            &&& command.subrange(umpv_path.len() + 2int, umpv_path.len() + 3 + LOADFILE_OPTION_PREFIX@.len() as int)
                == " "@ + LOADFILE_OPTION_PREFIX@
            &&& command.skip(command.len() - 8int) == " -- \"%L\""@
            &&& LoadfileFlags::named(registered_mode_token(command, umpv_path)) == Some(loadfile_flags)
            &&& parsed_command(
                seq![LOADFILE_OPTION_PREFIX@ + registered_mode_token(command, umpv_path), "--"@, file],
            ) == Ok::<CommandView, ArgumentErrorView>(CommandView::Open { file: Some(file), loadfile_flags })
        }),
{
    reveal_strlit("\"");
    reveal_strlit("\" ");
    reveal_strlit(" ");
    reveal_strlit(" -- \"%L\"");
    reveal_strlit("--loadfile=");
    assert(LOADFILE_OPTION_PREFIX@ == "--loadfile="@);
    let command = shell_open_command_text(umpv_path, loadfile_flags);
    let a = "\""@;
    let b = "\" "@;
    let suffix = " -- \"%L\""@;
    assert(a.len() == 1);
    assert(b.len() == 2);
    assert(suffix.len() == 8);
    assert(LOADFILE_OPTION_PREFIX@.len() == 11);
    let text = loadfile_flags.text();
    assert(command =~= a + umpv_path + b + LOADFILE_OPTION_PREFIX@ + text + suffix);
    assert(command.take(umpv_path.len() + 2int) =~= "\""@ + umpv_path + "\""@);
    assert(command.subrange(umpv_path.len() + 2int, umpv_path.len() + 3 + LOADFILE_OPTION_PREFIX@.len() as int)
        =~= " "@ + LOADFILE_OPTION_PREFIX@);
    assert(command.skip(command.len() - 8int) =~= suffix);
    assert(registered_mode_token(command, umpv_path) =~= text);
    lemma_loadfile_flags_named_by_text(loadfile_flags);
    lemma_registered_command_opens_file(loadfile_flags, file);
}

/// A mode, a loadfile mode or a file given again does not replace the one
/// given first.
pub proof fn lemma_first_given_wins(arguments: Seq<Seq<char>>, argument: Seq<char>)
    requires
        read_arguments(arguments) is Ok,
        read_arguments(arguments.push(argument)) is Ok,
    ensures
        ({
            let before = read_arguments(arguments)->Ok_0;
            let after = read_arguments(arguments.push(argument))->Ok_0;
            &&& before.mode is Some ==> after.mode == before.mode
            &&& before.loadfile_flags is Some ==> after.loadfile_flags == before.loadfile_flags
            &&& before.file is Some ==> after.file == before.file
        }),
{
    assert(arguments.push(argument).drop_last() =~= arguments);
}

/// After `--`, every argument is taken as a file: none is refused, and the
/// mode and the loadfile mode stay as they were.
pub proof fn lemma_past_end_of_options_accepts_all(arguments: Seq<Seq<char>>, rest: Seq<Seq<char>>)
    requires
        read_arguments(arguments) is Ok,
    ensures
        read_arguments(arguments.push("--"@) + rest) is Ok,
        read_arguments(arguments.push("--"@) + rest)->Ok_0.mode == read_arguments(arguments)->Ok_0.mode,
        read_arguments(arguments.push("--"@) + rest)->Ok_0.loadfile_flags
            == read_arguments(arguments)->Ok_0.loadfile_flags,
        read_arguments(arguments.push("--"@) + rest)->Ok_0.past_end_of_options,
    decreases rest.len(),
{
    reveal_strlit("--");
    let all = arguments.push("--"@) + rest;
    if rest.len() == 0 {
        assert(all =~= arguments.push("--"@));
        assert(all.drop_last() =~= arguments);
    } else {
        lemma_past_end_of_options_accepts_all(arguments, rest.drop_last());
        assert(all.drop_last() =~= arguments.push("--"@) + rest.drop_last());
    }
}

} // verus!
