//! Pointing file extensions at the launcher in the per-user registry, and
//! pointing them back at mpv.
//!
//! Registering and unregistering alternate registry reads and writes with
//! decisions. The decisions live here as two flows: each tells the caller
//! which registry operation to perform next, takes what that operation
//! returned, and ends with the outcome.
use vstd::prelude::*;

use crate::text::{chars_equal, to_chars};
use crate::win32::error_file_not_found;

verus! {

/// Where mpv's `--register` lists the extensions it handles.
pub const SUBKEY_FILE_ASSOCIATIONS: &'static str = "Software\\Clients\\Media\\mpv\\Capabilities\\FileAssociations";

/// Where the per-user ProgIDs live.
pub const SUBKEY_CLASSES: &'static str = "Software\\Classes";

/// The launcher's ProgID.
pub const UMPV_PROG_ID: &'static str = "io.mpv.umpv";

/// mpv's own ProgID.
pub const MPV_PROG_ID: &'static str = "io.mpv.file";

/// A registry key's unnamed default value.
pub const DEFAULT_VALUE_NAME: &'static str = "";

/// The key, below a ProgID, that holds the command that opens a file.
pub const SHELL_OPEN_COMMAND_SUBKEY: &'static str = "shell\\open\\command";

/// `HRESULT_FROM_WIN32(ERROR_FILE_NOT_FOUND)`, the code of a registry error
/// for a key or value that does not exist.
pub open spec fn hresult_file_not_found() -> i32 {
    0x8007_0002u32 as i32
}

/// Whether a registry error code says that the key or value does not exist.
pub fn is_not_found(code: i32) -> (b: bool)
    ensures
        b == (code == hresult_file_not_found()),
{
    let win32_code = error_file_not_found();
    let hresult: u32 = 0x8007_0000u32 | win32_code;
    assert(hresult == 0x8007_0002u32) by (bit_vector)
        requires
            win32_code == 2u32,
            hresult == 0x8007_0000u32 | win32_code,
    ;
    let signed: i32 = #[verifier::truncate] (hresult as i32);
    code == signed
}

/// The path of the launcher's ProgID key.
pub open spec fn umpv_prog_id_subkey_text() -> Seq<char> {
    SUBKEY_CLASSES@ + "\\"@ + UMPV_PROG_ID@
}

/// The path of the launcher's ProgID key.
pub fn umpv_prog_id_subkey() -> (subkey: String)
    ensures
        subkey@ == umpv_prog_id_subkey_text(),
{
    String::from_str(SUBKEY_CLASSES).concat("\\").concat(UMPV_PROG_ID)
}

/// Why registering or unregistering failed.
#[derive(Clone, Copy, Debug, PartialEq, Eq, Structural)]
pub enum RegistryError {
    NoAssociations,
    AssociationsUnreadable,
    ProgIdWriteFailed,
    NoExtensionsRegistered,
    ProgIdRemoveFailed,
}

impl RegistryError {
    /// The message shown for the error.
    pub open spec fn message_text(self) -> Seq<char> {
        match self {
            RegistryError::NoAssociations => "No mpv file associations found.\nRun 'mpv.exe --register' first."@,
            RegistryError::AssociationsUnreadable => "Failed to read the mpv file associations."@,
            RegistryError::ProgIdWriteFailed => "Failed to write umpv ProgID to registry."@,
            RegistryError::NoExtensionsRegistered => "Failed to register any file associations."@,
            RegistryError::ProgIdRemoveFailed => "Failed to remove umpv ProgID from registry."@,
        }
    }

    /// The message shown for the error.
    pub fn message(&self) -> (m: String)
        ensures
            m@ == self.message_text(),
    {
        match self {
            RegistryError::NoAssociations => String::from_str(
                "No mpv file associations found.\nRun 'mpv.exe --register' first.",
            ),
            RegistryError::AssociationsUnreadable => String::from_str("Failed to read the mpv file associations."),
            RegistryError::ProgIdWriteFailed => String::from_str("Failed to write umpv ProgID to registry."),
            RegistryError::NoExtensionsRegistered => String::from_str("Failed to register any file associations."),
            RegistryError::ProgIdRemoveFailed => String::from_str("Failed to remove umpv ProgID from registry."),
        }
    }
}

/// One value of the file-associations key: its name, and its data when it
/// is a string (the ProgID that the extension points at).
#[derive(Debug)]
pub struct RegistryValue {
    pub name: String,
    pub prog_id: Option<String>,
}

/// A registry value with its texts as characters.
pub struct RegistryValueView {
    pub name: Seq<char>,
    pub prog_id: Option<Seq<char>>,
}

impl View for RegistryValue {
    type V = RegistryValueView;

    open spec fn view(&self) -> RegistryValueView {
        RegistryValueView {
            name: self.name@,
            prog_id: match self.prog_id {
                Some(p) => Some(p@),
                None => None,
            },
        }
    }
}

/// Which extensions to take, by the ProgID they point at.
#[derive(Clone, Copy, Debug, PartialEq, Eq, Structural)]
pub enum ProgIdFilter {
    /// Every extension, whatever it points at.
    Any,
    /// Only the extensions that point at the launcher.
    Umpv,
}

/// A value name that names a file extension: a dot and at least one more
/// character.
pub open spec fn is_extension_name(name: Seq<char>) -> bool {
    name.len() > 1 && name[0] == '.'
}

/// Whether a value's ProgID passes the filter.
pub open spec fn accepts(filter: ProgIdFilter, prog_id: Option<Seq<char>>) -> bool {
    match filter {
        ProgIdFilter::Any => true,
        ProgIdFilter::Umpv => prog_id == Some(UMPV_PROG_ID@),
    }
}

/// The extensions among `values` whose ProgID passes the filter, in order.
pub open spec fn extensions_of(values: Seq<RegistryValueView>, filter: ProgIdFilter) -> Seq<Seq<char>>
    decreases values.len(),
{
    if values.len() == 0 {
        Seq::empty()
    } else {
        let rest = extensions_of(values.drop_last(), filter);
        let v = values.last();
        if is_extension_name(v.name) && accepts(filter, v.prog_id) {
            rest.push(v.name)
        } else {
            rest
        }
    }
}

/// The views of a list of values.
pub open spec fn values_view(values: Seq<RegistryValue>) -> Seq<RegistryValueView> {
    values.map_values(|v: RegistryValue| v@)
}

/// The views of a list of strings.
pub open spec fn strings_view(strings: Seq<String>) -> Seq<Seq<char>> {
    strings.map_values(|s: String| s@)
}

/// Every extension that `read_extensions` finds is the name of one of the
/// values, and that value's ProgID passes the filter.
pub proof fn lemma_extensions_come_from_values(values: Seq<RegistryValueView>, filter: ProgIdFilter)
    ensures
        forall|i: int|
            0 <= i < extensions_of(values, filter).len() ==> exists|j: int|
                0 <= j < values.len() && values[j].name == #[trigger] extensions_of(values, filter)[i]
                    && accepts(filter, values[j].prog_id),
    decreases values.len(),
{
    if values.len() > 0 {
        let rest = values.drop_last();
        lemma_extensions_come_from_values(rest, filter);
        let found = extensions_of(values, filter);
        assert forall|i: int| 0 <= i < found.len() implies exists|j: int|
            0 <= j < values.len() && values[j].name == #[trigger] found[i] && accepts(filter, values[j].prog_id) by {
            if i < extensions_of(rest, filter).len() {
                assert(found[i] == extensions_of(rest, filter)[i]);
                let j = choose|j: int|
                    0 <= j < rest.len() && rest[j].name == extensions_of(rest, filter)[i] && accepts(filter, rest[j].prog_id);
                assert(values[j] == rest[j]);
            } else {
                assert(found[i] == values.last().name);
                assert(values[values.len() - 1] == values.last());
            }
        }
    }
}

/// Whether a value names an extension and passes the filter.
pub open spec fn is_wanted(filter: ProgIdFilter) -> spec_fn(RegistryValueView) -> bool {
    |v: RegistryValueView| is_extension_name(v.name) && accepts(filter, v.prog_id)
}

/// The extensions found are exactly the names of the values that name an
/// extension and pass the filter: all of them, none else, in the values'
/// order.
pub proof fn lemma_extensions_are_wanted_names(values: Seq<RegistryValueView>, filter: ProgIdFilter)
    ensures
        extensions_of(values, filter) == values.filter(is_wanted(filter)).map_values(|v: RegistryValueView| v.name),
    decreases values.len(),
{
    reveal_with_fuel(Seq::<RegistryValueView>::filter, 1);
    if values.len() == 0 {
        assert(values.filter(is_wanted(filter)).map_values(|v: RegistryValueView| v.name) =~= Seq::<
            Seq<char>,
        >::empty());
    } else {
        let rest = values.drop_last();
        lemma_extensions_are_wanted_names(rest, filter);
        let kept = rest.filter(is_wanted(filter));
        let last = values.last();
        if is_wanted(filter)(last) {
            assert(values.filter(is_wanted(filter)) == kept.push(last));
            assert(kept.push(last).map_values(|v: RegistryValueView| v.name) =~= kept.map_values(
                |v: RegistryValueView| v.name,
            ).push(last.name));
        } else {
            assert(values.filter(is_wanted(filter)) == kept);
        }
    }
}

/// No value that names an extension and passes the filter is left out.
pub proof fn lemma_extensions_complete(values: Seq<RegistryValueView>, filter: ProgIdFilter, j: int)
    requires
        0 <= j < values.len(),
        is_extension_name(values[j].name),
        accepts(filter, values[j].prog_id),
    ensures
        extensions_of(values, filter).contains(values[j].name),
    decreases values.len(),
{
    let found = extensions_of(values, filter);
    if j == values.len() - 1 {
        assert(found[found.len() - 1] == values[j].name);
    } else {
        let rest = values.drop_last();
        assert(rest[j] == values[j]);
        lemma_extensions_complete(rest, filter, j);
        let i = choose|i: int| 0 <= i < extensions_of(rest, filter).len() && extensions_of(rest, filter)[i] == values[j].name;
        assert(found[i] == values[j].name);
    }
}

/// Values of which none names an extension give no extension.
pub proof fn lemma_no_extension_names_none_found(values: Seq<RegistryValueView>, filter: ProgIdFilter)
    requires
        forall|j: int| 0 <= j < values.len() ==> !is_extension_name(#[trigger] values[j].name),
    ensures
        extensions_of(values, filter).len() == 0,
    decreases values.len(),
{
    if values.len() > 0 {
        let rest = values.drop_last();
        assert forall|j: int| 0 <= j < rest.len() implies !is_extension_name(#[trigger] rest[j].name) by {
            assert(rest[j] == values[j]);
        }
        lemma_no_extension_names_none_found(rest, filter);
        assert(values[values.len() - 1] == values.last());
    }
}

/// Whether a value's data is the launcher's ProgID.
pub fn is_umpv_prog_id(prog_id: &Option<String>) -> (b: bool)
    ensures
        b == (match prog_id {
            Some(p) => p@ == UMPV_PROG_ID@,
            None => false,
        }),
{
    match prog_id {
        Some(p) => chars_equal(&to_chars(p.as_str()), &to_chars(UMPV_PROG_ID)),
        None => false,
    }
}

/// The extensions among `values` whose ProgID passes the filter, in order.
pub fn read_extensions(values: &Vec<RegistryValue>, filter: ProgIdFilter) -> (extensions: Vec<String>)
    ensures
        strings_view(extensions@) == extensions_of(values_view(values@), filter),
{
    let mut extensions: Vec<String> = Vec::new();
    let mut i: usize = 0;
    while i < values.len()
        invariant
            i <= values@.len(),
            strings_view(extensions@) == extensions_of(values_view(values@).take(i as int), filter),
        decreases values@.len() - i,
    {
        let value = &values[i];
        proof {
            let vs = values_view(values@);
            assert(vs.take(i + 1).drop_last() =~= vs.take(i as int));
            assert(vs.take(i + 1).last() == value@);
        }
        let name = to_chars(value.name.as_str());
        let take = name.len() > 1 && name[0] == '.' && match filter {
            ProgIdFilter::Any => true,
            ProgIdFilter::Umpv => is_umpv_prog_id(&value.prog_id),
        };
        if take {
            extensions.push(value.name.clone());
        }
        assert(strings_view(extensions@) =~= extensions_of(values_view(values@).take(i + 1), filter));
        i = i + 1;
    }
    assert(values_view(values@).take(values@.len() as int) =~= values_view(values@));
    extensions
}

/// Every extension that `read_extensions` finds names an extension and is
/// one of the values' names.
pub proof fn lemma_extensions_are_extension_names(values: Seq<RegistryValueView>, filter: ProgIdFilter)
    ensures
        forall|i: int|
            0 <= i < extensions_of(values, filter).len() ==> is_extension_name(
                #[trigger] extensions_of(values, filter)[i],
            ),
        extensions_of(values, filter).len() <= values.len(),
    decreases values.len(),
{
    if values.len() > 0 {
        lemma_extensions_are_extension_names(values.drop_last(), filter);
    }
}

/// What unregistering found to undo.
#[derive(Clone, Copy, Debug, PartialEq, Eq, Structural)]
pub enum Unregistered {
    /// Nothing pointed at the launcher and its ProgID was gone.
    Nothing,
    /// Only the ProgID was left; no extension pointed at the launcher.
    ProgIdOnly,
    /// This many extensions were pointed back at mpv.
    ExtensionsRestored(usize),
}

/// What unregistering found to undo, from the number of extensions pointed
/// back at mpv and whether the ProgID was there to remove.
pub open spec fn unregistered_of(count: int, removed_prog_id: bool) -> Unregistered {
    if count == 0 && !removed_prog_id {
        Unregistered::Nothing
    } else if count == 0 {
        Unregistered::ProgIdOnly
    } else {
        Unregistered::ExtensionsRestored(count as usize)
    }
}

/// Where a registry flow stands.
#[derive(Clone, Copy, Debug, PartialEq, Eq, Structural)]
pub enum FlowStage {
    /// Waiting for the file-associations key to be opened.
    Opening,
    /// Waiting for the key's values.
    Reading,
    /// Waiting for the launcher's ProgID to be written.
    WritingProgId,
    /// Waiting for one extension's association to be written.
    Associating,
    /// Waiting for the launcher's ProgID to be removed.
    Removing,
    /// Finished.
    Done,
}

/// A registry operation for the caller to perform, or the end of the flow.
#[derive(Debug)]
pub enum RegistryAction<T> {
    /// Open `subkey` of the current user's key for reading and writing.
    OpenAssociations { subkey: String },
    /// Read all values of the opened key.
    ReadValues,
    /// Create `subkey` of the current user's key, set its default value to
    /// the empty string, create `command_subkey` below it and set that
    /// key's default value to `command`.
    WriteProgId { subkey: String, command_subkey: String, command: String },
    /// Set the value `extension` of the opened key to `prog_id`.
    SetAssociation { extension: String, prog_id: String },
    /// Remove `subkey` of the current user's key with everything below it.
    RemoveProgId { subkey: String },
    /// The flow is over: tell the shell that associations changed when
    /// `notify_shell` says so, and report `result`.
    Finish { notify_shell: bool, result: Result<T, RegistryError> },
}

/// A registry operation with its texts as characters.
pub enum RegistryActionView<T> {
    OpenAssociations { subkey: Seq<char> },
    ReadValues,
    WriteProgId { subkey: Seq<char>, command_subkey: Seq<char>, command: Seq<char> },
    SetAssociation { extension: Seq<char>, prog_id: Seq<char> },
    RemoveProgId { subkey: Seq<char> },
    Finish { notify_shell: bool, result: Result<T, RegistryError> },
}

impl<T> View for RegistryAction<T> {
    type V = RegistryActionView<T>;

    open spec fn view(&self) -> RegistryActionView<T> {
        match self {
            RegistryAction::OpenAssociations { subkey } => RegistryActionView::OpenAssociations { subkey: subkey@ },
            RegistryAction::ReadValues => RegistryActionView::ReadValues,
            RegistryAction::WriteProgId { subkey, command_subkey, command } => RegistryActionView::WriteProgId {
                subkey: subkey@,
                command_subkey: command_subkey@,
                command: command@,
            },
            RegistryAction::SetAssociation { extension, prog_id } => RegistryActionView::SetAssociation {
                extension: extension@,
                prog_id: prog_id@,
            },
            RegistryAction::RemoveProgId { subkey } => RegistryActionView::RemoveProgId { subkey: subkey@ },
            RegistryAction::Finish { notify_shell, result } => RegistryActionView::Finish {
                notify_shell: *notify_shell,
                result: *result,
            },
        }
    }
}

/// What a registry operation returned.
#[derive(Debug)]
pub enum RegistryEvent {
    /// Opening the file-associations key: `Err` holds the error's code.
    Opened(Result<(), i32>),
    /// Reading the key's values: `None` when they could not be read.
    ValuesRead(Option<Vec<RegistryValue>>),
    /// Writing the ProgID: whether every write succeeded.
    ProgIdWritten(bool),
    /// Writing one association: whether it succeeded.
    AssociationSet(bool),
    /// Removing the ProgID: `Err` holds the error's code.
    ProgIdRemoved(Result<(), i32>),
}

/// What a registry operation returned, with its texts as characters.
pub enum RegistryEventView {
    Opened(Result<(), i32>),
    ValuesRead(Option<Seq<RegistryValueView>>),
    ProgIdWritten(bool),
    AssociationSet(bool),
    ProgIdRemoved(Result<(), i32>),
}

impl View for RegistryEvent {
    type V = RegistryEventView;

    open spec fn view(&self) -> RegistryEventView {
        match self {
            RegistryEvent::Opened(r) => RegistryEventView::Opened(*r),
            RegistryEvent::ValuesRead(values) => RegistryEventView::ValuesRead(
                match values {
                    Some(v) => Some(values_view(v@)),
                    None => None,
                },
            ),
            RegistryEvent::ProgIdWritten(ok) => RegistryEventView::ProgIdWritten(*ok),
            RegistryEvent::AssociationSet(ok) => RegistryEventView::AssociationSet(*ok),
            RegistryEvent::ProgIdRemoved(r) => RegistryEventView::ProgIdRemoved(*r),
        }
    }
}

/// What holds of every event that a caller can build: a list of values is
/// no longer than a vector can be.
pub open spec fn event_wf(event: RegistryEventView) -> bool {
    event matches RegistryEventView::ValuesRead(Some(values)) ==> values.len() <= usize::MAX
}

/// The state of a registry flow.
pub struct FlowState<T> {
    pub stage: FlowStage,
    /// The shell command written into the ProgID (registering only).
    pub command: Seq<char>,
    /// The extensions that the flow writes associations for.
    pub extensions: Seq<Seq<char>>,
    /// The index of the extension whose association is written next.
    pub next: int,
    /// How many associations were written so far.
    pub count: int,
    /// Whether the shell is told of the change at the end.
    pub notify_shell: bool,
    /// The outcome, once the flow is done.
    pub result: Result<T, RegistryError>,
}

/// The flow ends with `result`.
pub open spec fn finished<T>(s: FlowState<T>, notify_shell: bool, result: Result<T, RegistryError>) -> FlowState<T> {
    FlowState { stage: FlowStage::Done, notify_shell, result, ..s }
}

/// The operation that a flow in state `s` waits for, or its end.
pub open spec fn pending_action<T>(s: FlowState<T>, prog_id: Seq<char>) -> RegistryActionView<T> {
    match s.stage {
        FlowStage::Opening => RegistryActionView::OpenAssociations { subkey: SUBKEY_FILE_ASSOCIATIONS@ },
        FlowStage::Reading => RegistryActionView::ReadValues,
        FlowStage::WritingProgId => RegistryActionView::WriteProgId {
            subkey: umpv_prog_id_subkey_text(),
            command_subkey: SHELL_OPEN_COMMAND_SUBKEY@,
            command: s.command,
        },
        FlowStage::Associating => RegistryActionView::SetAssociation { extension: s.extensions[s.next], prog_id },
        FlowStage::Removing => RegistryActionView::RemoveProgId { subkey: umpv_prog_id_subkey_text() },
        FlowStage::Done => RegistryActionView::Finish { notify_shell: s.notify_shell, result: s.result },
    }
}

/// The registering flow after `event`. An event that does not answer the
/// pending operation changes nothing.
pub open spec fn register_next(s: FlowState<usize>, event: RegistryEventView) -> FlowState<usize> {
    match (s.stage, event) {
        (FlowStage::Opening, RegistryEventView::Opened(Ok(()))) => FlowState { stage: FlowStage::Reading, ..s },
        (FlowStage::Opening, RegistryEventView::Opened(Err(code))) => finished(
            s,
            false,
            Err(
                if code == hresult_file_not_found() {
                    RegistryError::NoAssociations
                } else {
                    RegistryError::AssociationsUnreadable
                },
            ),
        ),
        (FlowStage::Reading, RegistryEventView::ValuesRead(None)) => finished(
            s,
            false,
            Err(RegistryError::AssociationsUnreadable),
        ),
        (FlowStage::Reading, RegistryEventView::ValuesRead(Some(values))) => {
            let extensions = extensions_of(values, ProgIdFilter::Any);
            if extensions.len() == 0 {
                finished(s, false, Err(RegistryError::NoAssociations))
            } else {
                FlowState { stage: FlowStage::WritingProgId, extensions, next: 0, count: 0, ..s }
            }
        },
        (FlowStage::WritingProgId, RegistryEventView::ProgIdWritten(written)) => {
            if written {
                FlowState { stage: FlowStage::Associating, next: 0, count: 0, ..s }
            } else {
                finished(s, false, Err(RegistryError::ProgIdWriteFailed))
            }
        },
        (FlowStage::Associating, RegistryEventView::AssociationSet(set)) => {
            let count = s.count + if set { 1int } else { 0int };
            let next = s.next + 1;
            if next < s.extensions.len() {
                FlowState { next, count, ..s }
            } else if count == 0 {
                finished(FlowState { next, count, ..s }, false, Err(RegistryError::NoExtensionsRegistered))
            } else {
                finished(FlowState { next, count, ..s }, true, Ok(count as usize))
            }
        },
        _ => s,
    }
}

/// The unregistering flow after `event`. An event that does not answer the
/// pending operation changes nothing.
pub open spec fn unregister_next(s: FlowState<Unregistered>, event: RegistryEventView) -> FlowState<Unregistered> {
    match (s.stage, event) {
        (FlowStage::Opening, RegistryEventView::Opened(Ok(()))) => FlowState { stage: FlowStage::Reading, ..s },
        (FlowStage::Opening, RegistryEventView::Opened(Err(code))) => {
            if code == hresult_file_not_found() {
                FlowState { stage: FlowStage::Removing, count: 0, ..s }
            } else {
                finished(s, false, Err(RegistryError::AssociationsUnreadable))
            }
        },
        (FlowStage::Reading, RegistryEventView::ValuesRead(None)) => finished(
            s,
            false,
            Err(RegistryError::AssociationsUnreadable),
        ),
        (FlowStage::Reading, RegistryEventView::ValuesRead(Some(values))) => {
            let extensions = extensions_of(values, ProgIdFilter::Umpv);
            if extensions.len() == 0 {
                FlowState { stage: FlowStage::Removing, extensions, next: 0, count: 0, ..s }
            } else {
                FlowState { stage: FlowStage::Associating, extensions, next: 0, count: 0, ..s }
            }
        },
        (FlowStage::Associating, RegistryEventView::AssociationSet(set)) => {
            let count = s.count + if set { 1int } else { 0int };
            let next = s.next + 1;
            if next < s.extensions.len() {
                FlowState { next, count, ..s }
            } else {
                FlowState { stage: FlowStage::Removing, next, count, ..s }
            }
        },
        (FlowStage::Removing, RegistryEventView::ProgIdRemoved(removed)) => {
            match removed {
                Ok(()) => finished(s, true, Ok(unregistered_of(s.count, true))),
                Err(code) => if code == hresult_file_not_found() {
                    let unregistered = unregistered_of(s.count, false);
                    finished(s, unregistered != Unregistered::Nothing, Ok(unregistered))
                } else {
                    finished(s, false, Err(RegistryError::ProgIdRemoveFailed))
                },
            }
        },
        _ => s,
    }
}

/// What holds of the registering flow in every state it reaches: the
/// extensions it writes are extension names; it tells the shell of the
/// change exactly when it succeeds; and it succeeds only with at least one
/// association written, never more than there are extensions.
pub open spec fn register_inv(s: FlowState<usize>) -> bool {
    &&& flow_wf(s)
    &&& forall|i: int| 0 <= i < s.extensions.len() ==> is_extension_name(#[trigger] s.extensions[i])
    &&& s.stage != FlowStage::Removing
    &&& s.stage == FlowStage::Done ==> (s.notify_shell <==> s.result is Ok)
    &&& (s.stage == FlowStage::Done && s.result is Ok) ==> 1 <= s.result->Ok_0 <= s.extensions.len()
}

/// The registering flow before anything happened.
pub open spec fn register_start(command: Seq<char>) -> FlowState<usize> {
    FlowState {
        stage: FlowStage::Opening,
        command,
        extensions: Seq::empty(),
        next: 0,
        count: 0,
        notify_shell: false,
        result: Err(RegistryError::NoAssociations),
    }
}

/// The registering flow keeps `register_inv`: it holds at the start, and
/// every event keeps it.
pub proof fn lemma_register_keeps_inv(s: FlowState<usize>, event: RegistryEventView)
    requires
        register_inv(s),
        event_wf(event),
    ensures
        register_inv(register_start(s.command)),
        register_inv(register_next(s, event)),
{
    if let RegistryEventView::ValuesRead(Some(values)) = event {
        lemma_extensions_are_extension_names(values, ProgIdFilter::Any);
    }
}

/// Registering goes on to write the ProgID as soon as one value names an
/// extension, whatever ProgIDs the values point at (registering again, to
/// change the loadfile mode, finds them pointing at the launcher), and takes
/// every such extension; it stops with `NoAssociations` only when no value
/// names an extension.
pub proof fn lemma_register_takes_every_extension(s: FlowState<usize>, values: Seq<RegistryValueView>)
    requires
        register_inv(s),
        s.stage == FlowStage::Reading,
    ensures
        (forall|j: int| 0 <= j < values.len() ==> !is_extension_name(#[trigger] values[j].name)) ==> {
            let t = register_next(s, RegistryEventView::ValuesRead(Some(values)));
            &&& t.stage == FlowStage::Done
            &&& t.result == Err::<usize, RegistryError>(RegistryError::NoAssociations)
        },
        (exists|j: int| 0 <= j < values.len() && is_extension_name(#[trigger] values[j].name)) ==> {
            let t = register_next(s, RegistryEventView::ValuesRead(Some(values)));
            &&& t.stage == FlowStage::WritingProgId
            &&& t.extensions == values.filter(is_wanted(ProgIdFilter::Any)).map_values(|v: RegistryValueView| v.name)
            &&& forall|j: int| 0 <= j < values.len() && is_extension_name(#[trigger] values[j].name)
                ==> t.extensions.contains(values[j].name)
            &&& pending_action(t, UMPV_PROG_ID@) == (RegistryActionView::<usize>::WriteProgId {
                subkey: umpv_prog_id_subkey_text(),
                command_subkey: SHELL_OPEN_COMMAND_SUBKEY@,
                command: s.command,
            })
        },
{
    lemma_extensions_are_wanted_names(values, ProgIdFilter::Any);
    if forall|j: int| 0 <= j < values.len() ==> !is_extension_name(#[trigger] values[j].name) {
        lemma_no_extension_names_none_found(values, ProgIdFilter::Any);
    } else {
        let j = choose|j: int| 0 <= j < values.len() && is_extension_name(#[trigger] values[j].name);
        lemma_extensions_complete(values, ProgIdFilter::Any, j);
        assert forall|k: int| 0 <= k < values.len() && is_extension_name(#[trigger] values[k].name)
            implies extensions_of(values, ProgIdFilter::Any).contains(values[k].name) by {
            lemma_extensions_complete(values, ProgIdFilter::Any, k);
        }
    }
}

/// The registering flow writes associations only once the ProgID they point
/// at is written, and only to the launcher's ProgID.
pub proof fn lemma_register_associates_after_prog_id(s: FlowState<usize>, event: RegistryEventView)
    requires
        register_inv(s),
        event_wf(event),
    ensures
        register_next(s, event).stage == FlowStage::Associating ==> s.stage == FlowStage::Associating || (
        s.stage == FlowStage::WritingProgId && event == RegistryEventView::ProgIdWritten(true)),
        pending_action(register_next(s, event), UMPV_PROG_ID@) matches RegistryActionView::SetAssociation {
            extension,
            prog_id,
        } ==> prog_id == UMPV_PROG_ID@ && is_extension_name(extension),
{
    lemma_register_keeps_inv(s, event);
}

/// The flow that points every extension that mpv registered at the
/// launcher, whose ProgID holds the given shell command.
pub struct RegisterFlow {
    stage: FlowStage,
    command: String,
    extensions: Vec<String>,
    next: usize,
    count: usize,
    notify_shell: bool,
    result: Result<usize, RegistryError>,
}

/// The flow that points the extensions that point at the launcher back at
/// mpv, and removes the launcher's ProgID.
pub struct UnregisterFlow {
    stage: FlowStage,
    extensions: Vec<String>,
    next: usize,
    count: usize,
    notify_shell: bool,
    result: Result<Unregistered, RegistryError>,
}

impl View for RegisterFlow {
    type V = FlowState<usize>;

    closed spec fn view(&self) -> FlowState<usize> {
        FlowState {
            stage: self.stage,
            command: self.command@,
            extensions: strings_view(self.extensions@),
            next: self.next as int,
            count: self.count as int,
            notify_shell: self.notify_shell,
            result: self.result,
        }
    }
}

impl View for UnregisterFlow {
    type V = FlowState<Unregistered>;

    closed spec fn view(&self) -> FlowState<Unregistered> {
        FlowState {
            stage: self.stage,
            command: Seq::empty(),
            extensions: strings_view(self.extensions@),
            next: self.next as int,
            count: self.count as int,
            notify_shell: self.notify_shell,
            result: self.result,
        }
    }
}

/// What holds of a flow's state in every stage: while associations are
/// written, the next one is in range and the count of those written is at
/// most the number tried.
pub open spec fn flow_wf<T>(s: FlowState<T>) -> bool {
    &&& 0 <= s.count <= s.next
    &&& s.next <= s.extensions.len()
    &&& s.stage == FlowStage::Associating ==> s.next < s.extensions.len()
    &&& s.stage == FlowStage::WritingProgId ==> s.next == 0 && s.extensions.len() > 0
    &&& s.extensions.len() <= usize::MAX
}

/// Registering starts: the flow and the first operation it asks for.
pub fn register(shell_open_command: String) -> (started: (RegisterFlow, RegistryAction<usize>))
    ensures
        started.0.wf(),
        started.0@ == register_start(shell_open_command@),
        started.1@ == pending_action(started.0@, UMPV_PROG_ID@),
{
    let flow = RegisterFlow {
        stage: FlowStage::Opening,
        command: shell_open_command,
        extensions: Vec::new(),
        next: 0,
        count: 0,
        notify_shell: false,
        result: Err(RegistryError::NoAssociations),
    };
    assert(strings_view(flow.extensions@) =~= Seq::<Seq<char>>::empty());
    let action = flow.pending();
    (flow, action)
}

impl RegisterFlow {
    /// The flow's state is well formed.
    pub open spec fn wf(&self) -> bool {
        flow_wf(self@)
    }

    /// The operation that the flow waits for, or its end.
    pub fn pending(&self) -> (action: RegistryAction<usize>)
        requires
            self.wf(),
        ensures
            action@ == pending_action(self@, UMPV_PROG_ID@),
    {
        match self.stage {
            FlowStage::Opening => RegistryAction::OpenAssociations { subkey: String::from_str(SUBKEY_FILE_ASSOCIATIONS) },
            FlowStage::Reading => RegistryAction::ReadValues,
            FlowStage::WritingProgId => RegistryAction::WriteProgId {
                subkey: umpv_prog_id_subkey(),
                command_subkey: String::from_str(SHELL_OPEN_COMMAND_SUBKEY),
                command: self.command.clone(),
            },
            FlowStage::Associating => RegistryAction::SetAssociation {
                extension: self.extensions[self.next].clone(),
                prog_id: String::from_str(UMPV_PROG_ID),
            },
            FlowStage::Removing => RegistryAction::RemoveProgId { subkey: umpv_prog_id_subkey() },
            FlowStage::Done => RegistryAction::Finish { notify_shell: self.notify_shell, result: self.result },
        }
    }

    /// Takes what the pending operation returned; gives the next operation.
    pub fn next(&mut self, event: RegistryEvent) -> (action: RegistryAction<usize>)
        requires
            old(self).wf(),
        ensures
            final(self).wf(),
            final(self)@ == register_next(old(self)@, event@),
            action@ == pending_action(final(self)@, UMPV_PROG_ID@),
    {
        match (self.stage, event) {
            (FlowStage::Opening, RegistryEvent::Opened(Ok(()))) => {
                self.stage = FlowStage::Reading;
            },
            (FlowStage::Opening, RegistryEvent::Opened(Err(code))) => {
                let error = if is_not_found(code) {
                    RegistryError::NoAssociations
                } else {
                    RegistryError::AssociationsUnreadable
                };
                self.stage = FlowStage::Done;
                self.notify_shell = false;
                self.result = Err(error);
            },
            (FlowStage::Reading, RegistryEvent::ValuesRead(None)) => {
                self.stage = FlowStage::Done;
                self.notify_shell = false;
                self.result = Err(RegistryError::AssociationsUnreadable);
            },
            (FlowStage::Reading, RegistryEvent::ValuesRead(Some(values))) => {
                let extensions = read_extensions(&values, ProgIdFilter::Any);
                if extensions.len() == 0 {
                    self.stage = FlowStage::Done;
                    self.notify_shell = false;
                    self.result = Err(RegistryError::NoAssociations);
                } else {
                    self.stage = FlowStage::WritingProgId;
                    self.extensions = extensions;
                    self.next = 0;
                    self.count = 0;
                }
            },
            (FlowStage::WritingProgId, RegistryEvent::ProgIdWritten(written)) => {
                if written {
                    self.stage = FlowStage::Associating;
                    self.next = 0;
                    self.count = 0;
                } else {
                    self.stage = FlowStage::Done;
                    self.notify_shell = false;
                    self.result = Err(RegistryError::ProgIdWriteFailed);
                }
            },
            (FlowStage::Associating, RegistryEvent::AssociationSet(set)) => {
                assert(strings_view(self.extensions@).len() == self.extensions@.len());
                assert(self.next < self.extensions.len());
                if set {
                    self.count = self.count + 1;
                }
                self.next = self.next + 1;
                if self.next < self.extensions.len() {
                } else if self.count == 0 {
                    self.stage = FlowStage::Done;
                    self.notify_shell = false;
                    self.result = Err(RegistryError::NoExtensionsRegistered);
                } else {
                    self.stage = FlowStage::Done;
                    self.notify_shell = true;
                    self.result = Ok(self.count);
                }
            },
            _ => {},
        }
        self.pending()
    }
}

/// What holds of the unregistering flow in every state it reaches: the
/// extensions it writes are extension names; it tells the shell of the
/// change exactly when it found something to undo; and the number of
/// extensions it reports is at least one and at most the number it tried.
pub open spec fn unregister_inv(s: FlowState<Unregistered>) -> bool {
    &&& flow_wf(s)
    &&& forall|i: int| 0 <= i < s.extensions.len() ==> is_extension_name(#[trigger] s.extensions[i])
    &&& s.stage != FlowStage::WritingProgId
    &&& s.stage == FlowStage::Done ==> (s.notify_shell <==> (s.result is Ok && s.result->Ok_0 != Unregistered::Nothing))
    &&& s.stage == FlowStage::Done ==> (s.result matches Ok(Unregistered::ExtensionsRestored(n)) ==> 1 <= n <= s.extensions.len())
}

/// The unregistering flow before anything happened.
pub open spec fn unregister_start() -> FlowState<Unregistered> {
    FlowState {
        stage: FlowStage::Opening,
        command: Seq::empty(),
        extensions: Seq::empty(),
        next: 0,
        count: 0,
        notify_shell: false,
        result: Err(RegistryError::AssociationsUnreadable),
    }
}

/// The unregistering flow keeps `unregister_inv`: it holds at the start, and
/// every event keeps it.
pub proof fn lemma_unregister_keeps_inv(s: FlowState<Unregistered>, event: RegistryEventView)
    requires
        unregister_inv(s),
        event_wf(event),
    ensures
        unregister_inv(unregister_start()),
        unregister_inv(unregister_next(s, event)),
{
    if let RegistryEventView::ValuesRead(Some(values)) = event {
        lemma_extensions_are_extension_names(values, ProgIdFilter::Umpv);
    }
}

/// Unregistering points back at mpv only the extensions that pointed at the
/// launcher when the values were read, and it points them at mpv's ProgID.
pub proof fn lemma_unregister_restores_only_umpv_extensions(
    s: FlowState<Unregistered>,
    values: Seq<RegistryValueView>,
)
    requires
        unregister_inv(s),
        s.stage == FlowStage::Reading,
    ensures
        ({
            let t = unregister_next(s, RegistryEventView::ValuesRead(Some(values)));
            forall|i: int| 0 <= i < t.extensions.len() ==> exists|j: int|
                0 <= j < values.len() && values[j].name == #[trigger] t.extensions[i] && values[j].prog_id == Some(
                    UMPV_PROG_ID@,
                )
        }),
        pending_action(unregister_next(s, RegistryEventView::ValuesRead(Some(values))), MPV_PROG_ID@) matches RegistryActionView::SetAssociation {
            extension,
            prog_id,
        } ==> prog_id == MPV_PROG_ID@,
{
    lemma_extensions_come_from_values(values, ProgIdFilter::Umpv);
}

/// Unregistering starts: the flow and the first operation it asks for.
pub fn unregister() -> (started: (UnregisterFlow, RegistryAction<Unregistered>))
    ensures
        started.0.wf(),
        started.0@ == unregister_start(),
        started.1@ == pending_action(started.0@, MPV_PROG_ID@),
{
    let flow = UnregisterFlow {
        stage: FlowStage::Opening,
        extensions: Vec::new(),
        next: 0,
        count: 0,
        notify_shell: false,
        result: Err(RegistryError::AssociationsUnreadable),
    };
    assert(strings_view(flow.extensions@) =~= Seq::<Seq<char>>::empty());
    let action = flow.pending();
    (flow, action)
}

impl UnregisterFlow {
    /// The flow's state is well formed.
    pub open spec fn wf(&self) -> bool {
        flow_wf(self@)
    }

    /// The operation that the flow waits for, or its end.
    pub fn pending(&self) -> (action: RegistryAction<Unregistered>)
        requires
            self.wf(),
        ensures
            action@ == pending_action(self@, MPV_PROG_ID@),
    {
        match self.stage {
            FlowStage::Opening => RegistryAction::OpenAssociations { subkey: String::from_str(SUBKEY_FILE_ASSOCIATIONS) },
            FlowStage::Reading => RegistryAction::ReadValues,
            FlowStage::WritingProgId => RegistryAction::WriteProgId {
                subkey: umpv_prog_id_subkey(),
                command_subkey: String::from_str(SHELL_OPEN_COMMAND_SUBKEY),
                command: String::new(),
            },
            FlowStage::Associating => RegistryAction::SetAssociation {
                extension: self.extensions[self.next].clone(),
                prog_id: String::from_str(MPV_PROG_ID),
            },
            FlowStage::Removing => RegistryAction::RemoveProgId { subkey: umpv_prog_id_subkey() },
            FlowStage::Done => RegistryAction::Finish { notify_shell: self.notify_shell, result: self.result },
        }
    }

    /// Takes what the pending operation returned; gives the next operation.
    pub fn next(&mut self, event: RegistryEvent) -> (action: RegistryAction<Unregistered>)
        requires
            old(self).wf(),
        ensures
            final(self).wf(),
            final(self)@ == unregister_next(old(self)@, event@),
            action@ == pending_action(final(self)@, MPV_PROG_ID@),
    {
        match (self.stage, event) {
            (FlowStage::Opening, RegistryEvent::Opened(Ok(()))) => {
                self.stage = FlowStage::Reading;
            },
            (FlowStage::Opening, RegistryEvent::Opened(Err(code))) => {
                if is_not_found(code) {
                    self.stage = FlowStage::Removing;
                    self.count = 0;
                } else {
                    self.stage = FlowStage::Done;
                    self.notify_shell = false;
                    self.result = Err(RegistryError::AssociationsUnreadable);
                }
            },
            (FlowStage::Reading, RegistryEvent::ValuesRead(None)) => {
                self.stage = FlowStage::Done;
                self.notify_shell = false;
                self.result = Err(RegistryError::AssociationsUnreadable);
            },
            (FlowStage::Reading, RegistryEvent::ValuesRead(Some(values))) => {
                let extensions = read_extensions(&values, ProgIdFilter::Umpv);
                self.next = 0;
                self.count = 0;
                if extensions.len() == 0 {
                    self.stage = FlowStage::Removing;
                } else {
                    self.stage = FlowStage::Associating;
                }
                self.extensions = extensions;
            },
            (FlowStage::Associating, RegistryEvent::AssociationSet(set)) => {
                assert(strings_view(self.extensions@).len() == self.extensions@.len());
                assert(self.next < self.extensions.len());
                if set {
                    self.count = self.count + 1;
                }
                self.next = self.next + 1;
                if self.next >= self.extensions.len() {
                    self.stage = FlowStage::Removing;
                }
            },
            (FlowStage::Removing, RegistryEvent::ProgIdRemoved(removed)) => {
                match removed {
                    Ok(()) => {
                        let unregistered = if self.count == 0 {
                            Unregistered::ProgIdOnly
                        } else {
                            Unregistered::ExtensionsRestored(self.count)
                        };
                        self.stage = FlowStage::Done;
                        self.notify_shell = true;
                        self.result = Ok(unregistered);
                    },
                    Err(code) => {
                        if is_not_found(code) {
                            let unregistered = if self.count == 0 {
                                Unregistered::Nothing
                            } else {
                                Unregistered::ExtensionsRestored(self.count)
                            };
                            self.stage = FlowStage::Done;
                            self.notify_shell = self.count != 0;
                            self.result = Ok(unregistered);
                        } else {
                            self.stage = FlowStage::Done;
                            self.notify_shell = false;
                            self.result = Err(RegistryError::ProgIdRemoveFailed);
                        }
                    },
                }
            },
            _ => {},
        }
        self.pending()
    }
}

} // verus!
