use umpv::registry::{
    is_not_found, is_umpv_prog_id, read_extensions, register, umpv_prog_id_subkey, unregister, ProgIdFilter,
    RegistryAction, RegistryError, RegistryEvent, RegistryValue, Unregistered,
};

const NOT_FOUND: i32 = 0x8007_0002u32 as i32;
const ACCESS_DENIED: i32 = 0x8007_0005u32 as i32;

fn value(name: &str, prog_id: Option<&str>) -> RegistryValue {
    RegistryValue { name: name.to_string(), prog_id: prog_id.map(|p| p.to_string()) }
}

fn names(v: &[String]) -> Vec<&str> {
    v.iter().map(|s| s.as_str()).collect()
}

#[test]
fn not_found_code() {
    assert!(is_not_found(NOT_FOUND));
    assert!(is_not_found(-2147024894));
    assert!(!is_not_found(2));
    assert!(!is_not_found(ACCESS_DENIED));
}

#[test]
fn prog_id_subkey() {
    assert_eq!(umpv_prog_id_subkey(), r"Software\Classes\io.mpv.umpv");
}

#[test]
fn umpv_prog_id_check() {
    assert!(is_umpv_prog_id(&Some("io.mpv.umpv".to_string())));
    assert!(!is_umpv_prog_id(&Some("io.mpv.file".to_string())));
    assert!(!is_umpv_prog_id(&None));
}

#[test]
fn extensions_are_filtered() {
    let values = vec![
        value(".mkv", Some("io.mpv.file")),
        value(".", Some("io.mpv.umpv")),
        value("mp4", Some("io.mpv.umpv")),
        value(".mp4", Some("io.mpv.umpv")),
        value(".avi", None),
        value("", None),
        value(".é", Some("io.mpv.umpv")),
    ];
    assert_eq!(names(&read_extensions(&values, ProgIdFilter::Any)), vec![".mkv", ".mp4", ".avi", ".é"]);
    assert_eq!(names(&read_extensions(&values, ProgIdFilter::Umpv)), vec![".mp4", ".é"]);
}

#[test]
fn register_flow_success() {
    let (mut flow, action) = register("\"u.exe\" --loadfile=append -- \"%L\"".to_string());
    match action {
        RegistryAction::OpenAssociations { subkey } => {
            assert_eq!(subkey, r"Software\Clients\Media\mpv\Capabilities\FileAssociations")
        },
        _ => panic!(),
    }
    assert!(matches!(flow.next(RegistryEvent::Opened(Ok(()))), RegistryAction::ReadValues));
    let values = vec![value(".mkv", Some("io.mpv.file")), value("Other", None), value(".mp4", Some("io.mpv.file"))];
    match flow.next(RegistryEvent::ValuesRead(Some(values))) {
        RegistryAction::WriteProgId { subkey, command_subkey, command } => {
            assert_eq!(subkey, r"Software\Classes\io.mpv.umpv");
            assert_eq!(command_subkey, r"shell\open\command");
            assert_eq!(command, "\"u.exe\" --loadfile=append -- \"%L\"");
        },
        _ => panic!(),
    }
    match flow.next(RegistryEvent::ProgIdWritten(true)) {
        RegistryAction::SetAssociation { extension, prog_id } => {
            assert_eq!(extension, ".mkv");
            assert_eq!(prog_id, "io.mpv.umpv");
        },
        _ => panic!(),
    }
    match flow.next(RegistryEvent::AssociationSet(false)) {
        RegistryAction::SetAssociation { extension, .. } => assert_eq!(extension, ".mp4"),
        _ => panic!(),
    }
    match flow.next(RegistryEvent::AssociationSet(true)) {
        RegistryAction::Finish { notify_shell, result } => {
            assert!(notify_shell);
            assert_eq!(result, Ok(1));
        },
        _ => panic!(),
    }
    assert!(matches!(flow.next(RegistryEvent::AssociationSet(true)), RegistryAction::Finish { result: Ok(1), .. }));
}

fn register_until_finish(events: Vec<RegistryEvent>) -> (bool, Result<usize, RegistryError>) {
    let (mut flow, _) = register("cmd".to_string());
    let mut last = None;
    for e in events {
        last = Some(flow.next(e));
    }
    match last {
        Some(RegistryAction::Finish { notify_shell, result }) => (notify_shell, result),
        _ => panic!("flow did not finish"),
    }
}

#[test]
fn register_flow_errors() {
    assert_eq!(register_until_finish(vec![RegistryEvent::Opened(Err(NOT_FOUND))]), (false, Err(RegistryError::NoAssociations)));
    assert_eq!(
        register_until_finish(vec![RegistryEvent::Opened(Err(ACCESS_DENIED))]),
        (false, Err(RegistryError::AssociationsUnreadable))
    );
    assert_eq!(
        register_until_finish(vec![RegistryEvent::Opened(Ok(())), RegistryEvent::ValuesRead(None)]),
        (false, Err(RegistryError::AssociationsUnreadable))
    );
    assert_eq!(
        register_until_finish(vec![
            RegistryEvent::Opened(Ok(())),
            RegistryEvent::ValuesRead(Some(vec![value("x", None)])),
        ]),
        (false, Err(RegistryError::NoAssociations))
    );
    assert_eq!(
        register_until_finish(vec![
            RegistryEvent::Opened(Ok(())),
            RegistryEvent::ValuesRead(Some(vec![value(".mkv", None)])),
            RegistryEvent::ProgIdWritten(false),
        ]),
        (false, Err(RegistryError::ProgIdWriteFailed))
    );
    assert_eq!(
        register_until_finish(vec![
            RegistryEvent::Opened(Ok(())),
            RegistryEvent::ValuesRead(Some(vec![value(".mkv", None), value(".mp4", None)])),
            RegistryEvent::ProgIdWritten(true),
            RegistryEvent::AssociationSet(false),
            RegistryEvent::AssociationSet(false),
        ]),
        (false, Err(RegistryError::NoExtensionsRegistered))
    );
}

#[test]
fn register_ignores_events_that_do_not_answer() {
    let (mut flow, _) = register("cmd".to_string());
    assert!(matches!(flow.next(RegistryEvent::ProgIdWritten(true)), RegistryAction::OpenAssociations { .. }));
    assert!(matches!(flow.next(RegistryEvent::Opened(Ok(()))), RegistryAction::ReadValues));
}

fn unregister_until_finish(events: Vec<RegistryEvent>) -> (bool, Result<Unregistered, RegistryError>) {
    let (mut flow, _) = unregister();
    let mut last = None;
    for e in events {
        last = Some(flow.next(e));
    }
    match last {
        Some(RegistryAction::Finish { notify_shell, result }) => (notify_shell, result),
        _ => panic!("flow did not finish"),
    }
}

#[test]
fn unregister_flow_restores_extensions() {
    let (mut flow, _) = unregister();
    flow.next(RegistryEvent::Opened(Ok(())));
    let values = vec![
        value(".mkv", Some("io.mpv.umpv")),
        value(".mp4", Some("io.mpv.file")),
        value(".avi", Some("io.mpv.umpv")),
    ];
    match flow.next(RegistryEvent::ValuesRead(Some(values))) {
        RegistryAction::SetAssociation { extension, prog_id } => {
            assert_eq!(extension, ".mkv");
            assert_eq!(prog_id, "io.mpv.file");
        },
        _ => panic!(),
    }
    match flow.next(RegistryEvent::AssociationSet(true)) {
        RegistryAction::SetAssociation { extension, .. } => assert_eq!(extension, ".avi"),
        _ => panic!(),
    }
    match flow.next(RegistryEvent::AssociationSet(true)) {
        RegistryAction::RemoveProgId { subkey } => assert_eq!(subkey, r"Software\Classes\io.mpv.umpv"),
        _ => panic!(),
    }
    match flow.next(RegistryEvent::ProgIdRemoved(Ok(()))) {
        RegistryAction::Finish { notify_shell, result } => {
            assert!(notify_shell);
            assert_eq!(result, Ok(Unregistered::ExtensionsRestored(2)));
        },
        _ => panic!(),
    }
}

#[test]
fn unregister_outcomes() {
    assert_eq!(
        unregister_until_finish(vec![RegistryEvent::Opened(Err(NOT_FOUND)), RegistryEvent::ProgIdRemoved(Err(NOT_FOUND))]),
        (false, Ok(Unregistered::Nothing))
    );
    assert_eq!(
        unregister_until_finish(vec![RegistryEvent::Opened(Err(NOT_FOUND)), RegistryEvent::ProgIdRemoved(Ok(()))]),
        (true, Ok(Unregistered::ProgIdOnly))
    );
    assert_eq!(
        unregister_until_finish(vec![
            RegistryEvent::Opened(Ok(())),
            RegistryEvent::ValuesRead(Some(vec![value(".mkv", Some("io.mpv.file"))])),
            RegistryEvent::ProgIdRemoved(Ok(())),
        ]),
        (true, Ok(Unregistered::ProgIdOnly))
    );
    assert_eq!(
        unregister_until_finish(vec![
            RegistryEvent::Opened(Ok(())),
            RegistryEvent::ValuesRead(Some(vec![value(".mkv", Some("io.mpv.umpv"))])),
            RegistryEvent::AssociationSet(true),
            RegistryEvent::ProgIdRemoved(Err(NOT_FOUND)),
        ]),
        (true, Ok(Unregistered::ExtensionsRestored(1)))
    );
    assert_eq!(
        unregister_until_finish(vec![
            RegistryEvent::Opened(Ok(())),
            RegistryEvent::ValuesRead(Some(vec![value(".mkv", Some("io.mpv.umpv"))])),
            RegistryEvent::AssociationSet(false),
            RegistryEvent::ProgIdRemoved(Err(NOT_FOUND)),
        ]),
        (false, Ok(Unregistered::Nothing))
    );
}

#[test]
fn unregister_errors() {
    assert_eq!(
        unregister_until_finish(vec![RegistryEvent::Opened(Err(ACCESS_DENIED))]),
        (false, Err(RegistryError::AssociationsUnreadable))
    );
    assert_eq!(
        unregister_until_finish(vec![RegistryEvent::Opened(Ok(())), RegistryEvent::ValuesRead(None)]),
        (false, Err(RegistryError::AssociationsUnreadable))
    );
    assert_eq!(
        unregister_until_finish(vec![RegistryEvent::Opened(Err(NOT_FOUND)), RegistryEvent::ProgIdRemoved(Err(ACCESS_DENIED))]),
        (false, Err(RegistryError::ProgIdRemoveFailed))
    );
}

#[test]
fn registry_error_messages() {
    assert_eq!(
        RegistryError::NoAssociations.message(),
        "No mpv file associations found.\nRun 'mpv.exe --register' first."
    );
    assert_eq!(RegistryError::AssociationsUnreadable.message(), "Failed to read the mpv file associations.");
    assert_eq!(RegistryError::ProgIdWriteFailed.message(), "Failed to write umpv ProgID to registry.");
    assert_eq!(RegistryError::NoExtensionsRegistered.message(), "Failed to register any file associations.");
    assert_eq!(RegistryError::ProgIdRemoveFailed.message(), "Failed to remove umpv ProgID from registry.");
}
