use libretto::classify::{classify, relay_decision};
use libretto::event::{AccessKind, AccessMode, CreateKind, DataChange, EventKind, FsEvent,
    MetadataKind, ModifyKind, RemoveKind, RenameMode, VmmAction};

#[test]
fn close_write_and_close_execute_copy() {
    assert_eq!(
        classify(EventKind::Access(AccessKind::Close(AccessMode::Write))),
        Some(VmmAction::Copy)
    );
    assert_eq!(
        classify(EventKind::Access(AccessKind::Close(AccessMode::Execute))),
        Some(VmmAction::Copy)
    );
}

#[test]
fn other_access_kinds_emit_no_action() {
    assert_eq!(classify(EventKind::Any), None);
    assert_eq!(classify(EventKind::Access(AccessKind::Any)), None);
    assert_eq!(classify(EventKind::Access(AccessKind::Read)), None);
    assert_eq!(classify(EventKind::Access(AccessKind::Other)), None);
    for mode in [
        AccessMode::Any,
        AccessMode::Read,
        AccessMode::Execute,
        AccessMode::Write,
        AccessMode::Other,
    ] {
        assert_eq!(classify(EventKind::Access(AccessKind::Open(mode))), None);
    }
    for mode in [AccessMode::Any, AccessMode::Read, AccessMode::Other] {
        assert_eq!(classify(EventKind::Access(AccessKind::Close(mode))), None);
    }
}

#[test]
fn create_any_subkind_copies() {
    for kind in [CreateKind::Any, CreateKind::File, CreateKind::Folder, CreateKind::Other] {
        assert_eq!(classify(EventKind::Create(kind)), Some(VmmAction::Copy));
    }
}

#[test]
fn modify_data_and_name_copy() {
    assert_eq!(classify(EventKind::Modify(ModifyKind::Any)), Some(VmmAction::Copy));
    assert_eq!(classify(EventKind::Modify(ModifyKind::Other)), Some(VmmAction::Copy));
    for change in [DataChange::Any, DataChange::Size, DataChange::Content, DataChange::Other] {
        assert_eq!(
            classify(EventKind::Modify(ModifyKind::Data(change))),
            Some(VmmAction::Copy)
        );
    }
    for rename in [
        RenameMode::Any,
        RenameMode::To,
        RenameMode::From,
        RenameMode::Both,
        RenameMode::Other,
    ] {
        assert_eq!(
            classify(EventKind::Modify(ModifyKind::Name(rename))),
            Some(VmmAction::Copy)
        );
    }
}

#[test]
fn metadata_splits_between_copy_and_rollup() {
    for meta in [MetadataKind::Ownership, MetadataKind::Permissions] {
        assert_eq!(
            classify(EventKind::Modify(ModifyKind::Metadata(meta))),
            Some(VmmAction::Copy)
        );
    }
    for meta in [
        MetadataKind::Any,
        MetadataKind::Other,
        MetadataKind::Extended,
        MetadataKind::WriteTime,
        MetadataKind::AccessTime,
    ] {
        assert_eq!(
            classify(EventKind::Modify(ModifyKind::Metadata(meta))),
            Some(VmmAction::Rollup)
        );
    }
}

#[test]
fn remove_copies_and_unclassified_snapshots() {
    for kind in [RemoveKind::Any, RemoveKind::File, RemoveKind::Folder, RemoveKind::Other] {
        assert_eq!(classify(EventKind::Remove(kind)), Some(VmmAction::Copy));
    }
    assert_eq!(classify(EventKind::Other), Some(VmmAction::Snapshot));
}

#[test]
fn classify_is_deterministic() {
    let kind = EventKind::Modify(ModifyKind::Metadata(MetadataKind::AccessTime));
    assert_eq!(classify(kind), classify(kind));
}

#[test]
fn relay_decision_builds_classified_event() {
    let event = FsEvent::new(
        EventKind::Access(AccessKind::Close(AccessMode::Write)),
        vec!["/root/containers/vm1/disk.img".to_string()],
    );
    let out = relay_decision(event.clone()).expect("close-write must classify");
    assert_eq!(out.event, event);
    assert_eq!(out.action, VmmAction::Copy);
    assert_eq!(out.instance_name, Some("vm1".to_string()));
}

#[test]
fn relay_decision_none_for_observed_only_kind() {
    let event = FsEvent::new(
        EventKind::Access(AccessKind::Read),
        vec!["/root/containers/vm1/disk.img".to_string()],
    );
    assert_eq!(relay_decision(event), None);
}

#[test]
fn relay_decision_none_without_paths() {
    let event = FsEvent::new(EventKind::Create(CreateKind::File), Vec::new());
    assert_eq!(relay_decision(event), None);
}

#[test]
fn relay_decision_without_instance_root() {
    let event = FsEvent::new(
        EventKind::Create(CreateKind::File),
        vec!["/root/shared/readme.txt".to_string()],
    );
    let out = relay_decision(event).expect("create must classify");
    assert_eq!(out.action, VmmAction::Copy);
    assert_eq!(out.instance_name, None);
}
