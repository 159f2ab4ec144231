use libretto::event::{EventKind, FsEvent, ModifyKind, MetadataKind};
use libretto::filter::Denylist;
use libretto::paths::{instance_name_of, split_path, str_eq, str_starts_with, strip_root};

#[test]
fn split_path_drops_separators() {
    let segs = split_path("/root/containers/vm1/disk.img");
    assert_eq!(segs, vec!["root", "containers", "vm1", "disk.img"]);
    assert_eq!(split_path("/"), Vec::<String>::new());
    assert_eq!(split_path(""), Vec::<String>::new());
    assert_eq!(split_path("//a//b/"), vec!["a", "b"]);
}

#[test]
fn strip_root_drops_marker_and_first_segment() {
    assert_eq!(strip_root("/root/containers/vm1/disk.img"), "/containers/vm1/disk.img");
    assert_eq!(strip_root("/mnt/etc/hosts"), "/etc/hosts");
    assert_eq!(strip_root("/root"), "/");
    assert_eq!(strip_root("/"), "/");
}

#[test]
fn str_helpers_compare_literally() {
    assert!(str_eq("containers", "containers"));
    assert!(!str_eq("containers", "container"));
    assert!(str_starts_with("/etc/hosts", "/etc/"));
    assert!(!str_starts_with("/etcetera", "/etc/"));
    assert!(!str_starts_with("/e", "/etc/"));
}

#[test]
fn representative_denylist_entries_match() {
    let list = Denylist::new();
    // One representative raw path per a spread of denylist entries; the
    // first two segments are the mount/root markers the filter strips.
    for raw in [
        "/mnt/etc/passwd",
        "/mnt/boot/vmlinuz",
        "/mnt/proc/1/status",
        "/mnt/sys/kernel/x",
        "/mnt/dev/null",
        "/mnt/tmp/scratch",
        "/mnt/var/log/syslog",
        "/mnt/var/lib/snapd/state.json",
        "/mnt/var/lib/systemd/timers/x",
        "/mnt/var/run/utmp",
        "/mnt/run/lock/x",
        "/mnt/usr/bin/env",
        "/mnt/lib64/ld-linux.so",
        "/mnt/snap/core/current",
        "/mnt/var/lib/NetworkManager/state",
    ] {
        assert!(list.is_system_path(raw), "expected system path: {raw}");
    }
}

#[test]
fn non_prefix_substring_does_not_match() {
    let list = Denylist::new();
    // The stripped forms contain a denylist string, but not as a prefix.
    assert!(!list.is_system_path("/mnt/home/etc/passwd"));
    // The stripped form shares text with an entry without being under it.
    assert!(!list.is_system_path("/mnt/etcetera/file"));
    assert!(!list.is_system_path("/root/containers/vm1/disk.img"));
}

#[test]
fn event_with_one_clean_path_is_forwarded() {
    let list = Denylist::new();
    let event = FsEvent::new(
        EventKind::Modify(ModifyKind::Metadata(MetadataKind::AccessTime)),
        vec!["/mnt/etc/hosts".to_string(), "/root/containers/vm1/a".to_string()],
    );
    assert!(list.should_forward(&event));
}

#[test]
fn event_with_only_system_paths_is_dropped() {
    let list = Denylist::new();
    let event = FsEvent::new(
        EventKind::Modify(ModifyKind::Metadata(MetadataKind::AccessTime)),
        vec!["/mnt/etc/hosts".to_string(), "/mnt/var/log/syslog".to_string()],
    );
    assert!(!list.should_forward(&event));
}

#[test]
fn event_without_paths_is_dropped() {
    let list = Denylist::new();
    let event = FsEvent::new(EventKind::Other, Vec::new());
    assert!(!list.should_forward(&event));
}

#[test]
fn instance_name_follows_known_roots() {
    assert_eq!(
        instance_name_of("/root/containers/vm1/disk.img"),
        Some("vm1".to_string())
    );
    assert_eq!(
        instance_name_of("/srv/virtual-machine/alpha/root.img"),
        Some("alpha".to_string())
    );
    assert_eq!(instance_name_of("/root/shared/file"), None);
    assert_eq!(instance_name_of("/root/containers"), None);
    assert_eq!(instance_name_of(""), None);
}
