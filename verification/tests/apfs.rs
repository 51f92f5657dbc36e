use boi::apfs::{
    snapshot_root,
    create_snapshot_command, delete_snapshot_command, local_snapshot_date, mount_command,
    mount_dir_name, snapshot_id, unmount_command, CleanupStep, Snapshot, SnapshotError,
};
use boi::child::{EnvChange, Error};

#[test]
fn snapshot_dates() {
    assert_eq!(
        local_snapshot_date(b"NOTE: text\nCreated local snapshot with date: 2026-07-11-120102\n"),
        Some("2026-07-11-120102".to_string())
    );
    assert_eq!(
        local_snapshot_date(b"Created local snapshot with date: 2026-07-11-120102\r\nCreated local snapshot with date: later"),
        Some("2026-07-11-120102".to_string())
    );
    assert_eq!(local_snapshot_date(b"Created local snapshot with date: "), Some(String::new()));
    assert_eq!(local_snapshot_date(b"nothing here\n"), None);
    assert_eq!(local_snapshot_date(b""), None);
    assert_eq!(local_snapshot_date(b" Created local snapshot with date: x"), None);
    assert_eq!(local_snapshot_date(&[0xff, b'\n']), None);
}

#[test]
fn names() {
    assert_eq!(snapshot_id("2026-07-11-120102"), "com.apple.TimeMachine.2026-07-11-120102.local");
    assert_eq!(mount_dir_name(4242), "boi-apfs-4242");
}

#[test]
fn commands() {
    let c = create_snapshot_command();
    assert_eq!(c.render(), "tmutil localsnapshot");
    assert_eq!(c.env_changes("UTC"), vec![EnvChange::Remove("TZ".to_string())]);
    let c = mount_command("id", "/System/Volumes/Data", "/tmp/boi-apfs-1");
    assert_eq!(c.render(), "mount_apfs -s id /System/Volumes/Data /tmp/boi-apfs-1");
    assert!(c.is_output_nulled() && !c.is_input_nulled());
    let c = unmount_command("/tmp/m");
    assert_eq!(c.render(), "diskutil unmount /tmp/m");
    let c = delete_snapshot_command("2026");
    assert_eq!(c.render(), "tmutil deletelocalsnapshots 2026");
    assert!(c.is_output_nulled() && c.is_input_nulled());
    assert_eq!(c.env_changes("UTC"), vec![EnvChange::Remove("TZ".to_string())]);
}

#[test]
fn error_texts() {
    assert_eq!(SnapshotError::HomeUnknown.describe(), "can't determine $HOME");
    assert_eq!(SnapshotError::HomeIsRelative.describe(), "$HOME is a non-absolute path");
    assert_eq!(SnapshotError::HomeMountBaseUnknown("e".to_string()).describe(), "can't find where $HOME is mounted: e");
    assert_eq!(SnapshotError::SnapshotCreateFailed(Error::ExitCode(1)).describe(), "tmutil localsnapshot failed: child exited with code 1");
    assert_eq!(SnapshotError::SnapshotMissingDate.describe(), "can't find snapshot date in tmutil localsnapshot output");
    assert_eq!(SnapshotError::MountTargetCreateFailed("e".to_string()).describe(), "failed to create mount directory: e");
    assert_eq!(SnapshotError::MountFailed(Error::Killed).describe(), "mount_apfs -s failed: child terminated abnormally");
    assert_eq!(SnapshotError::UnmountFailed("/m".to_string(), Error::ExitCode(1)).describe(), "diskutil unmount /m failed: child exited with code 1");
    assert_eq!(SnapshotError::MountTargetCleanupFailed("/m".to_string(), "busy".to_string()).describe(), "failed to clean up /m: busy");
    assert_eq!(SnapshotError::SnapshotCleanupFailed("d".to_string(), Error::Launch("x".to_string())).describe(), "tmutil deletelocalsnapshots d failed: failed to launch child: x");
}

fn snap(keep: bool) -> Snapshot {
    Snapshot { keep, date: "2026".to_string(), mount_target: "/tmp/m".to_string(), full_path: "/tmp/m/Users/me".to_string() }
}

#[test]
fn snapshot_lifecycle_messages() {
    assert_eq!(snap(false).path(), "/tmp/m/Users/me");
    assert_eq!(Snapshot::prepared_message(&Ok(snap(false))), Ok("Created and mounted APFS snapshot 2026.".to_string()));
    assert_eq!(
        Snapshot::prepared_message(&Err(SnapshotError::SnapshotMissingDate)),
        Err("Failed to create APFS snapshot (can't find snapshot date in tmutil localsnapshot output); you should look at that.".to_string())
    );
    assert_eq!(snap(false).after_unmount(&Ok(())), CleanupStep::DeleteSnapshot);
    assert_eq!(
        snap(true).after_unmount(&Ok(())),
        CleanupStep::Finish("Unmounted APFS snapshot; keeping per your request.".to_string())
    );
    assert_eq!(
        snap(true).after_unmount(&Err(SnapshotError::HomeUnknown)),
        CleanupStep::Fail("Failed to unmount APFS snapshot (can't determine $HOME); you should look at that.".to_string())
    );
    assert_eq!(Snapshot::after_delete(&Ok(())), Ok("Unmounted APFS snapshot; deleting in background.".to_string()));
    assert_eq!(
        Snapshot::after_delete(&Err(SnapshotError::HomeIsRelative)),
        Err("Failed to delete APFS snapshot ($HOME is a non-absolute path); you should look at that.".to_string())
    );
}

#[test]
fn snapshot_roots() {
    assert_eq!(snapshot_root(None, "/tmp/m"), Err(SnapshotError::HomeUnknown));
    assert_eq!(snapshot_root(Some("me".to_string()), "/tmp/m"), Err(SnapshotError::HomeIsRelative));
    assert_eq!(snapshot_root(Some(String::new()), "/tmp/m"), Err(SnapshotError::HomeIsRelative));
    assert_eq!(snapshot_root(Some("/Users/me".to_string()), "/tmp/m"), Ok("/tmp/m/Users/me".to_string()));
    assert_eq!(snapshot_root(Some("//Users/me".to_string()), "/tmp/m/"), Ok("/tmp/m/Users/me".to_string()));
    assert_eq!(snapshot_root(Some("/".to_string()), "/tmp/m"), Ok("/tmp/m/".to_string()));
}
