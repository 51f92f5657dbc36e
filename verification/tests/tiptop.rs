use boi::borg::ArchiveStats;
use boi::tiptop::{ArchiveProgress, BorgEvent, RawBorgLog};

fn raw(ty: &str) -> RawBorgLog {
    RawBorgLog { msg_type: ty.to_string(), finished: false, message: None, as_archive_progress: None }
}

fn progress(path: &str) -> ArchiveProgress {
    ArchiveProgress { nfiles: 3, original_size: 1_500, compressed_size: 10, deduplicated_size: 0, path: path.to_string() }
}

#[test]
fn transcript_events() {
    let mut r = raw("archive_progress");
    r.finished = true;
    assert_eq!(BorgEvent::from_raw(r), BorgEvent::ArchiveFinished);
    let mut r = raw("archive_progress");
    r.as_archive_progress = Some(progress("a"));
    assert_eq!(BorgEvent::from_raw(r), BorgEvent::ArchiveProgress(progress("a")));
    let mut r = raw("progress_message");
    r.message = Some("hi".to_string());
    assert_eq!(BorgEvent::from_raw(r), BorgEvent::ProgressMessage("hi".to_string()));
    assert_eq!(BorgEvent::from_raw(raw("progress_message")), BorgEvent::ProgressMessage(String::new()));
    assert_eq!(BorgEvent::from_raw(raw("")), BorgEvent::Unknown);
}

#[test]
fn bar_updates() {
    assert_eq!(BorgEvent::Unknown.on_bar(), (None, Some("Doing some stuff...".to_string())));
    assert_eq!(BorgEvent::ArchiveFinished.on_bar(), (None, Some("Finished archiving files.".to_string())));
    assert_eq!(BorgEvent::ProgressMessage(String::new()).on_bar(), (None, None));
    assert_eq!(BorgEvent::ProgressMessage("m".to_string()).on_bar(), (None, Some("m".to_string())));
    let s = ArchiveStats { nfiles: 3, original_size: 1_500, compressed_size: 10, deduplicated_size: 0 };
    assert_eq!(BorgEvent::ArchiveProgress(progress("p")).on_bar(), (Some(s), Some("p".to_string())));
    assert_eq!(BorgEvent::ArchiveProgress(progress("")).on_bar(), (Some(s), None));
}

#[test]
fn bar_fields() {
    let p = progress("p");
    assert_eq!(p.bar_nfiles(), 3);
    assert_eq!(p.bar_orig(), "1.46 KiB");
    assert_eq!(p.bar_comp(), "10 B");
    assert_eq!(p.bar_ddup(), "0 B");
}
