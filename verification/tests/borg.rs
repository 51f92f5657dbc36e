use boi::borg::{
    ArchiveComplete, ArchiveProgress, ArchiveStats, Event, LogLevel, LogMessage,
    Progress, ProgressPercent, Raw, TypedRaw,
};

fn typed(ty: &str) -> TypedRaw {
    TypedRaw {
        msg_type: ty.to_string(),
        message: None,
        finished: false,
        as_log_message: None,
        as_progress_percent: None,
        as_archive_progress: None,
    }
}

fn stats(n: u64, o: u64, c: u64, d: u64) -> ArchiveStats {
    ArchiveStats { nfiles: n, original_size: o, compressed_size: c, deduplicated_size: d }
}

#[test]
fn level_names_are_read_exactly() {
    assert_eq!(LogLevel::from_name("DEBUG"), LogLevel::Debug);
    assert_eq!(LogLevel::from_name("INFO"), LogLevel::Info);
    assert_eq!(LogLevel::from_name("WARNING"), LogLevel::Warning);
    assert_eq!(LogLevel::from_name("ERROR"), LogLevel::Error);
    assert_eq!(LogLevel::from_name("CRITICAL"), LogLevel::Critical);
    assert_eq!(LogLevel::from_name("warning"), LogLevel::Other("warning".to_string()));
    assert_eq!(LogLevel::from_name(""), LogLevel::Other(String::new()));
}

#[test]
fn warnings_and_worse() {
    assert!(!LogLevel::Debug.is_warning_or_worse());
    assert!(!LogLevel::Info.is_warning_or_worse());
    assert!(LogLevel::Warning.is_warning_or_worse());
    assert!(LogLevel::Error.is_warning_or_worse());
    assert!(LogLevel::Critical.is_warning_or_worse());
    assert!(LogLevel::Other("NOTICE".to_string()).is_warning_or_worse());
}

#[test]
fn log_messages() {
    let mut t = typed("log_message");
    assert_eq!(Event::from_raw(Raw::Typed(t)), Event::Blank);

    t = typed("log_message");
    t.message = Some(String::new());
    assert_eq!(Event::from_raw(Raw::Typed(t)), Event::Blank);

    t = typed("log_message");
    t.message = Some("hello".to_string());
    assert_eq!(Event::from_raw(Raw::Typed(t)), Event::Unknown(Some("log_message".to_string())));

    t = typed("log_message");
    t.message = Some("hello".to_string());
    t.as_log_message = Some(LogMessage { level: LogLevel::Warning, message: "hello".to_string() });
    assert_eq!(
        Event::from_raw(Raw::Typed(t)),
        Event::LogMessage(LogMessage { level: LogLevel::Warning, message: "hello".to_string() })
    );
}

#[test]
fn progress_messages() {
    let mut t = typed("progress_message");
    t.message = Some("Initializing cache".to_string());
    assert_eq!(Event::from_raw(Raw::Typed(t)), Event::ProgressMessage("Initializing cache".to_string()));
    let t = typed("progress_message");
    assert_eq!(Event::from_raw(Raw::Typed(t)), Event::Blank);
}

#[test]
fn progress_percent_and_archive_progress() {
    let mut t = typed("progress_percent");
    t.finished = true;
    assert_eq!(Event::from_raw(Raw::Typed(t)), Event::ProgressPercent(Progress::Finished));

    let mut t = typed("progress_percent");
    let p = ProgressPercent { current: 3, total: 10, message: "Checking segments".to_string() };
    t.as_progress_percent = Some(ProgressPercent { current: 3, total: 10, message: "Checking segments".to_string() });
    assert_eq!(Event::from_raw(Raw::Typed(t)), Event::ProgressPercent(Progress::Running(p)));

    let t = typed("progress_percent");
    assert_eq!(Event::from_raw(Raw::Typed(t)), Event::Unknown(Some("progress_percent".to_string())));

    let mut t = typed("archive_progress");
    t.finished = true;
    assert_eq!(Event::from_raw(Raw::Typed(t)), Event::ArchiveProgress(Progress::Finished));

    let mut t = typed("archive_progress");
    t.as_archive_progress = Some(ArchiveProgress { path: "a/b".to_string(), stats: stats(1, 2, 3, 4) });
    assert_eq!(
        Event::from_raw(Raw::Typed(t)),
        Event::ArchiveProgress(Progress::Running(ArchiveProgress { path: "a/b".to_string(), stats: stats(1, 2, 3, 4) }))
    );
}

#[test]
fn other_objects() {
    assert_eq!(Event::from_raw(Raw::Unknown), Event::Unknown(None));
    assert_eq!(Event::from_raw(Raw::Typed(typed("file_status"))), Event::Unknown(Some("file_status".to_string())));
    let c = ArchiveComplete { duration: "1.5".to_string(), stats: stats(5, 6, 7, 8) };
    assert_eq!(
        Event::from_raw(Raw::CreateStats(ArchiveComplete { duration: "1.5".to_string(), stats: stats(5, 6, 7, 8) })),
        Event::ArchiveComplete(c)
    );
}

#[test]
fn message_member_must_be_non_empty() {
    let mut t = typed("log_message");
    assert!(t.message().is_none());
    t.message = Some(String::new());
    assert!(t.message().is_none());
    t.message = Some("x".to_string());
    assert_eq!(t.message(), Some(&"x".to_string()));
}

#[test]
fn sizes_render_as_indicatif_does() {
    assert_eq!(stats(0, 1023, 1_024, 1_500_000).render(), "0 N 1023 B S 1.00 KiB C 1.43 MiB D");
}

#[test]
fn stats_render() {
    assert_eq!(stats(267561, 15, 1_500, 1_500_000).render(), "267561 N 15 B S 1.46 KiB C 1.43 MiB D");
    assert_eq!(ArchiveStats::default(), stats(0, 0, 0, 0));
    assert_eq!(ArchiveStats::default().render(), "0 N 0 B S 0 B C 0 B D");
}
