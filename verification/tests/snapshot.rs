use boi::borg::{ArchiveComplete, ArchiveProgress, ArchiveStats, Event, LogLevel, LogMessage, Progress};
use boi::child::Error;
use boi::frontend::{archive_outcome_notice, ArchiveRender, ArchiveStep};
use boi::progress::{BarOp, StyleKind};
use boi::reporting::{Flow, RepoReporterState};
use boi::snapshot::{
    archive_failed_message, archived_message, backup_spec, create_cmdline, create_json_cmdline,
    created_archive_message, ArchiveStatsDisplay, ArchiveStatsSummary, ArchiveStatsSummaryRunning,
    ArchiveTask, DriverKind,
};

fn stats(n: u64, o: u64) -> ArchiveStats {
    ArchiveStats { nfiles: n, original_size: o, compressed_size: 0, deduplicated_size: 0 }
}

#[test]
fn drivers() {
    assert_eq!(DriverKind::default_for(true), DriverKind::Apfs);
    assert_eq!(DriverKind::default_for(false), DriverKind::Live);
    assert_eq!(DriverKind::Apfs.name(), "apfs");
    assert_eq!(DriverKind::Live.name(), "none");
}

#[test]
fn create_command_lines() {
    assert_eq!(backup_spec("ssh://nas/./r", 1_700_000_000), "ssh://nas/./r::1700000000");
    assert_eq!(
        create_cmdline("r::5".to_string()),
        vec!["borg", "create", "--exclude-from=.borg-excludes", "--exclude-caches", "--compression=auto,zstd,19", "--progress", "--stats", "r::5", "."]
    );
    assert_eq!(
        create_json_cmdline("r::5".to_string()),
        vec!["borg", "create", "--exclude-from=.borg-excludes", "--exclude-caches", "--compression=auto,zstd,19", "--progress", "--log-json", "--json", "r::5", "."]
    );
}

#[test]
fn summaries_use_the_largest_values() {
    assert_eq!(ArchiveStatsSummary(&[]).render(), "files");
    assert_eq!(ArchiveStatsSummary(&[stats(0, 0), stats(0, 0)]).render(), "files");
    assert_eq!(ArchiveStatsSummary(&[stats(1, 10)]).render(), "10 B in 1 file");
    assert_eq!(ArchiveStatsSummary(&[stats(3, 1_500), stats(7, 20)]).render(), "1.46 KiB in 7 files");
    assert_eq!(ArchiveStatsSummary(&[stats(0, 5)]).render(), "5 B in 0 files");
    assert_eq!(ArchiveStatsSummaryRunning(vec![stats(2, 30)]).render(), "Archiving 30 B in 2 files…");
    assert_eq!(ArchiveStatsSummaryRunning(vec![]).render(), "Archiving files…");
    assert_eq!(archived_message(&[stats(2, 30), stats(1, 40)]), "Archived 40 B in 2 files.");
    assert_eq!(archive_failed_message(), "Failed to archive to all repos.");
    assert_eq!(ArchiveStatsDisplay(stats(2, 30)).render(), "2 N 30 B S 0 B C 0 B D");
}

#[test]
fn created_archive_messages() {
    assert_eq!(created_archive_message(&None), "Created archive");
    assert_eq!(created_archive_message(&Some("106.872165".to_string())), "Created archive in 106.872165 seconds");
}

#[test]
fn single_bar_archiving() {
    let mut r = ArchiveRender::new();
    assert_eq!(r.stats(), ArchiveStats::default());
    assert_eq!(
        r.step(Ok(Event::ProgressMessage("Initializing cache".to_string()))),
        (ArchiveStep::SetMessage("Initializing cache".to_string()), Flow::Continue)
    );
    assert_eq!(
        r.step(Ok(Event::ArchiveProgress(Progress::Running(ArchiveProgress { path: "a/b".to_string(), stats: stats(3, 100) })))),
        (ArchiveStep::SetMessage("a/b".to_string()), Flow::Continue)
    );
    assert_eq!(r.stats(), stats(3, 100));
    assert_eq!(
        r.step(Ok(Event::ArchiveProgress(Progress::Finished))),
        (ArchiveStep::SetMessage("Finished archiving files".to_string()), Flow::Continue)
    );
    match r.step(Ok(Event::LogMessage(LogMessage { level: LogLevel::Info, message: "note".to_string() }))) {
        (ArchiveStep::Print(n), Flow::Continue) => assert_eq!((n.sigil, n.text.as_str()), ("⚑", "note")),
        other => panic!("{other:?}"),
    }
    match r.step(Ok(Event::Unknown(None))) {
        (ArchiveStep::Print(n), Flow::Continue) => assert_eq!(n.text, "Unrecognized event from Borg"),
        other => panic!("{other:?}"),
    }
    assert_eq!(r.step(Ok(Event::Unknown(Some("x".to_string())))), (ArchiveStep::Nothing, Flow::Continue));
    assert_eq!(r.step(Ok(Event::Blank)), (ArchiveStep::Nothing, Flow::Continue));
    assert_eq!(
        r.step(Ok(Event::ArchiveComplete(ArchiveComplete { duration: "2.5".to_string(), stats: stats(9, 900) }))),
        (ArchiveStep::Nothing, Flow::Continue)
    );
    assert_eq!(r.step(Err("EOF".to_string())), (ArchiveStep::Nothing, Flow::Break));
    assert_eq!(r.finish(), (stats(9, 900), Some("2.5".to_string())));

    let mut r = ArchiveRender::new();
    r.step(Ok(Event::ArchiveProgress(Progress::Running(ArchiveProgress { path: "p".to_string(), stats: stats(1, 2) }))));
    assert_eq!(r.finish(), (stats(1, 2), None));
}

#[test]
fn archive_outcomes() {
    let s = stats(2, 30);
    let n = archive_outcome_notice(&s, &Some("1.5".to_string()), &Ok(()));
    assert_eq!((n.sigil, n.text.as_str()), ("✓", "2 N 30 B S 0 B C 0 B D • Created archive in 1.5 seconds"));
    let n = archive_outcome_notice(&s, &None, &Ok(()));
    assert_eq!(n.text, "2 N 30 B S 0 B C 0 B D • Created archive");
    let n = archive_outcome_notice(&s, &None, &Err(Error::ExitCode(2)));
    assert_eq!((n.sigil, n.text.as_str()), ("✗", "2 N 30 B S 0 B C 0 B D • Borg exited with code 2"));
    let n = archive_outcome_notice(&s, &None, &Err(Error::Killed));
    assert_eq!(n.text, "2 N 30 B S 0 B C 0 B D • Borg terminated abnormally");
    let n = archive_outcome_notice(&s, &None, &Err(Error::Launch("gone".to_string())));
    assert_eq!(n.text, "2 N 30 B S 0 B C 0 B D • Failed to wait for Borg: gone");
}

#[test]
fn repo_archiving_steps() {
    let (mut st, _) = RepoReporterState::new("nas".to_string(), false);
    let mut task = ArchiveTask::new();
    let s = task.step(&mut st, Ok(Event::ProgressMessage("Initializing".to_string())));
    assert_eq!(s.ops, vec![BarOp::SetMessage("Initializing".to_string())]);
    let s = task.step(&mut st, Ok(Event::ArchiveProgress(Progress::Running(ArchiveProgress { path: "x".to_string(), stats: stats(1, 1) }))));
    assert_eq!(s.stats, Some(stats(1, 1)));
    assert_eq!(s.ops, vec![BarOp::SetMessage("x".to_string())]);
    let s = task.step(&mut st, Ok(Event::ArchiveProgress(Progress::Finished)));
    assert_eq!(s.ops, vec![BarOp::SetMessage("Finished archiving files".to_string())]);
    let s = task.step(&mut st, Ok(Event::LogMessage(LogMessage { level: LogLevel::Warning, message: "w".to_string() })));
    assert_eq!(s.print.unwrap().text, "w");
    let s = task.step(&mut st, Ok(Event::Unknown(Some("file_status".to_string()))));
    assert_eq!(s.print.unwrap().text, "Unrecognized file_status event from Borg");
    assert!(s.ops.is_empty() && s.flow == Flow::Continue);
    let s = task.step(&mut st, Ok(Event::Unknown(None)));
    assert!(s.print.is_none());
    let s = task.step(&mut st, Ok(Event::ArchiveComplete(ArchiveComplete { duration: "3".to_string(), stats: stats(4, 4) })));
    assert!(s.ops.is_empty() && s.stats.is_none());
    let s = task.step(&mut st, Err("bad".to_string()));
    assert_eq!(s.flow, Flow::Break);
    assert_eq!(s.print.unwrap().text, "Ignoring further Borg output due to JSON error: bad");
    let done = task.finish();
    assert_eq!(done, Some((stats(4, 4), "3".to_string())));
    let ops = st.finish_once("✓", created_archive_message(&Some("3".to_string())));
    assert_eq!(ops[0], BarOp::Restyle { kind: StyleKind::Message, sigil: "✓" });
}
