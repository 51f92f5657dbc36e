use boi::prune::{
    compact_cmdline, confirmed, dry_run_cmdline, prune_cmdline, real_prune_cmdline, DryRun,
    DryRunElision, Profile,
};

fn keep(rule: &str, n: usize, name: &str) -> String {
    format!("Keeping archive (rule: {rule} #{n}):     {name}   Mon, 2026-01-05 12:00:00 [abc]\n")
}

#[test]
fn all_kept_prunes_nothing() {
    let out = format!("{}{}", keep("daily", 1, "a"), keep("weekly", 1, "b"));
    let r = DryRun::from_borg_stderr(out.into_bytes());
    assert_eq!(r, DryRun::PruneNone);
    assert!(r.is_prune_none());
    let n = r.notice().unwrap();
    assert_eq!(n.sigil, "✓");
    assert_eq!(n.text, "No snapshots to prune right now.");
    assert!(r.listing().is_none());
}

#[test]
fn empty_listing_prunes_nothing() {
    assert_eq!(DryRun::from_borg_stderr(Vec::new()), DryRun::PruneNone);
}

#[test]
fn long_final_run_is_elided_to_three_lines() {
    let mut out = String::from("Would prune:                     x   Mon, 2026-01-05 12:00:00 [abc]\n");
    for i in 1..=5 {
        out.push_str(&keep("monthly", i, "m"));
    }
    let expected: String = out.split_inclusive('\n').take(4).collect();
    let r = DryRun::from_borg_stderr(out.into_bytes());
    assert_eq!(
        r,
        DryRun::PruneSome {
            stderr: expected.clone().into_bytes(),
            elided: Some(DryRunElision { interval: "monthly".to_string(), count: 2 }),
        }
    );
    assert!(!r.is_prune_none());
    assert_eq!(r.listing().unwrap(), &expected.into_bytes());
    let n = r.notice().unwrap();
    assert_eq!(n.sigil, "✱");
    assert_eq!(n.text, "Keeping 2 more monthly snapshots too.");
}

#[test]
fn one_elided_line_is_singular() {
    let mut out = String::from("Would prune: x\n");
    for i in 1..=4 {
        out.push_str(&keep("daily", i, "d"));
    }
    let r = DryRun::from_borg_stderr(out.into_bytes());
    let n = r.notice().unwrap();
    assert_eq!(n.text, "Keeping 1 more daily snapshot too.");
}

#[test]
fn run_of_three_is_shown_whole() {
    let mut out = String::from("Would prune: x\n");
    for i in 1..=3 {
        out.push_str(&keep("daily", i, "d"));
    }
    let bytes = out.clone().into_bytes();
    let r = DryRun::from_borg_stderr(out.into_bytes());
    assert_eq!(r, DryRun::PruneSome { stderr: bytes, elided: None });
    assert!(r.notice().is_none());
}

#[test]
fn invalid_utf8_is_shown_whole() {
    let bytes = vec![b'W', 0xff, b'\n'];
    let r = DryRun::from_borg_stderr(bytes.clone());
    assert_eq!(r, DryRun::elide_nothing(bytes));
}

#[test]
fn last_line_not_kept_is_shown_whole() {
    let mut out = String::new();
    for i in 1..=5 {
        out.push_str(&keep("daily", i, "d"));
    }
    out.push_str("Would prune: x\n");
    let bytes = out.clone().into_bytes();
    assert_eq!(DryRun::from_borg_stderr(out.into_bytes()), DryRun::PruneSome { stderr: bytes, elided: None });
}

#[test]
fn interval_without_space_is_shown_whole() {
    let mut out = String::from("Would prune: x\n");
    for i in 1..=5 {
        out.push_str(&keep("daily", i, "d"));
    }
    out.push_str("Keeping archive (rule: daily");
    let bytes = out.clone().into_bytes();
    assert_eq!(DryRun::from_borg_stderr(out.into_bytes()), DryRun::PruneSome { stderr: bytes, elided: None });
}

#[test]
fn run_counts_rules_starting_with_the_interval_and_last_line_may_lack_newline() {
    let mut out = String::from("Would prune: x\n");
    out.push_str(&keep("dailyish", 1, "d"));
    out.push_str(&keep("daily", 2, "d"));
    out.push_str(&keep("daily", 3, "d"));
    out.push_str(&keep("daily", 4, "d"));
    out.push_str("Keeping archive (rule: daily #5): e");
    let expected: String = out.split_inclusive('\n').take(4).collect();
    let r = DryRun::from_borg_stderr(out.into_bytes());
    assert_eq!(
        r,
        DryRun::PruneSome {
            stderr: expected.into_bytes(),
            elided: Some(DryRunElision { interval: "daily".to_string(), count: 2 }),
        }
    );
}

#[test]
fn truncation_counts_bytes_of_wide_characters() {
    let mut out = String::from("Would prune: é\n");
    for i in 1..=6 {
        out.push_str(&keep("weekly", i, "ünïcödé"));
    }
    let expected: String = out.split_inclusive('\n').take(4).collect();
    let r = DryRun::from_borg_stderr(out.clone().into_bytes());
    assert_eq!(
        r,
        DryRun::PruneSome {
            stderr: expected.clone().into_bytes(),
            elided: Some(DryRunElision { interval: "weekly".to_string(), count: 3 }),
        }
    );
    assert!(out.as_bytes().starts_with(expected.as_bytes()));
}

#[test]
fn profiles_and_command_lines() {
    assert_eq!(Profile::default(), Profile::Normal);
    assert_eq!(Profile::Normal.name(), "normal");
    assert_eq!(Profile::Recent.name(), "recent");
    assert_eq!(Profile::Aggressive.name(), "aggressive");
    assert_eq!(
        prune_cmdline(Profile::Normal),
        vec!["borg", "prune", "-v", "--list", "--keep-within=24H", "--keep-daily=7", "--keep-weekly=4", "--keep-monthly=-1"]
    );
    assert_eq!(
        dry_run_cmdline(Profile::Recent),
        vec!["borg", "prune", "-v", "--list", "--keep-last=1", "--keep-daily=-1", "--dry-run"]
    );
    assert_eq!(
        real_prune_cmdline(Profile::Aggressive),
        vec!["borg", "prune", "-v", "--list", "--keep-daily=3", "--stats", "--progress"]
    );
    assert_eq!(compact_cmdline(), vec!["borg", "compact", "-v", "--progress"]);
}

#[test]
fn confirmation_needs_some_input() {
    assert!(confirmed(Some(1)));
    assert!(!confirmed(Some(0)));
    assert!(!confirmed(None));
}
