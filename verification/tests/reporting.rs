use boi::borg::{Event, LogLevel, LogMessage, ProgressPercent};
use boi::progress::{style_template, BarOp, Report, Reporter, StyleKind};
use boi::reporting::{head_template, repo_template, Flow, RepoReporterState};

fn pp(c: u64, t: u64, m: &str) -> ProgressPercent {
    ProgressPercent { current: c, total: t, message: m.to_string() }
}

#[test]
fn single_bar_restyles_on_change_only() {
    let (mut r, ops) = Reporter::new(&Report::Message("Waiting".to_string()));
    assert_eq!(
        ops,
        vec![BarOp::Restyle { kind: StyleKind::Message, sigil: "" }, BarOp::SetMessage("Waiting".to_string())]
    );
    let ops = r.post(&Report::Message("Still".to_string()));
    assert_eq!(ops, vec![BarOp::SetMessage("Still".to_string())]);
    let ops = r.post(&Report::Progress(pp(1, 4, "segments")));
    assert_eq!(
        ops,
        vec![
            BarOp::Restyle { kind: StyleKind::Progress, sigil: "" },
            BarOp::SetMessage("segments".to_string()),
            BarOp::SetLength(4),
            BarOp::SetPosition(1),
        ]
    );
    let ops = r.post(&Report::Progress(pp(2, 4, "segments")));
    assert_eq!(ops, vec![BarOp::SetMessage("segments".to_string()), BarOp::SetLength(4), BarOp::SetPosition(2)]);
    assert!(r.suspend_once());
    assert!(!r.suspend_once());
    r.post(&Report::Message("later".to_string()));
    assert!(!r.suspend_once());
    assert!(!r.suspend_once());
}

#[test]
fn templates() {
    assert_eq!(style_template(StyleKind::Message), "[boi] {spinner} {wide_msg}");
    assert_eq!(style_template(StyleKind::Progress), "[boi] {spinner} {bar} {pos}/{len} • {wide_msg}");
    assert_eq!(repo_template(StyleKind::Message), "      ┌ {name} {sigil} {header}\n      └ {wide_msg}");
    assert_eq!(repo_template(StyleKind::Progress), "      ┌ {name} {sigil} {wide_msg}\n      └ {bar} {pos}/{len}");
    assert_eq!(head_template(false), "[boi] {spinner} {header}");
    assert_eq!(head_template(true), "[boi] {sigil} {header}");
}

#[test]
fn repo_line_starts_up() {
    let (st, ops) = RepoReporterState::new("nas".to_string(), true);
    assert_eq!(st.name(), "nas");
    assert_eq!(
        ops,
        vec![BarOp::Restyle { kind: StyleKind::Message, sigil: "" }, BarOp::SetMessage("Starting up…".to_string())]
    );
    let (_, ops) = RepoReporterState::new("nas".to_string(), false);
    assert_eq!(ops[0], BarOp::Restyle { kind: StyleKind::Message, sigil: "─" });
}

#[test]
fn repo_line_progress_and_messages() {
    let (mut st, _) = RepoReporterState::new("nas".to_string(), true);
    let ops = st.post_progress(pp(3, 9, "Checking"));
    assert_eq!(
        ops,
        vec![
            BarOp::Restyle { kind: StyleKind::Progress, sigil: "─" },
            BarOp::SetMessage("Checking".to_string()),
            BarOp::SetLength(9),
            BarOp::SetPosition(3),
        ]
    );
    let ops = st.post_message("Waiting for Borg".to_string());
    assert_eq!(
        ops,
        vec![BarOp::Restyle { kind: StyleKind::Message, sigil: "" }, BarOp::SetMessage("Waiting for Borg".to_string())]
    );
    let ops = st.post_message("again".to_string());
    assert_eq!(ops, vec![BarOp::SetMessage("again".to_string())]);
}

#[test]
fn first_finish_wins() {
    let (mut st, _) = RepoReporterState::new("nas".to_string(), false);
    let ops = st.finish_once("✓", "Repository is valid".to_string());
    assert_eq!(
        ops,
        vec![
            BarOp::Restyle { kind: StyleKind::Message, sigil: "✓" },
            BarOp::SetMessage("Repository is valid".to_string()),
            BarOp::Finish,
        ]
    );
    assert!(st.finish_once("⚠", "Final status unknown.".to_string()).is_empty());
    let ops = st.post_progress(pp(1, 2, "x"));
    assert_eq!(ops[0], BarOp::Restyle { kind: StyleKind::Progress, sigil: "✓" });
}

#[test]
fn unhandled_events() {
    let (mut st, _) = RepoReporterState::new("nas".to_string(), false);
    let h = st.post_unhandled_event(&Ok(Event::Unknown(Some("file_status".to_string()))));
    assert_eq!(h.flow, Flow::Continue);
    assert_eq!(h.print.unwrap().text, "Unrecognized file_status event from Borg");
    let h = st.post_unhandled_event(&Ok(Event::Unknown(None)));
    assert_eq!(h.flow, Flow::Continue);
    assert!(h.print.is_none());
    let h = st.post_unhandled_event(&Err("EOF while parsing".to_string()));
    assert_eq!(h.flow, Flow::Break);
    let n = h.print.unwrap();
    assert_eq!(n.sigil, "⚑");
    assert_eq!(n.text, "Ignoring further Borg output due to JSON error: EOF while parsing");
    let h = st.post_unhandled_event(&Ok(Event::Blank));
    assert_eq!(h.flow, Flow::Continue);
    assert!(h.print.is_none());
    let (mut st, _) = RepoReporterState::new("nas".to_string(), false);
    let h = st.post_unhandled_event(&Ok(Event::Unknown(None)));
    assert_eq!(h.print.unwrap().text, "Unrecognized event from Borg");
    let h = st.post_unhandled_event(&Ok(Event::LogMessage(LogMessage { level: LogLevel::Info, message: "m".to_string() })));
    assert!(h.print.is_none());
    assert!(!st.suspend_once());
}
