//! Checking repositories: reading the events of `borg check`, and what to tell the user.

use vstd::prelude::*;

use crate::borg::{level_rank, Event, LogLevel, LogMessage, Progress, ProgressPercent, TypedRaw, has_message};
use crate::child::Error;
use crate::progress::{ops_view, BarOp, BarOpView, Report, StyleKind};
use crate::reporting::{
    json_error_message, json_error_text, refresh_ops, same_but_once, same_identity, Flow, Handling,
    RepoReporterState, unrecognized_message, unrecognized_text,
};
use crate::text::{notice, owned, signed_decimal, signed_decimal_string, text_eq, Notice};

verus! {

/// The `borg check` command line.
pub fn check_cmdline(repository_only: bool) -> (cmd: Vec<&'static str>)
    ensures
        cmd@.map_values(|w: &'static str| w@) == seq!["borg"@, "check"@, "-v"@, "--progress"@, "--log-json"@]
            + if repository_only {
            seq!["--repository-only"@]
        } else {
            Seq::empty()
        },
{
    let mut cmd: Vec<&'static str> = vec!["borg", "check", "-v", "--progress", "--log-json"];
    if repository_only {
        cmd.push("--repository-only");
    }
    assert(cmd@.map_values(|w: &'static str| w@) =~= seq!["borg"@, "check"@, "-v"@, "--progress"@, "--log-json"@]
        + if repository_only {
        seq!["--repository-only"@]
    } else {
        Seq::empty()
    });
    cmd
}

/// An event of `borg check`.
#[derive(Debug, PartialEq, Eq)]
pub enum CheckEvent {
    Blank,
    ProgressPercent(ProgressPercent),
    ProgressFinished,
    LogMessage(LogMessage),
    Unrecognized(String),
}

/// The event that a typed JSON object from `borg check` stands for.
pub open spec fn check_event_of(raw: TypedRaw) -> CheckEvent {
    if raw.msg_type@ == "progress_percent"@ {
        if raw.finished {
            CheckEvent::ProgressFinished
        } else {
            match raw.as_progress_percent {
                Some(p) => CheckEvent::ProgressPercent(p),
                None => CheckEvent::Unrecognized(raw.msg_type),
            }
        }
    } else if raw.msg_type@ == "log_message"@ {
        if !has_message(raw) {
            CheckEvent::Blank
        } else {
            match raw.as_log_message {
                Some(m) => CheckEvent::LogMessage(m),
                None => CheckEvent::Unrecognized(raw.msg_type),
            }
        }
    } else {
        CheckEvent::Unrecognized(raw.msg_type)
    }
}

impl CheckEvent {
    /// Classifies a typed JSON object from `borg check`.
    pub fn from_json(raw: TypedRaw) -> (e: CheckEvent)
        ensures
            e == check_event_of(raw),
    {
        if text_eq(raw.msg_type.as_str(), "progress_percent") {
            if raw.finished {
                CheckEvent::ProgressFinished
            } else {
                match raw.as_progress_percent {
                    Some(p) => CheckEvent::ProgressPercent(p),
                    None => CheckEvent::Unrecognized(raw.msg_type),
                }
            }
        } else if text_eq(raw.msg_type.as_str(), "log_message") {
            if raw.message().is_none() {
                CheckEvent::Blank
            } else {
                match raw.as_log_message {
                    Some(m) => CheckEvent::LogMessage(m),
                    None => CheckEvent::Unrecognized(raw.msg_type),
                }
            }
        } else {
            CheckEvent::Unrecognized(raw.msg_type)
        }
    }
}

/// One item of `borg check`'s output.
#[derive(Debug, PartialEq, Eq)]
pub enum CheckItem {
    /// A JSON object with a `type` member.
    Json(TypedRaw),
    /// Some other JSON value.
    Unknown,
    /// Output that is not valid JSON, with the parser's error.
    Invalid(String),
}

/// What to do on the progress bar for one item of `borg check`'s output.
#[derive(Debug, PartialEq, Eq)]
pub enum CheckStep {
    Nothing,
    /// Print a line above the bar.
    Print(Notice),
    /// Show step-wise progress.
    Progress(ProgressPercent),
    /// The progress finished: clear the bar and start a fresh one waiting for Borg.
    ResetBar,
}

/// The warning about an event type that `borg check` should not send.
pub open spec fn unrecognized_check_text(ty: Seq<char>) -> Seq<char> {
    "Unrecognized "@ + ty + " event from Borg"@
}

/// Follows the output of `borg check` on a single progress bar, warning about surprises once.
pub struct CheckRender {
    warned_once: bool,
}

impl CheckRender {
    /// Whether a warning about the output has been given.
    pub closed spec fn spec_warned(&self) -> bool {
        self.warned_once
    }

    pub fn new() -> (r: CheckRender)
        ensures
            !r.spec_warned(),
    {
        CheckRender { warned_once: false }
    }

    /// A warning to print if none has been printed yet; afterwards a warning has been given.
    fn warn_once(&mut self, text: String) -> (s: CheckStep)
        ensures
            final(self).spec_warned(),
            !old(self).spec_warned() ==> (s matches CheckStep::Print(n) && n.sigil@ == "⚑"@ && n.text
                == text),
            old(self).spec_warned() ==> s is Nothing,
    {
        let s = if !self.warned_once {
            CheckStep::Print(notice("⚑", text))
        } else {
            CheckStep::Nothing
        };
        self.warned_once = true;
        s
    }

    /// Deals with one item of the output: what to show, and whether to keep reading.
    pub fn step(&mut self, item: CheckItem) -> (r: (CheckStep, Flow))
        ensures
            match item {
                CheckItem::Invalid(e) => r.1 == Flow::Break && final(self).spec_warned() && (!old(self).spec_warned() ==> (r.0 matches CheckStep::Print(n) && n.sigil@ == "⚑"@ && n.text@
                    == json_error_text(e@))) && (old(self).spec_warned() ==> r.0 is Nothing),
                CheckItem::Unknown => r.1 == Flow::Continue && final(self).spec_warned() && (!old(self).spec_warned() ==> (r.0 matches CheckStep::Print(n) && n.sigil@ == "⚑"@ && n.text@
                    == "Unrecognized log entry from Borg"@)) && (old(self).spec_warned() ==> r.0 is Nothing),
                CheckItem::Json(raw) => r.1 == Flow::Continue && match check_event_of(raw) {
                    CheckEvent::Blank => r.0 is Nothing && final(self).spec_warned() == old(self).spec_warned(),
                    CheckEvent::ProgressPercent(p) => r.0 == CheckStep::Progress(p)
                        && final(self).spec_warned() == old(self).spec_warned(),
                    CheckEvent::ProgressFinished => r.0 is ResetBar && final(self).spec_warned()
                        == old(self).spec_warned(),
                    CheckEvent::LogMessage(m) => final(self).spec_warned() == old(self).spec_warned()
                        && (level_rank(m.level) >= level_rank(LogLevel::Warning) ==> (r.0 matches CheckStep::Print(
                        n,
                    ) && n.sigil@ == "⚑"@ && n.text == m.message)) && (level_rank(m.level) < level_rank(
                        LogLevel::Warning,
                    ) ==> r.0 is Nothing),
                    CheckEvent::Unrecognized(ty) => final(self).spec_warned() && (!old(self).spec_warned() ==> (r.0 matches CheckStep::Print(n) && n.sigil@ == "⚑"@ && n.text@
                        == unrecognized_check_text(ty@))) && (old(self).spec_warned() ==> r.0 is Nothing),
                },
            },
    {
        match item {
            CheckItem::Invalid(e) => {
                let s = self.warn_once(json_error_message(e.as_str()));
                (s, Flow::Break)
            },
            CheckItem::Unknown => {
                let s = self.warn_once(owned("Unrecognized log entry from Borg"));
                (s, Flow::Continue)
            },
            CheckItem::Json(raw) => {
                let s = match CheckEvent::from_json(raw) {
                    CheckEvent::Blank => CheckStep::Nothing,
                    CheckEvent::ProgressPercent(p) => CheckStep::Progress(p),
                    CheckEvent::ProgressFinished => CheckStep::ResetBar,
                    CheckEvent::LogMessage(m) => {
                        if m.level.is_warning_or_worse() {
                            CheckStep::Print(notice("⚑", m.message))
                        } else {
                            CheckStep::Nothing
                        }
                    },
                    CheckEvent::Unrecognized(ty) => {
                        let mut t = owned("Unrecognized ");
                        t.append(ty.as_str());
                        t.append(" event from Borg");
                        self.warn_once(t)
                    },
                };
                (s, Flow::Continue)
            },
        }
    }
}

/// What to say about a repository once Borg has exited.
pub open spec fn check_outcome(result: Result<(), Error>) -> (Seq<char>, Seq<char>) {
    match result {
        Ok(()) => ("✓"@, "Repository is valid"@),
        Err(Error::ExitCode(c)) => ("✗"@, "Borg exited with code "@ + signed_decimal(c as int)),
        Err(Error::Killed) => ("✗"@, "Borg terminated abnormally"@),
        Err(Error::Launch(e)) => ("✗"@, "Failed to wait for Borg: "@ + e@),
    }
}

/// What to say about a repository once Borg has exited.
pub fn check_outcome_notice(result: &Result<(), Error>) -> (n: Notice)
    ensures
        (n.sigil@, n.text@) == check_outcome(*result),
{
    match result {
        Ok(()) => notice("✓", owned("Repository is valid")),
        Err(Error::ExitCode(c)) => {
            let mut t = owned("Borg exited with code ");
            t.append(signed_decimal_string(*c).as_str());
            notice("✗", t)
        },
        Err(Error::Killed) => notice("✗", owned("Borg terminated abnormally")),
        Err(Error::Launch(e)) => {
            let mut t = owned("Failed to wait for Borg: ");
            t.append(e.as_str());
            notice("✗", t)
        },
    }
}

/// What to do for one event while checking one of several repositories: bar operations, a
/// line to print, and whether to keep reading.
pub struct RepoStep {
    pub ops: Vec<BarOp>,
    pub print: Option<Notice>,
    pub flow: Flow,
}

/// Follows one event of `borg check` on a repository's line: progress is shown, a finished
/// progress leaves the line waiting for Borg, warnings are printed, and the rest is handled
/// as any unhandled event.
pub fn check_repo_step(reporter: &mut RepoReporterState, event: Result<Event, String>) -> (s: RepoStep)
    ensures
        match event {
            Ok(Event::ProgressPercent(Progress::Running(p))) => {
                &&& final(reporter).spec_report() == Report::Progress(p)
                &&& ops_view(s.ops@) == refresh_ops(
                    old(reporter).spec_current_style(),
                    Report::Progress(p),
                    old(reporter).spec_sigil(),
                    old(reporter).spec_header_blank(),
                )
                &&& final(reporter).spec_current_style() == Some(StyleKind::Progress)
                &&& same_identity(*final(reporter), *old(reporter))
                &&& s.print is None && s.flow == Flow::Continue
            },
            Ok(Event::ProgressPercent(Progress::Finished)) => {
                &&& final(reporter).spec_report() matches Report::Message(m) && m@ == "Waiting for Borg"@
                &&& ops_view(s.ops@) == refresh_ops(
                    old(reporter).spec_current_style(),
                    final(reporter).spec_report(),
                    old(reporter).spec_sigil(),
                    old(reporter).spec_header_blank(),
                )
                &&& final(reporter).spec_current_style() == Some(StyleKind::Message)
                &&& same_identity(*final(reporter), *old(reporter))
                &&& s.print is None && s.flow == Flow::Continue
            },
            Ok(Event::LogMessage(m)) => {
                &&& s.ops@.len() == 0 && s.flow == Flow::Continue
                &&& *final(reporter) == *old(reporter)
                &&& level_rank(m.level) >= level_rank(LogLevel::Warning) ==> (s.print matches Some(n)
                    && n.sigil@ == "⚑"@ && n.text == m.message)
                &&& level_rank(m.level) < level_rank(LogLevel::Warning) ==> s.print is None
            },
            Ok(Event::Unknown(ty)) => {
                &&& s.ops@.len() == 0 && s.flow == Flow::Continue
                &&& !old(reporter).spec_did_once() ==> (s.print matches Some(n) && n.sigil@ == "⚑"@
                    && n.text@ == unrecognized_text(ty))
                &&& old(reporter).spec_did_once() ==> s.print is None
                &&& final(reporter).spec_did_once()
                &&& same_but_once(*final(reporter), *old(reporter))
            },
            Err(e) => {
                &&& s.ops@.len() == 0 && s.flow == Flow::Break
                &&& s.print matches Some(n) && n.sigil@ == "⚑"@ && n.text@ == json_error_text(e@)
                &&& *final(reporter) == *old(reporter)
            },
            _ => s.ops@.len() == 0 && s.flow == Flow::Continue && s.print is None && *final(reporter)
                == *old(reporter),
        },
{
    match event {
        Ok(Event::ProgressPercent(Progress::Running(p))) => {
            let ops = reporter.post_progress(p);
            RepoStep { ops, print: None, flow: Flow::Continue }
        },
        Ok(Event::ProgressPercent(Progress::Finished)) => {
            let ops = reporter.post_message(owned("Waiting for Borg"));
            RepoStep { ops, print: None, flow: Flow::Continue }
        },
        Ok(Event::LogMessage(m)) => {
            if m.level.is_warning_or_worse() {
                RepoStep { ops: Vec::new(), print: Some(notice("⚑", m.message)), flow: Flow::Continue }
            } else {
                let ev: Result<Event, String> = Ok(Event::LogMessage(m));
                let h = reporter.post_unhandled_event(&ev);
                RepoStep { ops: Vec::new(), print: h.print, flow: h.flow }
            }
        },
        other => {
            let h = reporter.post_unhandled_event(&other);
            RepoStep { ops: Vec::new(), print: h.print, flow: h.flow }
        },
    }
}

/// The first error among the results of all repositories, if any.
pub fn first_error(results: Vec<Result<(), Error>>) -> (e: Option<Error>)
    ensures
        e is None <==> forall|i: int| 0 <= i < results@.len() ==> (#[trigger] results@[i]) is Ok,
        e matches Some(err) ==> exists|i: int|
            0 <= i < results@.len() && (#[trigger] results@[i]) == Err::<(), Error>(err) && forall|j: int|
                0 <= j < i ==> (#[trigger] results@[j]) is Ok,
{
    let ghost all = results@;
    let mut rest = results;
    while rest.len() > 0
        invariant
            all == results@,
            rest@.len() <= all.len(),
            rest@ == all.skip(all.len() - rest@.len()),
            forall|j: int| 0 <= j < all.len() - rest@.len() ==> (#[trigger] all[j]) is Ok,
        decreases rest@.len(),
    {
        let ghost at = all.len() - rest@.len();
        assert(rest@[0] == all[at]);
        let r = rest.remove(0);
        match r {
            Err(e) => {
                assert(all[at] == Err::<(), Error>(e));
                assert(!(all[at] is Ok));
                return Some(e);
            },
            Ok(()) => {
                assert(rest@ =~= all.skip(all.len() - rest@.len()));
            },
        }
    }
    None
}

} // verus!

verus! {

/// The closing line for a check of several repositories, and the outcome: the first error
/// among them, if any.
pub fn check_summary(results: Vec<Result<(), Error>>) -> (r: (Notice, Result<(), Error>))
    ensures
        (forall|i: int| 0 <= i < results@.len() ==> (#[trigger] results@[i]) is Ok) ==> (r.0.sigil@
            == "✓"@ && r.0.text@ == "Confirmed all repositories are valid."@ && r.1 is Ok),
        !(forall|i: int| 0 <= i < results@.len() ==> (#[trigger] results@[i]) is Ok) ==> (r.0.sigil@
            == "✗"@ && r.0.text@ == "Found issues in repositories!"@ && exists|i: int|
            0 <= i < results@.len() && (#[trigger] results@[i]) == r.1 && forall|j: int|
                0 <= j < i ==> (#[trigger] results@[j]) is Ok),
{
    match first_error(results) {
        None => (notice("✓", owned("Confirmed all repositories are valid.")), Ok(())),
        Some(e) => (notice("✗", owned("Found issues in repositories!")), Err(e)),
    }
}

} // verus!
