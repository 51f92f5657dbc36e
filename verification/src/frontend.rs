//! Following `borg create` on a single progress bar, with running statistics beside it.

use vstd::prelude::*;

use crate::borg::{stats_text, ArchiveComplete, ArchiveStats, Event, Progress};
use crate::child::Error;
use crate::reporting::{json_error_message, json_error_text, unrecognized_message, unrecognized_text, Flow};
use crate::text::{notice, owned, signed_decimal, signed_decimal_string, Notice};

verus! {

/// What to do on the bar for one event of `borg create`.
#[derive(Debug, PartialEq, Eq)]
pub enum ArchiveStep {
    Nothing,
    /// Show a message beside the statistics.
    SetMessage(String),
    /// Print a line above the bar.
    Print(Notice),
}

/// The state of a `borg create` run shown on one bar: the last statistics, whether a
/// warning about the output has been given, and the final statistics once Borg sent them.
pub struct ArchiveRender {
    stats: ArchiveStats,
    warned_once: bool,
    complete: Option<ArchiveComplete>,
}

impl ArchiveRender {
    pub closed spec fn spec_stats(&self) -> ArchiveStats {
        self.stats
    }

    pub closed spec fn spec_warned(&self) -> bool {
        self.warned_once
    }

    pub closed spec fn spec_complete(&self) -> Option<ArchiveComplete> {
        self.complete
    }

    /// Nothing archived yet.
    pub fn new() -> (r: ArchiveRender)
        ensures
            r.spec_stats() == ArchiveStats::default_spec(),
            !r.spec_warned(),
            r.spec_complete() is None,
    {
        ArchiveRender { stats: ArchiveStats::default(), warned_once: false, complete: None }
    }

    /// The statistics to show now.
    pub fn stats(&self) -> (s: ArchiveStats)
        ensures
            s == self.spec_stats(),
    {
        self.stats
    }

    fn warn_once(&mut self, text: String) -> (s: ArchiveStep)
        ensures
            final(self).spec_warned(),
            final(self).spec_stats() == old(self).spec_stats(),
            final(self).spec_complete() == old(self).spec_complete(),
            !old(self).spec_warned() ==> (s matches ArchiveStep::Print(n) && n.sigil@ == "⚑"@
                && n.text == text),
            old(self).spec_warned() ==> s is Nothing,
    {
        let s = if !self.warned_once {
            ArchiveStep::Print(notice("⚑", text))
        } else {
            ArchiveStep::Nothing
        };
        self.warned_once = true;
        s
    }

    /// Deals with one item of Borg's output: what to show, and whether to keep reading.
    pub fn step(&mut self, item: Result<Event, String>) -> (r: (ArchiveStep, Flow))
        ensures
            match item {
                Ok(Event::ProgressMessage(m)) => r == (ArchiveStep::SetMessage(m), Flow::Continue)
                    && *final(self) == *old(self),
                Ok(Event::ArchiveProgress(Progress::Finished)) => (r.0 matches ArchiveStep::SetMessage(
                    m,
                ) && m@ == "Finished archiving files"@) && r.1 == Flow::Continue && *final(self)
                    == *old(self),
                Ok(Event::ArchiveProgress(Progress::Running(p))) => r == (ArchiveStep::SetMessage(p.path), Flow::Continue)
                    && final(self).spec_stats() == p.stats && final(self).spec_warned() == old(self).spec_warned() && final(self).spec_complete() == old(self).spec_complete(),
                Ok(Event::ArchiveComplete(c)) => r.0 is Nothing && r.1 == Flow::Continue && final(self).spec_complete() == Some(c) && final(self).spec_stats() == old(self).spec_stats()
                    && final(self).spec_warned() == old(self).spec_warned(),
                Ok(Event::LogMessage(m)) => (r.0 matches ArchiveStep::Print(n) && n.sigil@ == "⚑"@
                    && n.text == m.message) && r.1 == Flow::Continue && *final(self) == *old(self),
                Ok(Event::Unknown(ty)) => r.1 == Flow::Continue && final(self).spec_warned() && (!old(self).spec_warned() ==> (r.0 matches ArchiveStep::Print(n) && n.sigil@ == "⚑"@ && n.text@
                    == unrecognized_text(ty))) && (old(self).spec_warned() ==> r.0 is Nothing)
                    && final(self).spec_stats() == old(self).spec_stats() && final(self).spec_complete()
                    == old(self).spec_complete(),
                Err(e) => r.1 == Flow::Break && final(self).spec_warned() && (!old(self).spec_warned() ==> (r.0 matches ArchiveStep::Print(n) && n.sigil@ == "⚑"@ && n.text@
                    == json_error_text(e@))) && (old(self).spec_warned() ==> r.0 is Nothing)
                    && final(self).spec_stats() == old(self).spec_stats() && final(self).spec_complete()
                    == old(self).spec_complete(),
                _ => r.0 is Nothing && r.1 == Flow::Continue && *final(self) == *old(self),
            },
    {
        match item {
            Ok(Event::ProgressMessage(m)) => (ArchiveStep::SetMessage(m), Flow::Continue),
            Ok(Event::ArchiveProgress(Progress::Finished)) => (
                ArchiveStep::SetMessage(owned("Finished archiving files")),
                Flow::Continue,
            ),
            Ok(Event::ArchiveProgress(Progress::Running(p))) => {
                self.stats = p.stats;
                (ArchiveStep::SetMessage(p.path), Flow::Continue)
            },
            Ok(Event::ArchiveComplete(c)) => {
                self.complete = Some(c);
                (ArchiveStep::Nothing, Flow::Continue)
            },
            Ok(Event::LogMessage(m)) => (ArchiveStep::Print(notice("⚑", m.message)), Flow::Continue),
            Ok(Event::Unknown(ty)) => {
                let s = self.warn_once(unrecognized_message(&ty));
                (s, Flow::Continue)
            },
            Err(e) => {
                let s = self.warn_once(json_error_message(e.as_str()));
                (s, Flow::Break)
            },
            _ => (ArchiveStep::Nothing, Flow::Continue),
        }
    }

    /// The statistics and duration to report at the end: those of the final statistics
    /// when Borg sent them, otherwise the last running statistics and no duration.
    pub fn finish(self) -> (r: (ArchiveStats, Option<String>))
        ensures
            match self.spec_complete() {
                Some(c) => r.0 == c.stats && r.1 == Some(c.duration),
                None => r.0 == self.spec_stats() && r.1 is None,
            },
    {
        match self.complete {
            Some(c) => (c.stats, Some(c.duration)),
            None => (self.stats, None),
        }
    }
}

/// The closing line of a `borg create` run, from its statistics, its duration if known,
/// and how Borg exited.
pub open spec fn archive_outcome(stats: ArchiveStats, duration: Option<Seq<char>>, result: Result<(), Error>) -> (Seq<char>, Seq<char>) {
    let s = stats_text(stats) + " • "@;
    match result {
        Ok(()) => ("✓"@, s + match duration {
            Some(d) => "Created archive in "@ + d + " seconds"@,
            None => "Created archive"@,
        }),
        Err(Error::ExitCode(c)) => ("✗"@, s + "Borg exited with code "@ + signed_decimal(c as int)),
        Err(Error::Killed) => ("✗"@, s + "Borg terminated abnormally"@),
        Err(Error::Launch(e)) => ("✗"@, s + "Failed to wait for Borg: "@ + e@),
    }
}

/// The closing line of a `borg create` run.
pub fn archive_outcome_notice(stats: &ArchiveStats, duration: &Option<String>, result: &Result<(), Error>) -> (n: Notice)
    ensures
        (n.sigil@, n.text@) == archive_outcome(*stats, match *duration {
            Some(d) => Some(d@),
            None => None,
        }, *result),
{
    let mut t = stats.render();
    t.append(" • ");
    match result {
        Ok(()) => {
            match duration {
                Some(d) => {
                    t.append("Created archive in ");
                    t.append(d.as_str());
                    t.append(" seconds");
                },
                None => {
                    t.append("Created archive");
                },
            }
            notice("✓", t)
        },
        Err(Error::ExitCode(c)) => {
            t.append("Borg exited with code ");
            t.append(signed_decimal_string(*c).as_str());
            notice("✗", t)
        },
        Err(Error::Killed) => {
            t.append("Borg terminated abnormally");
            notice("✗", t)
        },
        Err(Error::Launch(e)) => {
            t.append("Failed to wait for Borg: ");
            t.append(e.as_str());
            notice("✗", t)
        },
    }
}

} // verus!
