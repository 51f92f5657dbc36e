//! Creating archives: the `borg create` command line, following each repository's run, and
//! summarising the statistics of all of them.

use vstd::prelude::*;

use crate::borg::{human_bytes, human_bytes_text, stats_text, ArchiveComplete, ArchiveStats, Event, Progress};
use crate::progress::{ops_view, BarOp, Report, StyleKind};
use crate::reporting::{json_error_text, refresh_ops, same_but_once, same_identity, unrecognized_text, Flow, RepoReporterState};
use crate::text::{decimal, notice, owned, push_decimal, Notice};

verus! {

/// How the home directory is snapshotted before it is archived.
#[derive(Clone, Copy, PartialEq, Eq, Structural, Debug)]
pub enum DriverKind {
    /// A mounted APFS snapshot (on Apple systems).
    Apfs,
    /// No snapshot: the live home directory.
    Live,
}

impl DriverKind {
    /// The default driver: APFS where it is available, none otherwise.
    pub fn default_for(apfs_available: bool) -> (k: DriverKind)
        ensures
            k == if apfs_available {
                DriverKind::Apfs
            } else {
                DriverKind::Live
            },
    {
        if apfs_available {
            DriverKind::Apfs
        } else {
            DriverKind::Live
        }
    }

    /// The name under which the driver is chosen on the command line.
    pub fn name(&self) -> (s: &'static str)
        ensures
            s@ == match *self {
                DriverKind::Apfs => "apfs"@,
                DriverKind::Live => "none"@,
            },
    {
        match self {
            DriverKind::Apfs => "apfs",
            DriverKind::Live => "none",
        }
    }
}

/// The archive to create: the repository, `::`, and the time in seconds since the epoch.
pub open spec fn backup_spec_text(repo: Seq<char>, secs: u64) -> Seq<char> {
    repo + "::"@ + decimal(secs as nat)
}

/// The archive to create in a repository at a time.
pub fn backup_spec(repo: &str, secs: u64) -> (s: String)
    ensures
        s@ == backup_spec_text(repo@, secs),
{
    let mut s = owned(repo);
    s.append("::");
    push_decimal(&mut s, secs);
    s
}

/// The text views of a command line.
pub open spec fn string_words(v: Seq<String>) -> Seq<Seq<char>> {
    v.map_values(|w: String| w@)
}

/// The options of `borg create` before the output options.
pub open spec fn create_options() -> Seq<Seq<char>> {
    seq![
        "borg"@,
        "create"@,
        "--exclude-from=.borg-excludes"@,
        "--exclude-caches"@,
        "--compression=auto,zstd,19"@,
        "--progress"@,
    ]
}

/// Builds a command line from words.
fn words_to_strings(words: &[&str]) -> (v: Vec<String>)
    ensures
        string_words(v@) == words@.map_values(|w: &str| w@),
{
    let mut v: Vec<String> = Vec::new();
    let mut i: usize = 0;
    while i < words.len()
        invariant
            i <= words@.len(),
            string_words(v@) == words@.map_values(|w: &str| w@).take(i as int),
        decreases words@.len() - i,
    {
        let ghost before = string_words(v@);
        v.push(owned(words[i]));
        assert(string_words(v@) =~= before.push(words@[i as int]@));
        assert(words@.map_values(|w: &str| w@).take(i + 1) =~= words@.map_values(|w: &str| w@).take(
            i as int,
        ).push(words@[i as int]@));
        i = i + 1;
    }
    assert(words@.map_values(|w: &str| w@).take(words@.len() as int) =~= words@.map_values(
        |w: &str| w@,
    ));
    v
}

/// `borg create` with human-readable progress and final statistics, archiving the current
/// directory.
pub fn create_cmdline(backup_spec: String) -> (cmd: Vec<String>)
    ensures
        string_words(cmd@) == create_options() + seq!["--stats"@, backup_spec@, "."@],
{
    let w: Vec<&str> = vec![
        "borg",
        "create",
        "--exclude-from=.borg-excludes",
        "--exclude-caches",
        "--compression=auto,zstd,19",
        "--progress",
        "--stats",
    ];
    let mut cmd = words_to_strings(w.as_slice());
    let ghost base = string_words(cmd@);
    assert(base =~= create_options() + seq!["--stats"@]);
    let ghost s = backup_spec@;
    cmd.push(backup_spec);
    cmd.push(owned("."));
    assert(string_words(cmd@) =~= base.push(s).push("."@));
    assert(string_words(cmd@) =~= create_options() + seq!["--stats"@, s, "."@]);
    cmd
}

/// `borg create` reporting in JSON, archiving the current directory.
pub fn create_json_cmdline(backup_spec: String) -> (cmd: Vec<String>)
    ensures
        string_words(cmd@) == create_options() + seq!["--log-json"@, "--json"@, backup_spec@, "."@],
{
    let w: Vec<&str> = vec![
        "borg",
        "create",
        "--exclude-from=.borg-excludes",
        "--exclude-caches",
        "--compression=auto,zstd,19",
        "--progress",
        "--log-json",
        "--json",
    ];
    let mut cmd = words_to_strings(w.as_slice());
    let ghost base = string_words(cmd@);
    assert(base =~= create_options() + seq!["--log-json"@, "--json"@]);
    let ghost s = backup_spec@;
    cmd.push(backup_spec);
    cmd.push(owned("."));
    assert(string_words(cmd@) =~= base.push(s).push("."@));
    assert(string_words(cmd@) =~= create_options() + seq!["--log-json"@, "--json"@, s, "."@]);
    cmd
}

/// The largest file count among some statistics; 0 when there are none.
pub open spec fn max_nfiles(s: Seq<ArchiveStats>) -> u64
    decreases s.len(),
{
    if s.len() == 0 {
        0
    } else if s.last().nfiles >= max_nfiles(s.drop_last()) {
        s.last().nfiles
    } else {
        max_nfiles(s.drop_last())
    }
}

/// The largest original size among some statistics; 0 when there are none.
pub open spec fn max_size(s: Seq<ArchiveStats>) -> u64
    decreases s.len(),
{
    if s.len() == 0 {
        0
    } else if s.last().original_size >= max_size(s.drop_last()) {
        s.last().original_size
    } else {
        max_size(s.drop_last())
    }
}

/// How the statistics of all repositories are summarised: the largest original size in
/// the largest number of files, or just `files` while both are zero.
pub open spec fn summary_text(s: Seq<ArchiveStats>) -> Seq<char> {
    if max_nfiles(s) == 0 && max_size(s) == 0 {
        "files"@
    } else {
        human_bytes_text(max_size(s)) + " in "@ + decimal(max_nfiles(s) as nat) + " file"@ + if max_nfiles(s) == 1 {
            ""@
        } else {
            "s"@
        }
    }
}

/// The statistics of several repositories, summarised by their largest values.
pub struct ArchiveStatsSummary<'s>(pub &'s [ArchiveStats]);

impl<'s> ArchiveStatsSummary<'s> {
    /// The summary as it is displayed, such as `18.35 GiB in 267561 files`.
    pub fn render(&self) -> (t: String)
        ensures
            t@ == summary_text(self.0@),
    {
        let all = self.0;
        let mut n: u64 = 0;
        let mut size: u64 = 0;
        let mut i: usize = 0;
        while i < all.len()
            invariant
                i <= all@.len(),
                n == max_nfiles(all@.take(i as int)),
                size == max_size(all@.take(i as int)),
            decreases all@.len() - i,
        {
            assert(all@.take(i + 1).drop_last() =~= all@.take(i as int));
            if all[i].nfiles >= n {
                n = all[i].nfiles;
            }
            if all[i].original_size >= size {
                size = all[i].original_size;
            }
            i = i + 1;
        }
        assert(all@.take(all@.len() as int) =~= all@);
        if n == 0 && size == 0 {
            owned("files")
        } else {
            let mut t = human_bytes(size);
            t.append(" in ");
            push_decimal(&mut t, n);
            t.append(" file");
            if n != 1 {
                t.append("s");
            }
            proof {
                reveal_strlit("");
                assert(t@ + ""@ =~= t@);
            }
            t
        }
    }
}

/// The header shown while archiving is under way.
pub struct ArchiveStatsSummaryRunning(pub Vec<ArchiveStats>);

impl ArchiveStatsSummaryRunning {
    /// The header as it is displayed, such as `Archiving 18.35 GiB in 267561 files…`.
    pub fn render(&self) -> (t: String)
        ensures
            t@ == "Archiving "@ + summary_text(self.0@) + "…"@,
    {
        let mut t = owned("Archiving ");
        t.append(ArchiveStatsSummary(self.0.as_slice()).render().as_str());
        t.append("…");
        t
    }
}

/// The statistics of one repository, shown beside its name.
pub struct ArchiveStatsDisplay(pub ArchiveStats);

impl ArchiveStatsDisplay {
    /// The statistics as they are displayed.
    pub fn render(&self) -> (t: String)
        ensures
            t@ == stats_text(self.0),
    {
        self.0.render()
    }
}

/// The closing header once every repository has been archived.
pub fn archived_message(all: &[ArchiveStats]) -> (t: String)
    ensures
        t@ == "Archived "@ + summary_text(all@) + "."@,
{
    let mut t = owned("Archived ");
    t.append(ArchiveStatsSummary(all).render().as_str());
    t.append(".");
    t
}

/// The closing header when some repository failed.
pub fn archive_failed_message() -> (t: String)
    ensures
        t@ == "Failed to archive to all repos."@,
{
    owned("Failed to archive to all repos.")
}

/// The closing message of a repository whose archive was created, with its duration when
/// it is known.
pub fn created_archive_message(duration: &Option<String>) -> (t: String)
    ensures
        t@ == "Created archive"@ + match *duration {
            Some(d) => " in "@ + d@ + " seconds"@,
            None => Seq::empty(),
        },
{
    let mut t = owned("Created archive");
    match duration {
        Some(d) => {
            t.append(" in ");
            t.append(d.as_str());
            t.append(" seconds");
        },
        None => {},
    }
    t
}

/// What to do for one event of `borg create` on one of several repositories: bar
/// operations, new statistics to show, a line to print, and whether to keep reading.
pub struct TaskStep {
    pub ops: Vec<BarOp>,
    pub stats: Option<ArchiveStats>,
    pub print: Option<Notice>,
    pub flow: Flow,
}

/// The run of `borg create` on one repository: the final statistics once Borg sent them.
/// The repository's line is the caller's, and each step is shown on it.
pub struct ArchiveTask {
    complete: Option<ArchiveComplete>,
}

impl ArchiveTask {
    pub closed spec fn spec_complete(&self) -> Option<ArchiveComplete> {
        self.complete
    }

    /// A run that has received no final statistics yet.
    pub fn new() -> (t: ArchiveTask)
        ensures
            t.spec_complete() is None,
    {
        ArchiveTask { complete: None }
    }

    /// Deals with one event: messages and paths go to the line, running statistics are
    /// passed on, the final statistics are kept, log messages are printed, and the rest is
    /// handled as any unhandled event.
    pub fn step(&mut self, reporter: &mut RepoReporterState, event: Result<Event, String>) -> (s: TaskStep)
        ensures
            match event {
                Ok(Event::ProgressMessage(m)) => {
                    &&& final(reporter).spec_report() == Report::Message(m)
                    &&& ops_view(s.ops@) == refresh_ops(
                        old(reporter).spec_current_style(),
                        Report::Message(m),
                        old(reporter).spec_sigil(),
                        old(reporter).spec_header_blank(),
                    )
                    &&& final(reporter).spec_current_style() == Some(StyleKind::Message)
                    &&& same_identity(*final(reporter), *old(reporter))
                    &&& final(self).spec_complete() == old(self).spec_complete()
                    &&& s.stats is None && s.print is None && s.flow == Flow::Continue
                },
                Ok(Event::ArchiveProgress(Progress::Finished)) => {
                    &&& final(reporter).spec_report() matches Report::Message(m) && m@
                        == "Finished archiving files"@
                    &&& ops_view(s.ops@) == refresh_ops(
                        old(reporter).spec_current_style(),
                        final(reporter).spec_report(),
                        old(reporter).spec_sigil(),
                        old(reporter).spec_header_blank(),
                    )
                    &&& final(reporter).spec_current_style() == Some(StyleKind::Message)
                    &&& same_identity(*final(reporter), *old(reporter))
                    &&& final(self).spec_complete() == old(self).spec_complete()
                    &&& s.stats is None && s.print is None && s.flow == Flow::Continue
                },
                Ok(Event::ArchiveProgress(Progress::Running(p))) => {
                    &&& final(reporter).spec_report() == Report::Message(p.path)
                    &&& ops_view(s.ops@) == refresh_ops(
                        old(reporter).spec_current_style(),
                        Report::Message(p.path),
                        old(reporter).spec_sigil(),
                        old(reporter).spec_header_blank(),
                    )
                    &&& final(reporter).spec_current_style() == Some(StyleKind::Message)
                    &&& same_identity(*final(reporter), *old(reporter))
                    &&& final(self).spec_complete() == old(self).spec_complete()
                    &&& s.stats == Some(p.stats)
                    &&& s.print is None && s.flow == Flow::Continue
                },
                Ok(Event::ArchiveComplete(c)) => {
                    &&& final(self).spec_complete() == Some(c)
                    &&& *final(reporter) == *old(reporter)
                    &&& s.ops@.len() == 0 && s.stats is None && s.print is None && s.flow
                        == Flow::Continue
                },
                Ok(Event::LogMessage(m)) => {
                    &&& s.print matches Some(n) && n.sigil@ == "⚑"@ && n.text == m.message
                    &&& *final(reporter) == *old(reporter)
                    &&& final(self).spec_complete() == old(self).spec_complete()
                    &&& s.ops@.len() == 0 && s.stats is None && s.flow == Flow::Continue
                },
                Ok(Event::Unknown(ty)) => {
                    &&& s.ops@.len() == 0 && s.stats is None && s.flow == Flow::Continue
                    &&& !old(reporter).spec_did_once() ==> (s.print matches Some(n) && n.sigil@
                        == "⚑"@ && n.text@ == unrecognized_text(ty))
                    &&& old(reporter).spec_did_once() ==> s.print is None
                    &&& final(reporter).spec_did_once()
                    &&& same_but_once(*final(reporter), *old(reporter))
                    &&& final(self).spec_complete() == old(self).spec_complete()
                },
                Err(e) => {
                    &&& s.ops@.len() == 0 && s.stats is None && s.flow == Flow::Break
                    &&& s.print matches Some(n) && n.sigil@ == "⚑"@ && n.text@ == json_error_text(
                        e@,
                    )
                    &&& *final(reporter) == *old(reporter)
                    &&& final(self).spec_complete() == old(self).spec_complete()
                },
                _ => {
                    &&& s.ops@.len() == 0 && s.stats is None && s.print is None && s.flow
                        == Flow::Continue
                    &&& *final(reporter) == *old(reporter)
                    &&& final(self).spec_complete() == old(self).spec_complete()
                },
            },
    {
        match event {
            Ok(Event::ProgressMessage(m)) => {
                let ops = reporter.post_message(m);
                TaskStep { ops, stats: None, print: None, flow: Flow::Continue }
            },
            Ok(Event::ArchiveProgress(Progress::Finished)) => {
                let ops = reporter.post_message(owned("Finished archiving files"));
                TaskStep { ops, stats: None, print: None, flow: Flow::Continue }
            },
            Ok(Event::ArchiveProgress(Progress::Running(p))) => {
                let ops = reporter.post_message(p.path);
                TaskStep { ops, stats: Some(p.stats), print: None, flow: Flow::Continue }
            },
            Ok(Event::ArchiveComplete(c)) => {
                self.complete = Some(c);
                TaskStep { ops: Vec::new(), stats: None, print: None, flow: Flow::Continue }
            },
            Ok(Event::LogMessage(m)) => TaskStep {
                ops: Vec::new(),
                stats: None,
                print: Some(notice("⚑", m.message)),
                flow: Flow::Continue,
            },
            other => {
                let h = reporter.post_unhandled_event(&other);
                TaskStep { ops: Vec::new(), stats: None, print: h.print, flow: h.flow }
            },
        }
    }

    /// The final statistics and duration, when Borg sent them.
    pub fn finish(self) -> (r: Option<(ArchiveStats, String)>)
        ensures
            match self.spec_complete() {
                Some(c) => r == Some((c.stats, c.duration)),
                None => r is None,
            },
    {
        match self.complete {
            Some(c) => Some((c.stats, c.duration)),
            None => None,
        }
    }
}

} // verus!

verus! {

/// The summary reports the largest file count and the largest original size among the
/// repositories: none is larger, and, when there are any, some repository has each.
pub proof fn law_summary_is_largest(s: Seq<ArchiveStats>)
    ensures
        forall|i: int| 0 <= i < s.len() ==> (#[trigger] s[i]).nfiles <= max_nfiles(s) && s[i].original_size
            <= max_size(s),
        s.len() > 0 ==> exists|i: int| 0 <= i < s.len() && (#[trigger] s[i]).nfiles == max_nfiles(s),
        s.len() > 0 ==> exists|i: int| 0 <= i < s.len() && (#[trigger] s[i]).original_size == max_size(s),
        s.len() == 0 ==> max_nfiles(s) == 0 && max_size(s) == 0,
    decreases s.len(),
{
    if s.len() > 0 {
        let p = s.drop_last();
        law_summary_is_largest(p);
        assert forall|i: int| 0 <= i < s.len() implies (#[trigger] s[i]).nfiles <= max_nfiles(s)
            && s[i].original_size <= max_size(s) by {
            if i < s.len() - 1 {
                assert(s[i] == p[i]);
            }
        }
        if s.last().nfiles >= max_nfiles(p) {
            assert(s[s.len() - 1].nfiles == max_nfiles(s));
        } else {
            let j = choose|j: int| 0 <= j < p.len() && (#[trigger] p[j]).nfiles == max_nfiles(p);
            assert(s[j] == p[j]);
        }
        if s.last().original_size >= max_size(p) {
            assert(s[s.len() - 1].original_size == max_size(s));
        } else {
            let j = choose|j: int| 0 <= j < p.len() && (#[trigger] p[j]).original_size == max_size(p);
            assert(s[j] == p[j]);
        }
    }
}


/// The summary speaks of one `file` only when the largest file count is exactly 1; for any
/// other count, zero included, it speaks of `files`. When anything was archived, the count
/// it shows is the largest file count, right before the word.
pub proof fn law_summary_plural(s: Seq<ArchiveStats>)
    ensures
        summary_text(s).last() == 's' <==> max_nfiles(s) != 1,
        (max_nfiles(s) != 0 || max_size(s) != 0) ==> (max_nfiles(s) == 1 ==> (" in "@ + decimal(
            max_nfiles(s) as nat,
        ) + " file"@).is_suffix_of(summary_text(s))),
        (max_nfiles(s) != 0 || max_size(s) != 0) ==> (max_nfiles(s) != 1 ==> (" in "@ + decimal(
            max_nfiles(s) as nat,
        ) + " files"@).is_suffix_of(summary_text(s))),
{
    reveal_strlit("files");
    reveal_strlit(" file");
    reveal_strlit(" files");
    reveal_strlit("s");
    reveal_strlit("");
    let n = max_nfiles(s);
    if !(n == 0 && max_size(s) == 0) {
        let head = human_bytes_text(max_size(s)) + " in "@ + decimal(n as nat) + " file"@;
        let tail = " in "@ + decimal(n as nat);
        if n == 1 {
            assert(summary_text(s) =~= head);
            assert(head =~= human_bytes_text(max_size(s)) + (tail + " file"@));
        } else {
            assert(summary_text(s) =~= head + "s"@);
            assert(head + "s"@ =~= human_bytes_text(max_size(s)) + (tail + " files"@));
        }
    }
}

} // verus!
