//! The events that Borg reports in its JSON output, and how raw JSON objects map onto them.

use vstd::prelude::*;

use crate::text::{decimal, owned, push_decimal, text_eq};

verus! {

/// The severity of a Borg log message, in increasing order.
#[derive(Debug, PartialEq, Eq)]
pub enum LogLevel {
    Debug,
    Info,
    Warning,
    Error,
    Critical,
    Other(String),
}

/// The place of a level in the order of severities; any unknown level ranks above the rest.
pub open spec fn level_rank(level: LogLevel) -> nat {
    match level {
        LogLevel::Debug => 0,
        LogLevel::Info => 1,
        LogLevel::Warning => 2,
        LogLevel::Error => 3,
        LogLevel::Critical => 4,
        LogLevel::Other(_) => 5,
    }
}

/// The level that Borg's `levelname` names.
pub open spec fn level_named(name: Seq<char>) -> LogLevel {
    if name == "DEBUG"@ {
        LogLevel::Debug
    } else if name == "INFO"@ {
        LogLevel::Info
    } else if name == "WARNING"@ {
        LogLevel::Warning
    } else if name == "ERROR"@ {
        LogLevel::Error
    } else if name == "CRITICAL"@ {
        LogLevel::Critical
    } else {
        LogLevel::Other(arbitrary())
    }
}

impl LogLevel {
    /// Reads a `levelname`: the upper-case names of the known levels, anything else kept
    /// as it is.
    pub fn from_name(name: &str) -> (level: LogLevel)
        ensures
            level_rank(level) == level_rank(level_named(name@)),
            level matches LogLevel::Other(s) ==> s@ == name@,
            !(level is Other) ==> level == level_named(name@),
    {
        if text_eq(name, "DEBUG") {
            LogLevel::Debug
        } else if text_eq(name, "INFO") {
            LogLevel::Info
        } else if text_eq(name, "WARNING") {
            LogLevel::Warning
        } else if text_eq(name, "ERROR") {
            LogLevel::Error
        } else if text_eq(name, "CRITICAL") {
            LogLevel::Critical
        } else {
            LogLevel::Other(owned(name))
        }
    }

    /// Whether the level is a warning or anything more severe.
    pub fn is_warning_or_worse(&self) -> (r: bool)
        ensures
            r <==> level_rank(*self) >= level_rank(LogLevel::Warning),
    {
        match self {
            LogLevel::Debug | LogLevel::Info => false,
            _ => true,
        }
    }
}

/// A log message from Borg.
#[derive(Debug, PartialEq, Eq)]
pub struct LogMessage {
    pub level: LogLevel,
    pub message: String,
}

/// A progress report that is either still running or finished.
#[derive(Debug, PartialEq, Eq)]
pub enum Progress<T> {
    Finished,
    Running(T),
}

/// A step-wise progress report.
#[derive(Debug, PartialEq, Eq)]
pub struct ProgressPercent {
    pub current: u64,
    pub total: u64,
    pub message: String,
}

/// Statistics about the files archived so far.
#[derive(Clone, Copy, Debug, PartialEq, Eq, Structural)]
pub struct ArchiveStats {
    pub nfiles: u64,
    pub original_size: u64,
    pub compressed_size: u64,
    pub deduplicated_size: u64,
}

impl ArchiveStats {
    /// No files, and all sizes zero.
    pub open spec fn default_spec() -> ArchiveStats {
        ArchiveStats { nfiles: 0, original_size: 0, compressed_size: 0, deduplicated_size: 0 }
    }
}

impl Default for ArchiveStats {
    fn default() -> (s: ArchiveStats)
        ensures
            s == ArchiveStats::default_spec(),
    {
        ArchiveStats { nfiles: 0, original_size: 0, compressed_size: 0, deduplicated_size: 0 }
    }
}

/// Progress of the archiving of files.
#[derive(Debug, PartialEq, Eq)]
pub struct ArchiveProgress {
    pub path: String,
    pub stats: ArchiveStats,
}

/// The final statistics of a created archive.
#[derive(Debug, PartialEq, Eq)]
pub struct ArchiveComplete {
    /// The time the archive took, in seconds, as it is displayed.
    pub duration: String,
    pub stats: ArchiveStats,
}

/// An event in Borg's JSON output.
#[derive(Debug, PartialEq, Eq)]
pub enum Event {
    Blank,
    LogMessage(LogMessage),
    ProgressMessage(String),
    ProgressPercent(Progress<ProgressPercent>),
    ArchiveProgress(Progress<ArchiveProgress>),
    ArchiveComplete(ArchiveComplete),
    Unknown(Option<String>),
}

/// A JSON object that Borg writes, by the parts of it that decide which event it is.
#[derive(Debug, PartialEq, Eq)]
pub enum Raw {
    /// An object with a `type` member.
    Typed(TypedRaw),
    /// The statistics object that `borg create --json` writes at the end.
    CreateStats(ArchiveComplete),
    /// Any other JSON value.
    Unknown,
}

/// An object with a `type` member. The other members, read as each kind of event where
/// they can be, are carried alongside.
#[derive(Debug, PartialEq, Eq)]
pub struct TypedRaw {
    pub msg_type: String,
    /// The `message` member, when it is a string.
    pub message: Option<String>,
    /// Whether the `finished` member is `true`.
    pub finished: bool,
    /// The other members as a log message, if they make one.
    pub as_log_message: Option<LogMessage>,
    /// The other members as a progress percentage, if they make one.
    pub as_progress_percent: Option<ProgressPercent>,
    /// The other members as archive progress, if they make it.
    pub as_archive_progress: Option<ArchiveProgress>,
}

/// Whether the `message` member is a non-empty string.
pub open spec fn has_message(raw: TypedRaw) -> bool {
    raw.message matches Some(m) && m@.len() > 0
}

/// The running progress that the members make, or the unknown event of the object's type.
pub open spec fn progress_event<T>(
    finished: bool,
    parsed: Option<T>,
    msg_type: String,
    wrap: spec_fn(Progress<T>) -> Event,
) -> Event {
    if finished {
        wrap(Progress::Finished)
    } else {
        match parsed {
            Some(p) => wrap(Progress::Running(p)),
            None => Event::Unknown(Some(msg_type)),
        }
    }
}

/// The event that a raw JSON object stands for.
pub open spec fn event_of(raw: Raw) -> Event {
    match raw {
        Raw::Unknown => Event::Unknown(None),
        Raw::CreateStats(stats) => Event::ArchiveComplete(stats),
        Raw::Typed(t) => {
            if t.msg_type@ == "log_message"@ {
                if !has_message(t) {
                    Event::Blank
                } else {
                    match t.as_log_message {
                        Some(m) => Event::LogMessage(m),
                        None => Event::Unknown(Some(t.msg_type)),
                    }
                }
            } else if t.msg_type@ == "progress_message"@ {
                if !has_message(t) {
                    Event::Blank
                } else {
                    Event::ProgressMessage(t.message.unwrap())
                }
            } else if t.msg_type@ == "progress_percent"@ {
                progress_event(
                    t.finished,
                    t.as_progress_percent,
                    t.msg_type,
                    |p: Progress<ProgressPercent>| Event::ProgressPercent(p),
                )
            } else if t.msg_type@ == "archive_progress"@ {
                progress_event(
                    t.finished,
                    t.as_archive_progress,
                    t.msg_type,
                    |p: Progress<ArchiveProgress>| Event::ArchiveProgress(p),
                )
            } else {
                Event::Unknown(Some(t.msg_type))
            }
        },
    }
}

impl TypedRaw {
    /// The `message` member, when it is a non-empty string.
    pub fn message(&self) -> (m: Option<&String>)
        ensures
            m is Some <==> has_message(*self),
            m matches Some(s) ==> Some(*s) == self.message,
    {
        match &self.message {
            Some(s) => {
                if s.as_str().is_empty() {
                    None
                } else {
                    Some(s)
                }
            },
            None => None,
        }
    }
}

impl Event {
    /// Classifies a raw JSON object from Borg.
    pub fn from_raw(raw: Raw) -> (e: Event)
        ensures
            e == event_of(raw),
    {
        match raw {
            Raw::Unknown => Event::Unknown(None),
            Raw::CreateStats(stats) => Event::ArchiveComplete(stats),
            Raw::Typed(t) => {
                let has_msg = t.message().is_some();
                if text_eq(t.msg_type.as_str(), "log_message") {
                    if !has_msg {
                        Event::Blank
                    } else {
                        match t.as_log_message {
                            Some(m) => Event::LogMessage(m),
                            None => Event::Unknown(Some(t.msg_type)),
                        }
                    }
                } else if text_eq(t.msg_type.as_str(), "progress_message") {
                    if !has_msg {
                        Event::Blank
                    } else {
                        Event::ProgressMessage(t.message.unwrap())
                    }
                } else if text_eq(t.msg_type.as_str(), "progress_percent") {
                    if t.finished {
                        Event::ProgressPercent(Progress::Finished)
                    } else {
                        match t.as_progress_percent {
                            Some(p) => Event::ProgressPercent(Progress::Running(p)),
                            None => Event::Unknown(Some(t.msg_type)),
                        }
                    }
                } else if text_eq(t.msg_type.as_str(), "archive_progress") {
                    if t.finished {
                        Event::ArchiveProgress(Progress::Finished)
                    } else {
                        match t.as_archive_progress {
                            Some(p) => Event::ArchiveProgress(Progress::Running(p)),
                            None => Event::Unknown(Some(t.msg_type)),
                        }
                    }
                } else {
                    Event::Unknown(Some(t.msg_type))
                }
            },
        }
    }
}

/// What `indicatif::HumanBytes` displays for a number of bytes.
pub uninterp spec fn human_bytes_text(n: u64) -> Seq<char>;

/// Displays a byte count with binary prefixes, through `indicatif::HumanBytes`.
///
/// Trusted: the text is the one that `HumanBytes` displays for `n`. Below 1024 no prefix
/// applies, and `HumanBytes` writes the count itself followed by ` B`.
#[verifier::external_body]
pub(crate) fn human_bytes(n: u64) -> (s: String)
    ensures
        s@ == human_bytes_text(n),
        n < 1024 ==> s@ == decimal(n as nat) + " B"@,
{
    format!("{}", indicatif::HumanBytes(n))
}

/// How archive statistics are displayed: files, original, compressed and deduplicated sizes.
pub open spec fn stats_text(s: ArchiveStats) -> Seq<char> {
    decimal(s.nfiles as nat) + " N "@ + human_bytes_text(s.original_size) + " S "@
        + human_bytes_text(s.compressed_size) + " C "@ + human_bytes_text(s.deduplicated_size)
        + " D"@
}

impl ArchiveStats {
    /// The statistics as they are displayed, such as `267561 N 18.35 GiB S 11.62 GiB C 22.74 MiB D`.
    pub fn render(&self) -> (s: String)
        ensures
            s@ == stats_text(*self),
    {
        let mut s = String::new();
        push_decimal(&mut s, self.nfiles);
        s.append(" N ");
        s.append(human_bytes(self.original_size).as_str());
        s.append(" S ");
        s.append(human_bytes(self.compressed_size).as_str());
        s.append(" C ");
        s.append(human_bytes(self.deduplicated_size).as_str());
        s.append(" D");
        s
    }
}


/// The type names of Borg's events are all different from one another.
proof fn lemma_type_names_differ()
    ensures
        "archive_progress"@ != "log_message"@,
        "archive_progress"@ != "progress_message"@,
        "archive_progress"@ != "progress_percent"@,
        "progress_percent"@ != "log_message"@,
        "progress_percent"@ != "progress_message"@,
{
    reveal_strlit("archive_progress");
    reveal_strlit("log_message");
    reveal_strlit("progress_message");
    reveal_strlit("progress_percent");
    assert("archive_progress"@.len() != "log_message"@.len());
    assert("archive_progress"@[0] != "progress_message"@[0]);
    assert("archive_progress"@[0] != "progress_percent"@[0]);
    assert("progress_percent"@.len() != "log_message"@.len());
    assert("progress_percent"@[9] != "progress_message"@[9]);
}

/// A progress object whose `finished` member is true is the end of that progress, whatever
/// its other members read as; one that is not finished is the running progress its members
/// make, or an unknown event of its type when they make none.
pub proof fn law_finished_progress_ends_it(t: TypedRaw)
    ensures
        t.msg_type@ == "archive_progress"@ && t.finished ==> event_of(Raw::Typed(t))
            == Event::ArchiveProgress(Progress::Finished),
        t.msg_type@ == "progress_percent"@ && t.finished ==> event_of(Raw::Typed(t))
            == Event::ProgressPercent(Progress::Finished),
        t.msg_type@ == "archive_progress"@ && !t.finished ==> event_of(Raw::Typed(t)) == match t.as_archive_progress {
            Some(p) => Event::ArchiveProgress(Progress::Running(p)),
            None => Event::Unknown(Some(t.msg_type)),
        },
        t.msg_type@ == "progress_percent"@ && !t.finished ==> event_of(Raw::Typed(t)) == match t.as_progress_percent {
            Some(p) => Event::ProgressPercent(Progress::Running(p)),
            None => Event::Unknown(Some(t.msg_type)),
        },
{
    lemma_type_names_differ();
}

} // verus!
