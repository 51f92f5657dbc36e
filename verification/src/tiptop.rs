//! Replaying a recorded `borg create --log-json` transcript on a progress bar.

use vstd::prelude::*;

use crate::borg::{human_bytes, human_bytes_text, ArchiveStats};
use crate::text::{owned, text_eq};

verus! {

/// Archive progress as the transcript records it.
#[derive(Debug, PartialEq, Eq)]
pub struct ArchiveProgress {
    pub nfiles: u64,
    pub original_size: u64,
    pub compressed_size: u64,
    pub deduplicated_size: u64,
    pub path: String,
}

impl ArchiveProgress {
    /// The file count shown on the bar.
    pub fn bar_nfiles(&self) -> (n: u64)
        ensures
            n == self.nfiles,
    {
        self.nfiles
    }

    /// The original size shown on the bar.
    pub fn bar_orig(&self) -> (s: String)
        ensures
            s@ == human_bytes_text(self.original_size),
    {
        human_bytes(self.original_size)
    }

    /// The compressed size shown on the bar.
    pub fn bar_comp(&self) -> (s: String)
        ensures
            s@ == human_bytes_text(self.compressed_size),
    {
        human_bytes(self.compressed_size)
    }

    /// The deduplicated size shown on the bar.
    pub fn bar_ddup(&self) -> (s: String)
        ensures
            s@ == human_bytes_text(self.deduplicated_size),
    {
        human_bytes(self.deduplicated_size)
    }

    /// The statistics part of the progress.
    pub fn stats(&self) -> (s: ArchiveStats)
        ensures
            s == (ArchiveStats {
                nfiles: self.nfiles,
                original_size: self.original_size,
                compressed_size: self.compressed_size,
                deduplicated_size: self.deduplicated_size,
            }),
    {
        ArchiveStats {
            nfiles: self.nfiles,
            original_size: self.original_size,
            compressed_size: self.compressed_size,
            deduplicated_size: self.deduplicated_size,
        }
    }
}

/// A logged object of the transcript, by the parts that decide what it is. A missing
/// `type` reads as the empty type.
pub struct RawBorgLog {
    pub msg_type: String,
    /// Whether the `finished` member is `true`.
    pub finished: bool,
    /// The `message` member, when it is a string.
    pub message: Option<String>,
    /// The other members as archive progress, if they make it.
    pub as_archive_progress: Option<ArchiveProgress>,
}

/// An event of the transcript.
#[derive(Debug, PartialEq, Eq)]
pub enum BorgEvent {
    ArchiveProgress(ArchiveProgress),
    ArchiveFinished,
    ProgressMessage(String),
    Unknown,
}

/// Whether a logged object reports running archive progress.
pub open spec fn is_running_archive_progress(raw: RawBorgLog) -> bool {
    raw.msg_type@ == "archive_progress"@ && !raw.finished
}

/// The event that a logged object stands for.
pub open spec fn borg_event_of(raw: RawBorgLog) -> BorgEvent {
    if raw.msg_type@ == "archive_progress"@ {
        if raw.finished {
            BorgEvent::ArchiveFinished
        } else {
            BorgEvent::ArchiveProgress(raw.as_archive_progress.unwrap())
        }
    } else if raw.msg_type@ == "progress_message"@ {
        BorgEvent::ProgressMessage(arbitrary())
    } else {
        BorgEvent::Unknown
    }
}

impl BorgEvent {
    /// Classifies a logged object. Running archive progress must read as such: a
    /// transcript where it does not is refused.
    pub fn from_raw(raw: RawBorgLog) -> (e: BorgEvent)
        requires
            is_running_archive_progress(raw) ==> raw.as_archive_progress is Some,
        ensures
            !(raw.msg_type@ == "progress_message"@) ==> e == borg_event_of(raw),
            raw.msg_type@ == "progress_message"@ ==> (e matches BorgEvent::ProgressMessage(m) && (
            match raw.message {
                Some(s) => m == s,
                None => m@.len() == 0,
            })),
    {
        proof {
            reveal_strlit("archive_progress");
            reveal_strlit("progress_message");
            assert("archive_progress"@[0] != "progress_message"@[0]);
            assert("archive_progress"@ != "progress_message"@);
        }
        if text_eq(raw.msg_type.as_str(), "archive_progress") {
            if raw.finished {
                BorgEvent::ArchiveFinished
            } else {
                BorgEvent::ArchiveProgress(raw.as_archive_progress.unwrap())
            }
        } else if text_eq(raw.msg_type.as_str(), "progress_message") {
            match raw.message {
                Some(s) => BorgEvent::ProgressMessage(s),
                None => BorgEvent::ProgressMessage(String::new()),
            }
        } else {
            BorgEvent::Unknown
        }
    }

    /// What the event changes on the bar: the statistics to show, if new ones came, and the
    /// message, unless it is empty.
    pub fn on_bar(self) -> (r: (Option<ArchiveStats>, Option<String>))
        ensures
            match self {
                BorgEvent::Unknown => r.0 is None && (r.1 matches Some(m) && m@ == "Doing some stuff..."@),
                BorgEvent::ArchiveFinished => r.0 is None && (r.1 matches Some(m) && m@
                    == "Finished archiving files."@),
                BorgEvent::ProgressMessage(m) => r.0 is None && if m@.len() == 0 {
                    r.1 is None
                } else {
                    r.1 == Some(m)
                },
                BorgEvent::ArchiveProgress(p) => r.0 == Some(
                    ArchiveStats {
                        nfiles: p.nfiles,
                        original_size: p.original_size,
                        compressed_size: p.compressed_size,
                        deduplicated_size: p.deduplicated_size,
                    },
                ) && if p.path@.len() == 0 {
                    r.1 is None
                } else {
                    r.1 == Some(p.path)
                },
            },
    {
        match self {
            BorgEvent::Unknown => (None, Some(owned("Doing some stuff..."))),
            BorgEvent::ArchiveFinished => (None, Some(owned("Finished archiving files."))),
            BorgEvent::ProgressMessage(m) => {
                if m.as_str().is_empty() {
                    (None, None)
                } else {
                    (None, Some(m))
                }
            },
            BorgEvent::ArchiveProgress(p) => {
                let stats = p.stats();
                if p.path.as_str().is_empty() {
                    (Some(stats), None)
                } else {
                    (Some(stats), Some(p.path))
                }
            },
        }
    }
}


/// A logged object of type `archive_progress` whose `finished` member is true is the end
/// of archiving, whatever its other members read as; one that is not finished is the
/// progress that its members make.
pub proof fn law_finished_archive_ends_it(raw: RawBorgLog)
    ensures
        raw.msg_type@ == "archive_progress"@ && raw.finished ==> borg_event_of(raw)
            == BorgEvent::ArchiveFinished,
        raw.msg_type@ == "archive_progress"@ && !raw.finished ==> (raw.as_archive_progress matches Some(p)
            ==> borg_event_of(raw) == BorgEvent::ArchiveProgress(p)),
        raw.msg_type@ != "archive_progress"@ ==> !(borg_event_of(raw) is ArchiveFinished)
            && !(borg_event_of(raw) is ArchiveProgress),
{
}

} // verus!
