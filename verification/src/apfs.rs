//! Snapshotting the home directory with APFS: the commands that make, mount and remove a
//! Time Machine snapshot, and reading the snapshot's date from `tmutil`.

use vstd::prelude::*;
use vstd::string::*;
use vstd::utf8::*;

use crate::child::{error_text, Child, ChildView, Error};
use crate::config::{join_path, path_join};
use crate::text::{
    chars_of, decimal, has_prefix_at, inclusive_lines, line_ends, line_start, lines_end_at, owned,
    push_char, push_decimal, utf8_text,
};

verus! {

/// A line without its line ending, as `str::lines` yields it: a final `\n` is removed, and
/// then a `\r` before it.
pub open spec fn line_text(l: Seq<char>) -> Seq<char> {
    let a = if l.len() > 0 && l.last() == '\n' {
        l.drop_last()
    } else {
        l
    };
    if l.len() > 0 && l.last() == '\n' && a.len() > 0 && a.last() == '\r' {
        a.drop_last()
    } else {
        a
    }
}

/// The text after `prefix` in the first of `lines` that starts with it.
pub open spec fn first_after_prefix(lines: Seq<Seq<char>>, prefix: Seq<char>) -> Option<Seq<char>>
    decreases lines.len(),
{
    if lines.len() == 0 {
        None
    } else if prefix.is_prefix_of(line_text(lines[0])) {
        Some(line_text(lines[0]).skip(prefix.len() as int))
    } else {
        first_after_prefix(lines.drop_first(), prefix)
    }
}

/// The line with which `tmutil localsnapshot` reports the date of the snapshot it made.
pub open spec fn snapshot_date_prefix() -> Seq<char> {
    "Created local snapshot with date: "@
}

/// The snapshot date that `tmutil localsnapshot` reported on its standard output: the
/// rest of the first line that begins with the report, if the output is UTF-8 text.
pub open spec fn snapshot_date_in(stdout: Seq<u8>) -> Option<Seq<char>> {
    if valid_utf8(stdout) {
        first_after_prefix(inclusive_lines(decode_utf8(stdout)), snapshot_date_prefix())
    } else {
        None
    }
}

/// Reading `first_after_prefix` from a later line on.
proof fn lemma_first_after_prefix_skip(lines: Seq<Seq<char>>, prefix: Seq<char>, k: int)
    requires
        0 <= k <= lines.len(),
        forall|j: int| 0 <= j < k ==> !prefix.is_prefix_of(line_text(#[trigger] lines[j])),
    ensures
        first_after_prefix(lines, prefix) == first_after_prefix(lines.skip(k), prefix),
    decreases k,
{
    if k > 0 {
        assert(lines.skip(k) =~= lines.drop_first().skip(k - 1));
        assert forall|j: int| 0 <= j < k - 1 implies !prefix.is_prefix_of(
            line_text(#[trigger] lines.drop_first()[j]),
        ) by {
            assert(lines.drop_first()[j] == lines[j + 1]);
        }
        lemma_first_after_prefix_skip(lines.drop_first(), prefix, k - 1);
    } else {
        assert(lines.skip(0) =~= lines);
    }
}

/// Finds the snapshot date in the standard output of `tmutil localsnapshot`.
pub fn local_snapshot_date(stdout: &[u8]) -> (date: Option<String>)
    ensures
        match date {
            Some(d) => snapshot_date_in(stdout@) == Some(d@),
            None => snapshot_date_in(stdout@) is None,
        },
{
    let text = match utf8_text(stdout) {
        Some(t) => t,
        None => {
            return None;
        },
    };
    proof {
        encode_utf8_decode_utf8(text@);
    }
    let chars = chars_of(text);
    let ghost s = chars@;
    assert(s == decode_utf8(stdout@));
    let ends = line_ends(&chars);
    let ghost lines = inclusive_lines(s);
    assert(lines_end_at(s, ends@, lines));
    let prefix = chars_of("Created local snapshot with date: ");
    let n = ends.len();
    let mut i: usize = 0;
    while i < n
        invariant
            n == ends@.len() == lines.len(),
            lines == inclusive_lines(s),
            s == chars@,
            valid_utf8(stdout@),
            s == decode_utf8(stdout@),
            prefix@ == snapshot_date_prefix(),
            i <= n,
            lines_end_at(s, ends@, lines),
            forall|j: int|
                0 <= j < i ==> !snapshot_date_prefix().is_prefix_of(line_text(#[trigger] lines[j])),
        decreases n - i,
    {
        let ghost line = lines[i as int];
        let start = if i == 0 { 0 } else { ends[i - 1] };
        let mut end = ends[i];
        if end > start && chars[end - 1] == '\n' {
            end = end - 1;
            if end > start && chars[end - 1] == '\r' {
                end = end - 1;
            }
        }
        assert(line_text(line) =~= s.subrange(start as int, end as int));
        if has_prefix_at(&chars, start, end, &prefix) {
            let mut d = String::new();
            let mut k = start + prefix.len();
            while k < end
                invariant
                    start + prefix@.len() <= k <= end <= s.len(),
                    s == chars@,
                    d@ =~= s.subrange(start + prefix@.len(), k as int),
                decreases end - k,
            {
                push_char(&mut d, chars[k]);
                k = k + 1;
            }
            proof {
                lemma_first_after_prefix_skip(lines, snapshot_date_prefix(), i as int);
                assert(lines.skip(i as int)[0] == line);
                assert(lines.skip(i as int).len() > 0);
                assert(snapshot_date_prefix().is_prefix_of(line_text(line)));
                assert(line_text(line).skip(prefix@.len() as int) =~= d@);
                assert(first_after_prefix(lines.skip(i as int), snapshot_date_prefix()) == Some(d@));
            }
            return Some(d);
        }
        i = i + 1;
    }
    proof {
        lemma_first_after_prefix_skip(lines, snapshot_date_prefix(), n as int);
    }
    None
}

/// The identifier under which `mount_apfs` finds a Time Machine snapshot of a date.
pub fn snapshot_id(date: &str) -> (id: String)
    ensures
        id@ == "com.apple.TimeMachine."@ + date@ + ".local"@,
{
    let mut id = owned("com.apple.TimeMachine.");
    id.append(date);
    id.append(".local");
    id
}

/// The name of the temporary directory where the snapshot is mounted; the process id
/// keeps it apart from any left behind by earlier runs.
pub fn mount_dir_name(pid: u32) -> (name: String)
    ensures
        name@ == "boi-apfs-"@ + decimal(pid as nat),
{
    let mut name = owned("boi-apfs-");
    push_decimal(&mut name, pid as u64);
    name
}

/// `tmutil localsnapshot`, which makes a snapshot; without `TZ`, as the date it reports
/// names the snapshot.
pub fn create_snapshot_command() -> (c: Child)
    ensures
        c@.program == "tmutil"@,
        c@.args == seq!["localsnapshot"@],
        c@.env.len() == 0,
        !c@.null_output && !c@.null_input && c@.timezone_nulled,
{
    let v: Vec<&str> = vec!["tmutil", "localsnapshot"];
    let c = Child::from_cmdline(v.as_slice());
    assert(v@.drop_first().map_values(|w: &str| w@) =~= seq!["localsnapshot"@]);
    c.null_timezone()
}

/// `mount_apfs -s <snapshot> <source> <target>`, quietly.
pub fn mount_command(snapshot: &str, source: &str, target: &str) -> (c: Child)
    ensures
        c@.program == "mount_apfs"@,
        c@.args == seq!["-s"@, snapshot@, source@, target@],
        c@.env.len() == 0,
        c@.null_output && !c@.null_input && !c@.timezone_nulled,
{
    let v: Vec<&str> = vec!["mount_apfs", "-s", snapshot, source, target];
    let c = Child::from_cmdline(v.as_slice());
    assert(v@.drop_first().map_values(|w: &str| w@) =~= seq!["-s"@, snapshot@, source@, target@]);
    c.null_output()
}

/// `diskutil unmount <target>`, quietly.
pub fn unmount_command(target: &str) -> (c: Child)
    ensures
        c@.program == "diskutil"@,
        c@.args == seq!["unmount"@, target@],
        c@.env.len() == 0,
        c@.null_output && !c@.null_input && !c@.timezone_nulled,
{
    let v: Vec<&str> = vec!["diskutil", "unmount", target];
    let c = Child::from_cmdline(v.as_slice());
    assert(v@.drop_first().map_values(|w: &str| w@) =~= seq!["unmount"@, target@]);
    c.null_output()
}

/// `tmutil deletelocalsnapshots <date>`, detached from the terminal's input and output,
/// and without `TZ`.
pub fn delete_snapshot_command(date: &str) -> (c: Child)
    ensures
        c@.program == "tmutil"@,
        c@.args == seq!["deletelocalsnapshots"@, date@],
        c@.env.len() == 0,
        c@.null_output && c@.null_input && c@.timezone_nulled,
{
    let v: Vec<&str> = vec!["tmutil", "deletelocalsnapshots", date];
    let c = Child::from_cmdline(v.as_slice());
    assert(v@.drop_first().map_values(|w: &str| w@) =~= seq!["deletelocalsnapshots"@, date@]);
    c.null_input().null_output().null_timezone()
}

} // verus!

verus! {

/// What can go wrong while making, mounting or removing a snapshot.
#[derive(Debug, PartialEq, Eq)]
pub enum SnapshotError {
    HomeUnknown,
    HomeIsRelative,
    /// With the error's text.
    HomeMountBaseUnknown(String),
    SnapshotCreateFailed(Error),
    SnapshotMissingDate,
    /// With the error's text.
    MountTargetCreateFailed(String),
    MountFailed(Error),
    /// With the mount directory.
    UnmountFailed(String, Error),
    /// With the mount directory and the error's text.
    MountTargetCleanupFailed(String, String),
    /// With the snapshot's date.
    SnapshotCleanupFailed(String, Error),
}

/// How a snapshot error is displayed.
pub open spec fn snapshot_error_text(e: SnapshotError) -> Seq<char> {
    match e {
        SnapshotError::HomeUnknown => "can't determine $HOME"@,
        SnapshotError::HomeIsRelative => "$HOME is a non-absolute path"@,
        SnapshotError::HomeMountBaseUnknown(m) => "can't find where $HOME is mounted: "@ + m@,
        SnapshotError::SnapshotCreateFailed(c) => "tmutil localsnapshot failed: "@ + error_text(c),
        SnapshotError::SnapshotMissingDate => "can't find snapshot date in tmutil localsnapshot output"@,
        SnapshotError::MountTargetCreateFailed(m) => "failed to create mount directory: "@ + m@,
        SnapshotError::MountFailed(c) => "mount_apfs -s failed: "@ + error_text(c),
        SnapshotError::UnmountFailed(p, c) => "diskutil unmount "@ + p@ + " failed: "@ + error_text(c),
        SnapshotError::MountTargetCleanupFailed(p, m) => "failed to clean up "@ + p@ + ": "@ + m@,
        SnapshotError::SnapshotCleanupFailed(d, c) => "tmutil deletelocalsnapshots "@ + d@ + " failed: "@
            + error_text(c),
    }
}

impl SnapshotError {
    /// The error as it is displayed.
    pub fn describe(&self) -> (s: String)
        ensures
            s@ == snapshot_error_text(*self),
    {
        match self {
            SnapshotError::HomeUnknown => owned("can't determine $HOME"),
            SnapshotError::HomeIsRelative => owned("$HOME is a non-absolute path"),
            SnapshotError::HomeMountBaseUnknown(m) => {
                let mut s = owned("can't find where $HOME is mounted: ");
                s.append(m.as_str());
                s
            },
            SnapshotError::SnapshotCreateFailed(c) => {
                let mut s = owned("tmutil localsnapshot failed: ");
                s.append(c.describe().as_str());
                s
            },
            SnapshotError::SnapshotMissingDate => owned(
                "can't find snapshot date in tmutil localsnapshot output",
            ),
            SnapshotError::MountTargetCreateFailed(m) => {
                let mut s = owned("failed to create mount directory: ");
                s.append(m.as_str());
                s
            },
            SnapshotError::MountFailed(c) => {
                let mut s = owned("mount_apfs -s failed: ");
                s.append(c.describe().as_str());
                s
            },
            SnapshotError::UnmountFailed(p, c) => {
                let mut s = owned("diskutil unmount ");
                s.append(p.as_str());
                s.append(" failed: ");
                s.append(c.describe().as_str());
                s
            },
            SnapshotError::MountTargetCleanupFailed(p, m) => {
                let mut s = owned("failed to clean up ");
                s.append(p.as_str());
                s.append(": ");
                s.append(m.as_str());
                s
            },
            SnapshotError::SnapshotCleanupFailed(d, c) => {
                let mut s = owned("tmutil deletelocalsnapshots ");
                s.append(d.as_str());
                s.append(" failed: ");
                s.append(c.describe().as_str());
                s
            },
        }
    }
}

/// A path without its leading separators: what is left of an absolute path once its root
/// is taken off.
pub open spec fn without_root(s: Seq<char>) -> Seq<char>
    decreases s.len(),
{
    if s.len() > 0 && s[0] == '/' {
        without_root(s.skip(1))
    } else {
        s
    }
}

proof fn lemma_without_root_skip(s: Seq<char>, i: int)
    requires
        0 <= i <= s.len(),
        forall|j: int| 0 <= j < i ==> s[j] == '/',
    ensures
        without_root(s) == without_root(s.skip(i)),
    decreases i,
{
    if i > 0 {
        assert(s.skip(1).skip(i - 1) =~= s.skip(i));
        lemma_without_root_skip(s.skip(1), i - 1);
    } else {
        assert(s.skip(0) =~= s);
    }
}

/// Where the home directory is inside a snapshot mounted at `mount_target`: the home
/// directory's path, without its root, pushed onto the mount directory. The home directory
/// must be known and absolute.
pub fn snapshot_root(home: Option<String>, mount_target: &str) -> (r: Result<String, SnapshotError>)
    ensures
        match home {
            None => r == Err::<String, SnapshotError>(SnapshotError::HomeUnknown),
            Some(h) => if h@.len() == 0 || h@[0] != '/' {
                r == Err::<String, SnapshotError>(SnapshotError::HomeIsRelative)
            } else {
                r matches Ok(p) && p@ == path_join(mount_target@, without_root(h@))
            },
        },
{
    let h = match home {
        None => {
            return Err(SnapshotError::HomeUnknown);
        },
        Some(h) => h,
    };
    let c = chars_of(h.as_str());
    if c.len() == 0 || c[0] != '/' {
        return Err(SnapshotError::HomeIsRelative);
    }
    let mut i: usize = 0;
    while i < c.len() && c[i] == '/'
        invariant
            i <= c@.len(),
            forall|j: int| 0 <= j < i ==> c@[j] == '/',
        decreases c@.len() - i,
    {
        i = i + 1;
    }
    let mut rest = String::new();
    let mut k = i;
    while k < c.len()
        invariant
            i <= k <= c@.len(),
            rest@ =~= c@.subrange(i as int, k as int),
        decreases c@.len() - k,
    {
        push_char(&mut rest, c[k]);
        k = k + 1;
    }
    proof {
        lemma_without_root_skip(c@, i as int);
        assert(rest@ =~= c@.skip(i as int));
        if (i as int) < c@.len() {
            assert(c@.skip(i as int)[0] == c@[i as int]);
        }
        assert(without_root(c@.skip(i as int)) == c@.skip(i as int));
    }
    Ok(join_path(mount_target, rest.as_str()))
}

/// A mounted snapshot of the home directory.
#[derive(Debug, PartialEq, Eq)]
pub struct Snapshot {
    /// Whether the snapshot is kept after the backup.
    pub keep: bool,
    /// The snapshot's date, as `tmutil` names it.
    pub date: String,
    /// Where the snapshot is mounted.
    pub mount_target: String,
    /// The home directory inside the mounted snapshot.
    pub full_path: String,
}

/// The next step of removing a snapshot once the unmount has been tried.
#[derive(Debug, PartialEq, Eq)]
pub enum CleanupStep {
    /// Give up with this message.
    Fail(String),
    /// Stop here, reporting success with this message.
    Finish(String),
    /// Delete the snapshot in the background.
    DeleteSnapshot,
}

/// The message with which a failed step gives up.
pub open spec fn failure_text(what: Seq<char>, e: SnapshotError) -> Seq<char> {
    "Failed to "@ + what + " APFS snapshot ("@ + snapshot_error_text(e) + "); you should look at that."@
}

fn failure_message(what: &str, e: &SnapshotError) -> (s: String)
    ensures
        s@ == failure_text(what@, *e),
{
    let mut s = owned("Failed to ");
    s.append(what);
    s.append(" APFS snapshot (");
    s.append(e.describe().as_str());
    s.append("); you should look at that.");
    s
}

impl Snapshot {
    /// The directory that Borg runs in: the home directory inside the snapshot.
    pub fn path(&self) -> (p: &str)
        ensures
            p@ == self.full_path@,
    {
        self.full_path.as_str()
    }

    /// The `mount` outcome as it is reported: the success message, or the message with
    /// which boi gives up.
    pub fn prepared_message(made: &Result<Snapshot, SnapshotError>) -> (r: Result<String, String>)
        ensures
            match *made {
                Ok(s) => r matches Ok(m) && m@ == "Created and mounted APFS snapshot "@ + s.date@
                    + "."@,
                Err(e) => r matches Err(m) && m@ == failure_text("create"@, e),
            },
    {
        match made {
            Ok(s) => {
                let mut m = owned("Created and mounted APFS snapshot ");
                m.append(s.date.as_str());
                m.append(".");
                Ok(m)
            },
            Err(e) => Err(failure_message("create", e)),
        }
    }

    /// What to do once the unmount has been tried: give up if it failed, stop if the
    /// snapshot is to be kept, and delete it otherwise.
    pub fn after_unmount(&self, unmounted: &Result<(), SnapshotError>) -> (step: CleanupStep)
        ensures
            match *unmounted {
                Err(e) => step matches CleanupStep::Fail(m) && m@ == failure_text("unmount"@, e),
                Ok(()) => if self.keep {
                    step matches CleanupStep::Finish(m) && m@
                        == "Unmounted APFS snapshot; keeping per your request."@
                } else {
                    step is DeleteSnapshot
                },
            },
    {
        match unmounted {
            Err(e) => CleanupStep::Fail(failure_message("unmount", e)),
            Ok(()) => {
                if self.keep {
                    CleanupStep::Finish(owned("Unmounted APFS snapshot; keeping per your request."))
                } else {
                    CleanupStep::DeleteSnapshot
                }
            },
        }
    }

    /// What to report once the deletion has been started.
    pub fn after_delete(deleted: &Result<(), SnapshotError>) -> (r: Result<String, String>)
        ensures
            match *deleted {
                Ok(()) => r matches Ok(m) && m@ == "Unmounted APFS snapshot; deleting in background."@,
                Err(e) => r matches Err(m) && m@ == failure_text("delete"@, e),
            },
    {
        match deleted {
            Ok(()) => Ok(owned("Unmounted APFS snapshot; deleting in background.")),
            Err(e) => Err(failure_message("delete", e)),
        }
    }
}

} // verus!
