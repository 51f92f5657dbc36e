//! Thinning out old archives: retention profiles and the reading of `borg prune --dry-run`.

use vstd::prelude::*;
use vstd::string::*;
use vstd::utf8::*;

use crate::text::{
    chars_of, find_char, has_prefix_at, inclusive_lines, lemma_encode_utf8_concat, lemma_find_char_at,
    line_ends, line_start, lines_end_at, utf8_text, lemma_lines_flatten, decimal, push_decimal, owned, notice, Notice,
};

verus! {

/// How archives are selected for pruning.
#[derive(Clone, Copy, PartialEq, Eq, Structural, Debug)]
pub enum Profile {
    Normal,
    Recent,
    Aggressive,
}

impl Default for Profile {
    fn default() -> (p: Profile)
        ensures
            p == Profile::Normal,
    {
        Profile::Normal
    }
}

impl Profile {
    /// The name under which the profile is chosen on the command line.
    pub fn name(&self) -> (s: &'static str)
        ensures
            s@ == match *self {
                Profile::Normal => "normal"@,
                Profile::Recent => "recent"@,
                Profile::Aggressive => "aggressive"@,
            },
    {
        match self {
            Profile::Normal => "normal",
            Profile::Recent => "recent",
            Profile::Aggressive => "aggressive",
        }
    }
}

/// The text views of a command line.
pub open spec fn words(cmdline: Seq<&'static str>) -> Seq<Seq<char>> {
    cmdline.map_values(|w: &'static str| w@)
}

/// The retention options that a profile passes to `borg prune`.
pub open spec fn retention_options(profile: Profile) -> Seq<Seq<char>> {
    match profile {
        Profile::Normal => seq![
            "--keep-within=24H"@,
            "--keep-daily=7"@,
            "--keep-weekly=4"@,
            "--keep-monthly=-1"@,
        ],
        Profile::Recent => seq!["--keep-last=1"@, "--keep-daily=-1"@],
        Profile::Aggressive => seq!["--keep-daily=3"@],
    }
}

/// `borg prune` with the retention options of `profile`.
pub open spec fn spec_prune_cmdline(profile: Profile) -> Seq<Seq<char>> {
    seq!["borg"@, "prune"@, "-v"@, "--list"@] + retention_options(profile)
}

/// The `borg prune` command line for a profile, before the dry-run or real-run options.
pub fn prune_cmdline(profile: Profile) -> (cmd: Vec<&'static str>)
    ensures
        words(cmd@) == spec_prune_cmdline(profile),
{
    let mut cmd: Vec<&'static str> = vec!["borg", "prune", "-v", "--list"];
    match profile {
        Profile::Normal => {
            cmd.push("--keep-within=24H");
            cmd.push("--keep-daily=7");
            cmd.push("--keep-weekly=4");
            cmd.push("--keep-monthly=-1");
        },
        Profile::Recent => {
            cmd.push("--keep-last=1");
            cmd.push("--keep-daily=-1");
        },
        Profile::Aggressive => {
            cmd.push("--keep-daily=3");
        },
    }
    assert(words(cmd@) =~= spec_prune_cmdline(profile));
    cmd
}

/// The dry run that lists what `profile` would prune.
pub fn dry_run_cmdline(profile: Profile) -> (cmd: Vec<&'static str>)
    ensures
        words(cmd@) == spec_prune_cmdline(profile).push("--dry-run"@),
{
    let mut cmd = prune_cmdline(profile);
    cmd.push("--dry-run");
    assert(words(cmd@) =~= spec_prune_cmdline(profile).push("--dry-run"@));
    cmd
}

/// The real prune for `profile`, reporting statistics and progress.
pub fn real_prune_cmdline(profile: Profile) -> (cmd: Vec<&'static str>)
    ensures
        words(cmd@) == spec_prune_cmdline(profile) + seq!["--stats"@, "--progress"@],
{
    let mut cmd = prune_cmdline(profile);
    cmd.push("--stats");
    cmd.push("--progress");
    assert(words(cmd@) =~= spec_prune_cmdline(profile) + seq!["--stats"@, "--progress"@]);
    cmd
}

/// The `borg compact` run that follows a real prune.
pub fn compact_cmdline() -> (cmd: Vec<&'static str>)
    ensures
        words(cmd@) == seq!["borg"@, "compact"@, "-v"@, "--progress"@],
{
    let cmd: Vec<&'static str> = vec!["borg", "compact", "-v", "--progress"];
    assert(words(cmd@) =~= seq!["borg"@, "compact"@, "-v"@, "--progress"@]);
    cmd
}

/// Whether the answer to the confirmation prompt lets the real prune go ahead: `read` is
/// the number of bytes read from the terminal, `None` for a read error. Neither an
/// immediate end of input nor an error counts as confirmation.
pub fn confirmed(read: Option<usize>) -> (ok: bool)
    ensures
        ok <==> (read matches Some(n) && n > 0),
{
    match read {
        Some(n) => n > 0,
        None => false,
    }
}

/// The text with which Borg begins the line of each archive that a rule keeps.
pub open spec fn keep_prefix() -> Seq<char> {
    "Keeping archive (rule: "@
}

/// Whether a line of the listing reports an archive that a rule keeps.
pub open spec fn is_keep_line(line: Seq<char>) -> bool {
    keep_prefix().is_prefix_of(line)
}

/// The text of a keep line after its prefix.
pub open spec fn after_keep(line: Seq<char>) -> Seq<char> {
    line.skip(keep_prefix().len() as int)
}

/// The rule interval named by a keep line: the text after the prefix, up to the first space.
/// `None` when the line is no keep line or no space follows the prefix.
pub open spec fn rule_interval(line: Seq<char>) -> Option<Seq<char>> {
    if is_keep_line(line) && find_char(after_keep(line), ' ') < after_keep(line).len() {
        Some(after_keep(line).take(find_char(after_keep(line), ' ') as int))
    } else {
        None
    }
}

/// Whether a line keeps an archive under a rule whose text starts with `interval`.
pub open spec fn keeps_under(line: Seq<char>, interval: Seq<char>) -> bool {
    is_keep_line(line) && interval.is_prefix_of(after_keep(line))
}

/// How many lines at the end of the listing keep archives under `interval`.
pub open spec fn trailing_run(lines: Seq<Seq<char>>, interval: Seq<char>) -> nat
    decreases lines.len(),
{
    if lines.len() == 0 {
        0
    } else if keeps_under(lines.last(), interval) {
        1 + trailing_run(lines.drop_last(), interval)
    } else {
        0
    }
}

/// What a prune dry run amounts to, in terms of plain values.
pub enum DryRunView {
    PruneNone,
    PruneSome { stderr: Seq<u8>, elided: Option<(Seq<char>, nat)> },
}

/// What `borg prune --dry-run` reported on its standard error `bytes`.
///
/// A listing made only of keep lines prunes nothing. Otherwise, a long run of keep lines
/// under the interval of the last line is cut down to its first three lines, and the
/// rest is counted instead of shown. Output that is not UTF-8, or that does not end in
/// such a run, is shown whole.
pub open spec fn dry_run_outcome(bytes: Seq<u8>) -> DryRunView {
    let whole = DryRunView::PruneSome { stderr: bytes, elided: None };
    if !valid_utf8(bytes) {
        whole
    } else {
        let lines = inclusive_lines(decode_utf8(bytes));
        if forall|i: int| 0 <= i < lines.len() ==> is_keep_line(#[trigger] lines[i]) {
            DryRunView::PruneNone
        } else {
            match rule_interval(lines.last()) {
                None => whole,
                Some(interval) => {
                    let run = trailing_run(lines, interval);
                    if run <= 3 {
                        whole
                    } else {
                        let keep = lines.len() - run + 3;
                        DryRunView::PruneSome {
                            stderr: encode_utf8(lines.take(keep).flatten()),
                            elided: Some((interval, (run - 3) as nat)),
                        }
                    }
                },
            }
        }
    }
}

/// A long run of kept archives left out of the dry-run listing.
#[derive(Debug, PartialEq, Eq)]
pub struct DryRunElision {
    pub interval: String,
    pub count: usize,
}

/// The outcome of a prune dry run.
#[derive(Debug, PartialEq, Eq)]
pub enum DryRun {
    PruneNone,
    PruneSome { stderr: Vec<u8>, elided: Option<DryRunElision> },
}

impl View for DryRun {
    type V = DryRunView;

    open spec fn view(&self) -> DryRunView {
        match self {
            DryRun::PruneNone => DryRunView::PruneNone,
            DryRun::PruneSome { stderr, elided } => DryRunView::PruneSome {
                stderr: stderr@,
                elided: match elided {
                    Some(e) => Some((e.interval@, e.count as nat)),
                    None => None,
                },
            },
        }
    }
}

/// The run of lines at the end that keep under `interval`, counted from the back.
proof fn lemma_trailing_run(lines: Seq<Seq<char>>, interval: Seq<char>, t: int)
    requires
        0 <= t <= lines.len(),
        forall|m: int| lines.len() - t <= m < lines.len() ==> keeps_under(#[trigger] lines[m], interval),
        t == lines.len() || !keeps_under(lines[lines.len() - t - 1], interval),
    ensures
        trailing_run(lines, interval) == t,
    decreases t,
{
    if t > 0 {
        assert(keeps_under(lines[lines.len() - 1], interval));
        let rest = lines.drop_last();
        assert forall|m: int| rest.len() - (t - 1) <= m < rest.len() implies keeps_under(#[trigger] rest[m], interval) by {
            assert(rest[m] == lines[m]);
        }
        if t - 1 < rest.len() {
            assert(rest[rest.len() - (t - 1) - 1] == lines[lines.len() - t - 1]);
        }
        lemma_trailing_run(rest, interval, t - 1);
    } else if lines.len() > 0 {
        assert(!keeps_under(lines.last(), interval));
    }
}

impl DryRun {
    /// Shows the whole listing.
    pub fn elide_nothing(stderr: Vec<u8>) -> (r: DryRun)
        ensures
            r@ == (DryRunView::PruneSome { stderr: stderr@, elided: None }),
    {
        DryRun::PruneSome { stderr, elided: None }
    }

    /// Whether the dry run found nothing to prune.
    pub fn is_prune_none(&self) -> (r: bool)
        ensures
            r <==> self@ is PruneNone,
    {
        match self {
            DryRun::PruneNone => true,
            _ => false,
        }
    }

    /// Parses the standard error of `borg prune --dry-run --list`, eliding long runs of
    /// archives kept by the last rule interval of the listing.
    ///
    /// The expected format is one line per archive, such as
    /// `Keeping archive (rule: daily #1): ...` or `Would prune: ...`.
    pub fn from_borg_stderr(stderr: Vec<u8>) -> (r: DryRun)
        ensures
            r@ == dry_run_outcome(stderr@),
    {
        let ghost bytes = stderr@;
        let text = match utf8_text(stderr.as_slice()) {
            Some(t) => t,
            None => {
                return DryRun::elide_nothing(stderr);
            },
        };
        proof {
            encode_utf8_decode_utf8(text@);
        }
        let chars = chars_of(text);
        let ghost s = chars@;
        assert(s == decode_utf8(bytes));
        let ends = line_ends(&chars);
        let ghost lines = inclusive_lines(s);
        let n = ends.len();
        let keep = chars_of("Keeping archive (rule: ");
        assert(keep@ == keep_prefix());
        assert(lines_end_at(s, ends@, lines));

        // Does every line keep an archive?
        let mut all_keep = true;
        let mut i: usize = 0;
        while i < n
            invariant
                n == ends@.len() == lines.len(),
                lines == inclusive_lines(s),
                s == chars@,
                keep@ == keep_prefix(),
                i <= n,
                lines_end_at(s, ends@, lines),
                all_keep <==> forall|j: int| 0 <= j < i ==> is_keep_line(#[trigger] lines[j]),
            decreases n - i,
        {
            let ghost line = lines[i as int];
            let start = if i == 0 { 0 } else { ends[i - 1] };
            let is_keep = has_prefix_at(&chars, start, ends[i], &keep);
            assert(is_keep == is_keep_line(lines[i as int]));
            all_keep = all_keep && is_keep;
            i = i + 1;
        }
        if all_keep {
            return DryRun::PruneNone;
        }
        assert(n > 0);
        let last_start = if n == 1 { 0 } else { ends[n - 2] };
        let last_end = ends[n - 1];
        let ghost last = lines.last();
        assert(last == s.subrange(last_start as int, last_end as int));
        if !has_prefix_at(&chars, last_start, last_end, &keep) {
            return DryRun::elide_nothing(stderr);
        }
        // The interval runs from after the prefix up to the first space.
        let after = last_start + keep.len();
        let ghost rest = after_keep(last);
        assert(rest =~= s.subrange(after as int, last_end as int));
        let mut sp = after;
        while sp < last_end && chars[sp] != ' '
            invariant
                after <= sp <= last_end <= s.len(),
                s == chars@,
                forall|j: int| after <= j < sp ==> s[j] != ' ',
            decreases last_end - sp,
        {
            sp = sp + 1;
        }
        proof {
            lemma_find_char_at(rest, ' ', sp - after);
        }
        if sp == last_end {
            return DryRun::elide_nothing(stderr);
        }
        let ghost interval = rest.take(sp - after);
        assert(rule_interval(last) == Some(interval));
        let mut interval_chars: Vec<char> = Vec::new();
        let mut q = after;
        while q < sp
            invariant
                after <= q <= sp <= s.len(),
                s == chars@,
                interval_chars@ =~= s.subrange(after as int, q as int),
            decreases sp - q,
        {
            interval_chars.push(chars[q]);
            q = q + 1;
        }
        assert(interval_chars@ =~= interval);

        // Count the trailing lines that keep under the interval.
        let mut t: usize = 0;
        let mut going = true;
        while going && t < n
            invariant
                n == ends@.len() == lines.len(),
                lines == inclusive_lines(s),
                s == chars@,
                keep@ == keep_prefix(),
                interval_chars@ == interval,
                t <= n,
                lines_end_at(s, ends@, lines),
                forall|m: int| n - t <= m < n ==> keeps_under(#[trigger] lines[m], interval),
                !going ==> t < n && !keeps_under(lines[n - t - 1], interval),
            decreases n - t + (if going { 1int } else { 0int }),
        {
            let j = n - t - 1;
            let start = if j == 0 { 0 } else { ends[j - 1] };
            let end = ends[j];
            let ghost line = lines[j as int];
            let mut under = has_prefix_at(&chars, start, end, &keep);
            if under {
                let a = start + keep.len();
                under = has_prefix_at(&chars, a, end, &interval_chars);
                assert(s.subrange(a as int, end as int) =~= after_keep(line));
            }
            assert(under == keeps_under(line, interval));
            if under {
                t = t + 1;
            } else {
                going = false;
            }
        }
        proof {
            lemma_trailing_run(lines, interval, t as int);
        }
        if t <= 3 {
            return DryRun::elide_nothing(stderr);
        }
        let keep_count = n - t + 3;
        let elided_count = n - keep_count;
        let kept_end = ends[keep_count - 1];
        assert(lines[keep_count - 1] == s.subrange(
            line_start(ends@, keep_count - 1),
            ends@[keep_count - 1] as int,
        ));
        assert(inclusive_lines(chars@).take(keep_count as int).flatten() == chars@.take(
            line_start(ends@, keep_count as int),
        ));
        assert(lines.take(keep_count as int).flatten() == s.take(kept_end as int));
        let interval_text = text.substring_char(after, sp).to_owned();
        let kept_len = text.substring_char(0, kept_end).len();
        proof {
            assert(s =~= s.take(kept_end as int) + s.skip(kept_end as int));
            lemma_encode_utf8_concat(s.take(kept_end as int), s.skip(kept_end as int));
            assert(s.subrange(0, kept_end as int) =~= s.take(kept_end as int));
            assert(s.subrange(after as int, sp as int) =~= interval);
        }
        let mut stderr = stderr;
        stderr.truncate(kept_len);
        assert(stderr@ =~= encode_utf8(s.take(kept_end as int)));
        DryRun::PruneSome {
            stderr,
            elided: Some(DryRunElision { interval: interval_text, count: elided_count }),
        }
    }
}

} // verus!

verus! {

/// How many more kept snapshots the elided listing stands for.
pub open spec fn elision_text(count: nat, interval: Seq<char>) -> Seq<char> {
    "Keeping "@ + decimal(count) + " more "@ + interval + " "@ + (if count == 1 {
        "snapshot"@
    } else {
        "snapshots"@
    }) + " too."@
}

impl DryRunElision {
    /// The sentence that stands for the elided lines.
    pub fn describe(&self) -> (s: String)
        ensures
            s@ == elision_text(self.count as nat, self.interval@),
    {
        let mut s = owned("Keeping ");
        push_decimal(&mut s, self.count as u64);
        s.append(" more ");
        s.append(self.interval.as_str());
        s.append(" ");
        if self.count == 1 {
            s.append("snapshot");
        } else {
            s.append("snapshots");
        }
        s.append(" too.");
        s
    }
}

impl DryRun {
    /// What to tell the user after any listing has been shown: that nothing needs
    /// pruning, or how many kept snapshots the listing left out.
    pub fn notice(&self) -> (n: Option<Notice>)
        ensures
            match self@ {
                DryRunView::PruneNone => n matches Some(m) && m.sigil@ == "✓"@ && m.text@
                    == "No snapshots to prune right now."@,
                DryRunView::PruneSome { elided: Some((interval, count)), .. } => n matches Some(m)
                    && m.sigil@ == "✱"@ && m.text@ == elision_text(count, interval),
                DryRunView::PruneSome { elided: None, .. } => n is None,
            },
    {
        match self {
            DryRun::PruneNone => Some(notice("✓", owned("No snapshots to prune right now."))),
            DryRun::PruneSome { elided: Some(e), .. } => Some(notice("✱", e.describe())),
            DryRun::PruneSome { elided: None, .. } => None,
        }
    }

    /// The listing to show, when there is one to show.
    pub fn listing(&self) -> (out: Option<&Vec<u8>>)
        ensures
            match self@ {
                DryRunView::PruneNone => out is None,
                DryRunView::PruneSome { stderr, .. } => out matches Some(b) && b@ == stderr,
            },
    {
        match self {
            DryRun::PruneNone => None,
            DryRun::PruneSome { stderr, .. } => Some(stderr),
        }
    }
}

} // verus!

verus! {

/// Every line of the trailing run keeps under the interval.
proof fn lemma_trailing_run_keeps(lines: Seq<Seq<char>>, interval: Seq<char>, m: int)
    requires
        lines.len() - trailing_run(lines, interval) <= m < lines.len(),
    ensures
        keeps_under(lines[m], interval),
        trailing_run(lines, interval) <= lines.len(),
    decreases lines.len(),
{
    if lines.len() > 0 && keeps_under(lines.last(), interval) && m < lines.len() - 1 {
        lemma_trailing_run_keeps(lines.drop_last(), interval, m);
        assert(lines.drop_last()[m] == lines[m]);
    }
    lemma_trailing_run_le(lines, interval);
}

/// The trailing run is no longer than the listing.
proof fn lemma_trailing_run_le(lines: Seq<Seq<char>>, interval: Seq<char>)
    ensures
        trailing_run(lines, interval) <= lines.len(),
    decreases lines.len(),
{
    if lines.len() > 0 {
        lemma_trailing_run_le(lines.drop_last(), interval);
    }
}

/// A shortened listing is the beginning of what Borg wrote, and it still shows three
/// lines of the final run, each keeping an archive under the elided interval; the count
/// of elided lines is positive and accounts for the rest of the listing.
pub proof fn law_elision_keeps_prefix(bytes: Seq<u8>)
    ensures
        dry_run_outcome(bytes) matches DryRunView::PruneSome { stderr, elided } ==> stderr.is_prefix_of(
            bytes,
        ),
        dry_run_outcome(bytes) matches DryRunView::PruneSome { elided: Some((interval, count)), .. }
            ==> ({
            let lines = inclusive_lines(decode_utf8(bytes));
            &&& count > 0
            &&& count + 3 <= lines.len()
            &&& forall|m: int|
                lines.len() - count - 3 <= m < lines.len() - count ==> keeps_under(
                    #[trigger] lines[m],
                    interval,
                )
        }),
{
    if valid_utf8(bytes) {
        let s = decode_utf8(bytes);
        let lines = inclusive_lines(s);
        if !(forall|i: int| 0 <= i < lines.len() ==> is_keep_line(#[trigger] lines[i])) {
            if let Some(interval) = rule_interval(lines.last()) {
                let run = trailing_run(lines, interval);
                if run > 3 {
                    lemma_trailing_run_le(lines, interval);
                    let keep = lines.len() - run + 3;
                    assert forall|m: int|
                        lines.len() - (run - 3) - 3 <= m < lines.len() - (run - 3) implies keeps_under(
                        #[trigger] lines[m],
                        interval,
                    ) by {
                        lemma_trailing_run_keeps(lines, interval, m);
                    }
                    lemma_lines_flatten(s);
                    let kept = lines.take(keep).flatten();
                    let rest = lines.skip(keep).flatten();
                    assert(lines =~= lines.take(keep) + lines.skip(keep));
                    vstd::seq_lib::lemma_flatten_concat(lines.take(keep), lines.skip(keep));
                    assert(s == kept + rest);
                    lemma_encode_utf8_concat(kept, rest);
                    vstd::utf8::decode_utf8_encode_utf8(bytes);
                    assert(encode_utf8(kept).is_prefix_of(bytes)) by {
                        assert(bytes == encode_utf8(kept) + encode_utf8(rest));
                        assert(encode_utf8(kept) =~= bytes.subrange(0, encode_utf8(kept).len() as int));
                    }
                }
            }
        }
    }
}


/// The trailing run stops at a line that does not keep under the interval.
proof fn lemma_trailing_run_stops(lines: Seq<Seq<char>>, interval: Seq<char>)
    ensures
        trailing_run(lines, interval) < lines.len() ==> !keeps_under(
            lines[lines.len() - trailing_run(lines, interval) - 1],
            interval,
        ),
    decreases lines.len(),
{
    if lines.len() > 0 && keeps_under(lines.last(), interval) {
        let p = lines.drop_last();
        lemma_trailing_run_stops(p, interval);
        if trailing_run(p, interval) < p.len() {
            assert(p[p.len() - trailing_run(p, interval) - 1] == lines[lines.len()
                - trailing_run(lines, interval) - 1]);
        }
    }
}

/// What a dry run shows, in terms of the lines of Borg's output. A listing made only of
/// keep lines prunes nothing. When the listing is shortened, what is shown is exactly the
/// lines before the elided ones: all lines before the final run of keep lines under the
/// interval of the last line, then the first three lines of that run, and the elided count
/// is the rest of the run; the run goes back to the first earlier line that does not keep
/// under the interval. Otherwise the whole output is shown.
pub proof fn law_dry_run_shows_run_head(bytes: Seq<u8>)
    ensures
        ({
            let lines = inclusive_lines(decode_utf8(bytes));
            dry_run_outcome(bytes) is PruneNone <==> valid_utf8(bytes) && forall|i: int|
                0 <= i < lines.len() ==> is_keep_line(#[trigger] lines[i])
        }),
        dry_run_outcome(bytes) matches DryRunView::PruneSome { stderr, elided: None } ==> stderr
            == bytes,
        dry_run_outcome(bytes) matches DryRunView::PruneSome { stderr, elided: Some((interval, count)) }
            ==> ({
            let lines = inclusive_lines(decode_utf8(bytes));
            &&& valid_utf8(bytes)
            &&& rule_interval(lines.last()) == Some(interval)
            &&& count > 0 && count + 3 <= lines.len()
            &&& stderr == encode_utf8(lines.take(lines.len() - count).flatten())
            &&& forall|m: int| lines.len() - count - 3 <= m < lines.len() ==> keeps_under(
                #[trigger] lines[m],
                interval,
            )
            &&& lines.len() - count - 3 > 0 ==> !keeps_under(lines[lines.len() - count - 4], interval)
        }),
{
    if valid_utf8(bytes) {
        let lines = inclusive_lines(decode_utf8(bytes));
        if !(forall|i: int| 0 <= i < lines.len() ==> is_keep_line(#[trigger] lines[i])) {
            if let Some(interval) = rule_interval(lines.last()) {
                let run = trailing_run(lines, interval);
                if run > 3 {
                    lemma_trailing_run_le(lines, interval);
                    lemma_trailing_run_stops(lines, interval);
                    assert forall|m: int| lines.len() - run <= m < lines.len() implies keeps_under(
                        #[trigger] lines[m],
                        interval,
                    ) by {
                        lemma_trailing_run_keeps(lines, interval, m);
                    }
                    assert(lines.len() - (run - 3) == lines.len() - run + 3);
                }
            }
        }
    }
}

} // verus!
