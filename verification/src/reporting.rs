//! Reporting the progress of several repositories at once: one line per repository under a
//! common header.

use vstd::prelude::*;

use crate::borg::{Event, ProgressPercent};
use crate::progress::{
    kind_of, ops_view, push_show_ops, report_kind, show_ops, BarOp, BarOpView, Report, StyleKind,
};
use crate::text::{notice, owned, Notice};

verus! {

/// The sigil shown beside a repository that has not finished.
pub open spec fn default_repo_sigil() -> Seq<char> {
    "─"@
}

/// The sigil a repository's bar shows in a look: its final sigil once it has one; before
/// that, in the message look, none when the header is blank and the default otherwise, and
/// in the progress look the default.
pub open spec fn repo_sigil(kind: StyleKind, sigil: Option<Seq<char>>, header_blank: bool) -> Seq<char> {
    match sigil {
        Some(s) => s,
        None => match kind {
            StyleKind::Message => if header_blank {
                ""@
            } else {
                default_repo_sigil()
            },
            StyleKind::Progress => default_repo_sigil(),
        },
    }
}

/// The operations that bring a repository's bar up to date with its report: a restyle
/// when the look must change, then the report itself.
pub open spec fn refresh_ops(
    current: Option<StyleKind>,
    report: Report,
    sigil: Option<Seq<char>>,
    header_blank: bool,
) -> Seq<BarOpView> {
    (if current != Some(kind_of(report)) {
        seq![
            BarOpView::Restyle {
                kind: kind_of(report),
                sigil: repo_sigil(kind_of(report), sigil, header_blank),
            },
        ]
    } else {
        Seq::empty()
    }) + show_ops(report)
}

/// The bar template of a repository's line in each look.
pub fn repo_template(kind: StyleKind) -> (t: &'static str)
    ensures
        t@ == match kind {
            StyleKind::Message => "      ┌ {name} {sigil} {header}\n      └ {wide_msg}"@,
            StyleKind::Progress => "      ┌ {name} {sigil} {wide_msg}\n      └ {bar} {pos}/{len}"@,
        },
{
    match kind {
        StyleKind::Message => "      ┌ {name} {sigil} {header}\n      └ {wide_msg}",
        StyleKind::Progress => "      ┌ {name} {sigil} {wide_msg}\n      └ {bar} {pos}/{len}",
    }
}

/// The bar template of the header line, before and after it has a final sigil.
pub fn head_template(finished: bool) -> (t: &'static str)
    ensures
        t@ == if finished {
            "[boi] {sigil} {header}"@
        } else {
            "[boi] {spinner} {header}"@
        },
{
    if finished {
        "[boi] {sigil} {header}"
    } else {
        "[boi] {spinner} {header}"
    }
}

/// Whether to keep reading Borg's output.
#[derive(Clone, Copy, PartialEq, Eq, Structural, Debug)]
pub enum Flow {
    Continue,
    Break,
}

/// What to do about an event that the caller did not handle itself: a line to print above
/// the bars, if any, and whether to keep reading.
pub struct Handling {
    pub print: Option<Notice>,
    pub flow: Flow,
}

/// The warning about an event of unknown type.
pub open spec fn unrecognized_text(ty: Option<String>) -> Seq<char> {
    match ty {
        None => "Unrecognized event from Borg"@,
        Some(t) => "Unrecognized "@ + t@ + " event from Borg"@,
    }
}

/// The warning about output that is not valid JSON, after which the rest is ignored.
pub open spec fn json_error_text(err: Seq<char>) -> Seq<char> {
    "Ignoring further Borg output due to JSON error: "@ + err
}

/// The warning about an event of unknown type.
pub fn unrecognized_message(ty: &Option<String>) -> (s: String)
    ensures
        s@ == unrecognized_text(*ty),
{
    match ty {
        None => owned("Unrecognized event from Borg"),
        Some(t) => {
            let mut s = owned("Unrecognized ");
            s.append(t.as_str());
            s.append(" event from Borg");
            s
        },
    }
}

/// The warning about output that is not valid JSON.
pub fn json_error_message(err: &str) -> (s: String)
    ensures
        s@ == json_error_text(err@),
{
    let mut s = owned("Ignoring further Borg output due to JSON error: ");
    s.append(err);
    s
}

/// Two states of a line that differ at most in whether the one-time suspension happened.
pub open spec fn same_but_once(a: RepoReporterState, b: RepoReporterState) -> bool {
    &&& a.spec_name() == b.spec_name()
    &&& a.spec_sigil() == b.spec_sigil()
    &&& a.spec_header_blank() == b.spec_header_blank()
    &&& a.spec_report() == b.spec_report()
    &&& a.spec_current_style() == b.spec_current_style()
}

/// Two states of a line that have the same name, final sigil, header and one-time flag:
/// what showing a new report leaves alone.
pub open spec fn same_identity(a: RepoReporterState, b: RepoReporterState) -> bool {
    &&& a.spec_name() == b.spec_name()
    &&& a.spec_sigil() == b.spec_sigil()
    &&& a.spec_header_blank() == b.spec_header_blank()
    &&& a.spec_did_once() == b.spec_did_once()
}

/// The state of one repository's line.
pub struct RepoReporterState {
    name: String,
    sigil: Option<&'static str>,
    header_blank: bool,
    report: Report,
    did_once: bool,
    current_style: Option<StyleKind>,
}

impl RepoReporterState {
    pub closed spec fn spec_name(&self) -> Seq<char> {
        self.name@
    }

    /// The final sigil, once the repository has finished.
    pub closed spec fn spec_sigil(&self) -> Option<Seq<char>> {
        match self.sigil {
            Some(s) => Some(s@),
            None => None,
        }
    }

    /// Whether the header shown beside the name displays as nothing.
    pub closed spec fn spec_header_blank(&self) -> bool {
        self.header_blank
    }

    /// The report shown now.
    pub closed spec fn spec_report(&self) -> Report {
        self.report
    }

    /// Whether the one-time suspension has happened.
    pub closed spec fn spec_did_once(&self) -> bool {
        self.did_once
    }

    /// The look the bar has now, if it has been styled.
    pub closed spec fn spec_current_style(&self) -> Option<StyleKind> {
        self.current_style
    }

    /// Brings the bar up to date with the report.
    fn refresh(&mut self) -> (ops: Vec<BarOp>)
        ensures
            ops_view(ops@) == refresh_ops(
                old(self).spec_current_style(),
                old(self).spec_report(),
                old(self).spec_sigil(),
                old(self).spec_header_blank(),
            ),
            final(self).spec_current_style() == Some(kind_of(old(self).spec_report())),
            final(self).spec_name() == old(self).spec_name(),
            final(self).spec_sigil() == old(self).spec_sigil(),
            final(self).spec_header_blank() == old(self).spec_header_blank(),
            final(self).spec_report() == old(self).spec_report(),
            final(self).spec_did_once() == old(self).spec_did_once(),
    {
        let want = report_kind(&self.report);
        let mut ops: Vec<BarOp> = Vec::new();
        let differs = match self.current_style {
            Some(k) => k != want,
            None => true,
        };
        if differs {
            let sigil: &'static str = match self.sigil {
                Some(s) => s,
                None => match want {
                    StyleKind::Message => if self.header_blank {
                        ""
                    } else {
                        "─"
                    },
                    StyleKind::Progress => "─",
                },
            };
            ops.push(BarOp::Restyle { kind: want, sigil });
            self.current_style = Some(want);
        }
        push_show_ops(&mut ops, &self.report);
        ops
    }

    /// A new repository line, saying that it is starting up.
    pub fn new(name: String, header_blank: bool) -> (r: (RepoReporterState, Vec<BarOp>))
        ensures
            r.0.spec_name() == name@,
            r.0.spec_sigil() is None,
            r.0.spec_header_blank() == header_blank,
            r.0.spec_report() matches Report::Message(m) && m@ == "Starting up…"@,
            !r.0.spec_did_once(),
            r.0.spec_current_style() == Some(StyleKind::Message),
            ops_view(r.1@) == seq![
                BarOpView::Restyle {
                    kind: StyleKind::Message,
                    sigil: if header_blank {
                        ""@
                    } else {
                        default_repo_sigil()
                    },
                },
                BarOpView::SetMessage("Starting up…"@),
            ],
    {
        let mut st = RepoReporterState {
            name,
            sigil: None,
            header_blank,
            report: Report::Message(String::new()),
            did_once: false,
            current_style: None,
        };
        let ops = st.post_message(owned("Starting up…"));
        assert(ops_view(ops@) =~= seq![
            BarOpView::Restyle {
                kind: StyleKind::Message,
                sigil: if header_blank {
                    ""@
                } else {
                    default_repo_sigil()
                },
            },
            BarOpView::SetMessage("Starting up…"@),
        ]);
        (st, ops)
    }

    /// The repository's name.
    pub fn name(&self) -> (n: &str)
        ensures
            n@ == self.spec_name(),
    {
        self.name.as_str()
    }

    /// Shows a message.
    pub fn post_message(&mut self, msg: String) -> (ops: Vec<BarOp>)
        ensures
            final(self).spec_report() == Report::Message(msg),
            ops_view(ops@) == refresh_ops(
                old(self).spec_current_style(),
                Report::Message(msg),
                old(self).spec_sigil(),
                old(self).spec_header_blank(),
            ),
            final(self).spec_current_style() == Some(StyleKind::Message),
            final(self).spec_name() == old(self).spec_name(),
            final(self).spec_sigil() == old(self).spec_sigil(),
            final(self).spec_header_blank() == old(self).spec_header_blank(),
            final(self).spec_did_once() == old(self).spec_did_once(),
    {
        self.report = Report::Message(msg);
        self.refresh()
    }

    /// Shows step-wise progress.
    pub fn post_progress(&mut self, progress: ProgressPercent) -> (ops: Vec<BarOp>)
        ensures
            final(self).spec_report() == Report::Progress(progress),
            ops_view(ops@) == refresh_ops(
                old(self).spec_current_style(),
                Report::Progress(progress),
                old(self).spec_sigil(),
                old(self).spec_header_blank(),
            ),
            final(self).spec_current_style() == Some(StyleKind::Progress),
            final(self).spec_name() == old(self).spec_name(),
            final(self).spec_sigil() == old(self).spec_sigil(),
            final(self).spec_header_blank() == old(self).spec_header_blank(),
            final(self).spec_did_once() == old(self).spec_did_once(),
    {
        self.report = Report::Progress(progress);
        self.refresh()
    }

    /// Whether a one-time suspension of the bars should happen now; true only the first time.
    pub fn suspend_once(&mut self) -> (go: bool)
        ensures
            go == !old(self).spec_did_once(),
            final(self).spec_did_once(),
            final(self).spec_name() == old(self).spec_name(),
            final(self).spec_sigil() == old(self).spec_sigil(),
            final(self).spec_header_blank() == old(self).spec_header_blank(),
            final(self).spec_report() == old(self).spec_report(),
            final(self).spec_current_style() == old(self).spec_current_style(),
    {
        if !self.did_once {
            self.did_once = true;
            true
        } else {
            false
        }
    }

    /// Finishes the line with a sigil and a message, unless it has finished already: the
    /// first finish wins.
    pub fn finish_once(&mut self, sigil: &'static str, msg: String) -> (ops: Vec<BarOp>)
        ensures
            old(self).spec_sigil() is None ==> {
                &&& final(self).spec_sigil() == Some(sigil@)
                &&& final(self).spec_report() == Report::Message(msg)
                &&& final(self).spec_current_style() == Some(StyleKind::Message)
                &&& ops_view(ops@) == seq![
                    BarOpView::Restyle { kind: StyleKind::Message, sigil: sigil@ },
                    BarOpView::SetMessage(msg@),
                    BarOpView::Finish,
                ]
                &&& final(self).spec_name() == old(self).spec_name()
                &&& final(self).spec_header_blank() == old(self).spec_header_blank()
                &&& final(self).spec_did_once() == old(self).spec_did_once()
            },
            old(self).spec_sigil() is Some ==> *final(self) == *old(self) && ops@.len() == 0,
    {
        if self.sigil.is_none() {
            self.sigil = Some(sigil);
            self.report = Report::Message(msg);
            self.current_style = None;
            let mut ops = self.refresh();
            let ghost before = ops_view(ops@);
            assert(before =~= seq![
                BarOpView::Restyle { kind: StyleKind::Message, sigil: sigil@ },
                BarOpView::SetMessage(msg@),
            ]);
            ops.push(BarOp::Finish);
            assert(ops_view(ops@) =~= before.push(BarOpView::Finish));
            assert(ops_view(ops@) =~= seq![
                BarOpView::Restyle { kind: StyleKind::Message, sigil: sigil@ },
                BarOpView::SetMessage(msg@),
                BarOpView::Finish,
            ]);
            ops
        } else {
            Vec::new()
        }
    }

    /// Deals with an event that the caller did not handle: an event of unknown type is
    /// warned about once, invalid JSON is warned about and ends the reading, and anything
    /// else is passed over.
    pub fn post_unhandled_event(&mut self, event: &Result<Event, String>) -> (h: Handling)
        ensures
            match event {
                Ok(Event::Unknown(ty)) => {
                    &&& h.flow == Flow::Continue
                    &&& !old(self).spec_did_once() ==> (h.print matches Some(n) && n.sigil@
                        == "⚑"@ && n.text@ == unrecognized_text(*ty))
                    &&& old(self).spec_did_once() ==> h.print is None
                    &&& final(self).spec_did_once()
                },
                Err(e) => {
                    &&& h.flow == Flow::Break
                    &&& h.print matches Some(n) && n.sigil@ == "⚑"@ && n.text@ == json_error_text(
                        e@,
                    )
                    &&& final(self).spec_did_once() == old(self).spec_did_once()
                },
                _ => h.flow == Flow::Continue && h.print is None && final(self).spec_did_once()
                    == old(self).spec_did_once(),
            },
            !(event matches Ok(Event::Unknown(_))) ==> *final(self) == *old(self),
            final(self).spec_name() == old(self).spec_name(),
            final(self).spec_sigil() == old(self).spec_sigil(),
            final(self).spec_header_blank() == old(self).spec_header_blank(),
            final(self).spec_report() == old(self).spec_report(),
            final(self).spec_current_style() == old(self).spec_current_style(),
    {
        match event {
            Ok(Event::Unknown(ty)) => {
                let print = if self.suspend_once() {
                    Some(notice("⚑", unrecognized_message(ty)))
                } else {
                    None
                };
                Handling { print, flow: Flow::Continue }
            },
            Err(e) => Handling {
                print: Some(notice("⚑", json_error_message(e.as_str()))),
                flow: Flow::Break,
            },
            _ => Handling { print: None, flow: Flow::Continue },
        }
    }
}

} // verus!

verus! {

/// A repository's bar is restyled exactly when the kind of report changes, and the report
/// itself is always shown after any restyle.
pub proof fn law_restyle_only_on_change(
    current: Option<StyleKind>,
    report: Report,
    sigil: Option<Seq<char>>,
    header_blank: bool,
)
    ensures
        current == Some(kind_of(report)) ==> refresh_ops(current, report, sigil, header_blank) == show_ops(
            report,
        ),
        current != Some(kind_of(report)) ==> refresh_ops(current, report, sigil, header_blank)[0]
            == (BarOpView::Restyle {
            kind: kind_of(report),
            sigil: repo_sigil(kind_of(report), sigil, header_blank),
        }) && refresh_ops(current, report, sigil, header_blank).skip(1) == show_ops(report),
{
    if current == Some(kind_of(report)) {
        assert(refresh_ops(current, report, sigil, header_blank) =~= show_ops(report));
    } else {
        assert(refresh_ops(current, report, sigil, header_blank).skip(1) =~= show_ops(report));
    }
}

} // verus!
