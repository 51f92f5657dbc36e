//! Live progress reports on a terminal progress bar: what to show, and when to restyle the bar.

use vstd::prelude::*;

use crate::borg::ProgressPercent;
use crate::text::owned;

verus! {

/// What a progress bar reports: a message, or step-wise progress.
#[derive(Debug, PartialEq, Eq)]
pub enum Report {
    Message(String),
    Progress(ProgressPercent),
}

/// The two looks of a progress bar: a spinner with a message, or a bar with counts.
#[derive(Clone, Copy, PartialEq, Eq, Structural, Debug)]
pub enum StyleKind {
    Message,
    Progress,
}

/// The look that a report calls for.
pub open spec fn kind_of(r: Report) -> StyleKind {
    match r {
        Report::Message(_) => StyleKind::Message,
        Report::Progress(_) => StyleKind::Progress,
    }
}

/// An operation on a progress bar.
#[derive(Debug, PartialEq, Eq)]
pub enum BarOp {
    /// Switches the bar to a look, with a sigil for templates that show one.
    Restyle { kind: StyleKind, sigil: &'static str },
    SetMessage(String),
    SetLength(u64),
    SetPosition(u64),
    /// Leaves the bar in its final state.
    Finish,
}

/// An operation on a progress bar, in terms of plain values.
pub enum BarOpView {
    Restyle { kind: StyleKind, sigil: Seq<char> },
    SetMessage(Seq<char>),
    SetLength(u64),
    SetPosition(u64),
    Finish,
}

impl View for BarOp {
    type V = BarOpView;

    open spec fn view(&self) -> BarOpView {
        match self {
            BarOp::Restyle { kind, sigil } => BarOpView::Restyle { kind: *kind, sigil: sigil@ },
            BarOp::SetMessage(m) => BarOpView::SetMessage(m@),
            BarOp::SetLength(n) => BarOpView::SetLength(*n),
            BarOp::SetPosition(n) => BarOpView::SetPosition(*n),
            BarOp::Finish => BarOpView::Finish,
        }
    }
}

/// The plain views of a list of operations.
pub open spec fn ops_view(ops: Seq<BarOp>) -> Seq<BarOpView> {
    ops.map_values(|o: BarOp| o@)
}

/// The operations that show a report on a bar already in the right look: its message, and
/// for progress the length and position too.
pub open spec fn show_ops(r: Report) -> Seq<BarOpView> {
    match r {
        Report::Message(m) => seq![BarOpView::SetMessage(m@)],
        Report::Progress(p) => seq![
            BarOpView::SetMessage(p.message@),
            BarOpView::SetLength(p.total),
            BarOpView::SetPosition(p.current),
        ],
    }
}

/// Appends the operations that show `r`.
pub fn push_show_ops(ops: &mut Vec<BarOp>, r: &Report)
    ensures
        ops_view(final(ops)@) == ops_view(old(ops)@) + show_ops(*r),
{
    let ghost before = ops_view(ops@);
    match r {
        Report::Message(m) => {
            ops.push(BarOp::SetMessage(m.clone()));
        },
        Report::Progress(p) => {
            ops.push(BarOp::SetMessage(p.message.clone()));
            ops.push(BarOp::SetLength(p.total));
            ops.push(BarOp::SetPosition(p.current));
        },
    }
    assert(ops_view(ops@) =~= before + show_ops(*r));
}

/// The look of a report.
pub fn report_kind(r: &Report) -> (k: StyleKind)
    ensures
        k == kind_of(*r),
{
    match r {
        Report::Message(_) => StyleKind::Message,
        Report::Progress(_) => StyleKind::Progress,
    }
}

/// The bar template for each look of a single progress bar.
pub fn style_template(kind: StyleKind) -> (t: &'static str)
    ensures
        t@ == match kind {
            StyleKind::Message => "[boi] {spinner} {wide_msg}"@,
            StyleKind::Progress => "[boi] {spinner} {bar} {pos}/{len} • {wide_msg}"@,
        },
{
    match kind {
        StyleKind::Message => "[boi] {spinner} {wide_msg}",
        StyleKind::Progress => "[boi] {spinner} {bar} {pos}/{len} • {wide_msg}",
    }
}

/// A single progress bar that restyles itself only when the kind of report changes.
pub struct Reporter {
    last_style: StyleKind,
    did_once: bool,
}

impl Reporter {
    /// The look the bar has now.
    pub closed spec fn spec_last_style(&self) -> StyleKind {
        self.last_style
    }

    /// Whether the one-time suspension has happened.
    pub closed spec fn spec_did_once(&self) -> bool {
        self.did_once
    }

    /// A bar styled for its first report and showing it.
    pub fn new(state: &Report) -> (r: (Reporter, Vec<BarOp>))
        ensures
            r.0.spec_last_style() == kind_of(*state),
            !r.0.spec_did_once(),
            ops_view(r.1@) == seq![BarOpView::Restyle { kind: kind_of(*state), sigil: ""@ }] + show_ops(
                *state,
            ),
    {
        let kind = report_kind(state);
        let mut ops: Vec<BarOp> = Vec::new();
        ops.push(BarOp::Restyle { kind, sigil: "" });
        push_show_ops(&mut ops, state);
        (Reporter { last_style: kind, did_once: false }, ops)
    }

    /// Shows a new report, restyling the bar first when its kind differs from the last one.
    pub fn post(&mut self, state: &Report) -> (ops: Vec<BarOp>)
        ensures
            final(self).spec_last_style() == kind_of(*state),
            final(self).spec_did_once() == old(self).spec_did_once(),
            ops_view(ops@) == (if old(self).spec_last_style() != kind_of(*state) {
                seq![BarOpView::Restyle { kind: kind_of(*state), sigil: ""@ }]
            } else {
                Seq::empty()
            }) + show_ops(*state),
    {
        let kind = report_kind(state);
        let mut ops: Vec<BarOp> = Vec::new();
        if self.last_style != kind {
            ops.push(BarOp::Restyle { kind, sigil: "" });
            self.last_style = kind;
        }
        push_show_ops(&mut ops, state);
        ops
    }

    /// Whether a one-time suspension of the bar should happen now; true only the first time.
    pub fn suspend_once(&mut self) -> (go: bool)
        ensures
            go == !old(self).spec_did_once(),
            final(self).spec_did_once(),
            final(self).spec_last_style() == old(self).spec_last_style(),
    {
        if !self.did_once {
            self.did_once = true;
            true
        } else {
            false
        }
    }
}


/// On a bar fresh from `Reporter::new`, of any number of `suspend_once` calls, with posts or
/// nothing between them, only the first says to go ahead: its operation runs once and every
/// later one is dropped. `before[i]` and `after[i]` are the bar around the i-th call, and
/// `answers[i]` is what that call returned.
pub proof fn law_suspend_once_runs_first_only(before: Seq<Reporter>, after: Seq<Reporter>, answers: Seq<bool>)
    requires
        before.len() == answers.len(),
        after.len() == answers.len(),
        answers.len() > 0 ==> !before[0].spec_did_once(),
        forall|i: int|
            0 <= i < answers.len() ==> #[trigger] answers[i] == !before[i].spec_did_once()
                && after[i].spec_did_once(),
        forall|i: int|
            0 < i < answers.len() ==> #[trigger] before[i].spec_did_once() == after[i - 1].spec_did_once(),
    ensures
        answers.len() > 0 ==> answers[0],
        forall|i: int| 0 < i < answers.len() ==> !(#[trigger] answers[i]),
{
    assert forall|i: int| 0 < i < answers.len() implies !(#[trigger] answers[i]) by {
        assert(answers[i - 1] == !before[i - 1].spec_did_once() && after[i - 1].spec_did_once());
        assert(answers[i] == !before[i].spec_did_once());
        assert(before[i].spec_did_once() == after[i - 1].spec_did_once());
    }
}

} // verus!
