//! Running a child like a shell does: the decisions about the terminal's foreground and
//! about a stopped child.

use vstd::prelude::*;

verus! {

/// Whether this process may hand the terminal's foreground to a child: only when it can
/// read the terminal's foreground process group and that group is its own.
pub fn may_yield_foreground(tty_foreground: Option<i32>, own_group: i32) -> (r: bool)
    ensures
        r <==> tty_foreground == Some(own_group),
{
    match tty_foreground {
        Some(g) => g == own_group,
        None => false,
    }
}

/// What to do when a child's process group changes state.
#[derive(Clone, Copy, PartialEq, Eq, Structural, Debug)]
pub enum StopAction {
    /// Nothing: the child did not stop, or its state could not be read.
    Ignore,
    /// Stop this process as the child stopped; once resumed, take the foreground back for
    /// the child and continue it.
    StopAlong,
}

/// What to do given whether the child is stopped (`None` when its state could not be read).
pub fn on_child_state(stopped: Option<bool>) -> (a: StopAction)
    ensures
        a == if stopped == Some(true) {
            StopAction::StopAlong
        } else {
            StopAction::Ignore
        },
{
    match stopped {
        Some(true) => StopAction::StopAlong,
        _ => StopAction::Ignore,
    }
}

} // verus!
