//! Ignoring common termination signals while children run, for as long as any guard lives.

use vstd::prelude::*;

verus! {

/// How many guards against termination signals are alive. While any is, the signals are
/// ignored; once none is, they act as they would by default.
pub struct IgnoreCount {
    count: usize,
}

impl IgnoreCount {
    /// The number of live guards.
    pub closed spec fn live(&self) -> nat {
        self.count as nat
    }

    /// No guard alive.
    pub fn new() -> (c: IgnoreCount)
        ensures
            c.live() == 0,
    {
        IgnoreCount { count: 0 }
    }

    /// A new guard starts ignoring the signals. So many guards that the count would
    /// overflow are not supported.
    pub fn acquire(&mut self)
        requires
            old(self).live() < usize::MAX,
        ensures
            final(self).live() == old(self).live() + 1,
    {
        self.count = self.count + 1;
    }

    /// Whether one more guard can be counted.
    pub fn can_acquire(&self) -> (b: bool)
        ensures
            b <==> self.live() < usize::MAX,
    {
        self.count < usize::MAX
    }

    /// A guard is dropped.
    pub fn release(&mut self)
        requires
            old(self).live() > 0,
        ensures
            final(self).live() == old(self).live() - 1,
    {
        self.count = self.count - 1;
    }

    /// Whether a signal that arrives now should act as it would by default: only when no
    /// guard is alive.
    pub fn acts_by_default(&self) -> (b: bool)
        ensures
            b <==> self.live() == 0,
    {
        self.count == 0
    }
}


/// What happens to the guards: one is created, or a live one is dropped.
#[derive(Clone, Copy, PartialEq, Eq, Structural, Debug)]
pub enum GuardEvent {
    Acquire,
    Release,
}

/// How many of the events are of one kind.
pub open spec fn count_of(events: Seq<GuardEvent>, which: GuardEvent) -> nat
    decreases events.len(),
{
    if events.len() == 0 {
        0
    } else {
        count_of(events.drop_last(), which) + if events.last() == which {
            1nat
        } else {
            0nat
        }
    }
}

/// The guards alive after the events: those created, less those dropped.
pub open spec fn live_guards(events: Seq<GuardEvent>) -> int {
    count_of(events, GuardEvent::Acquire) - count_of(events, GuardEvent::Release)
}

proof fn lemma_count_of_take(events: Seq<GuardEvent>, which: GuardEvent, k: int)
    requires
        0 <= k < events.len(),
    ensures
        count_of(events.take(k + 1), which) == count_of(events.take(k), which) + if events[k]
            == which {
            1nat
        } else {
            0nat
        },
{
    assert(events.take(k + 1).drop_last() =~= events.take(k));
}

proof fn lemma_tracks(events: Seq<GuardEvent>, counts: Seq<IgnoreCount>, k: int)
    requires
        counts.len() == events.len() + 1,
        counts[0].live() == 0,
        forall|i: int|
            0 <= i < events.len() ==> (#[trigger] events[i] == GuardEvent::Acquire ==> counts[i
                + 1].live() == counts[i].live() + 1) && (events[i] == GuardEvent::Release
                ==> counts[i + 1].live() == counts[i].live() - 1),
        0 <= k <= events.len(),
    ensures
        counts[k].live() == live_guards(events.take(k)),
    decreases k,
{
    if k == 0 {
        assert(events.take(0) =~= Seq::<GuardEvent>::empty());
    } else {
        lemma_tracks(events, counts, k - 1);
        lemma_count_of_take(events, GuardEvent::Acquire, k - 1);
        lemma_count_of_take(events, GuardEvent::Release, k - 1);
        assert(events[k - 1] == GuardEvent::Acquire || events[k - 1] == GuardEvent::Release);
    }
}

/// Over any interleaving of guards created and dropped, starting from `IgnoreCount::new`,
/// the count is always the number of live guards; so a guard dropped while alive always
/// finds the count positive, as `release` needs, and signals act by default exactly when
/// no guard is alive. `counts[i]` is the count before the i-th event and `counts[i + 1]`
/// after it, as `acquire` and `release` leave it; no guard is dropped before it was created.
pub proof fn law_count_is_live_guards(events: Seq<GuardEvent>, counts: Seq<IgnoreCount>)
    requires
        counts.len() == events.len() + 1,
        counts[0].live() == 0,
        forall|i: int|
            0 <= i < events.len() ==> (#[trigger] events[i] == GuardEvent::Acquire ==> counts[i
                + 1].live() == counts[i].live() + 1) && (events[i] == GuardEvent::Release
                ==> counts[i + 1].live() == counts[i].live() - 1),
        forall|k: int|
            0 <= k <= events.len() ==> count_of(#[trigger] events.take(k), GuardEvent::Release)
                <= count_of(events.take(k), GuardEvent::Acquire),
    ensures
        forall|k: int| 0 <= k <= events.len() ==> (#[trigger] counts[k]).live() == live_guards(events.take(k)),
        forall|i: int|
            0 <= i < events.len() && #[trigger] events[i] == GuardEvent::Release ==> counts[i].live() > 0,
        forall|k: int|
            0 <= k <= events.len() ==> ((#[trigger] counts[k]).live() == 0 <==> live_guards(
                events.take(k),
            ) == 0),
{
    assert forall|k: int| 0 <= k <= events.len() implies (#[trigger] counts[k]).live() == live_guards(
        events.take(k),
    ) by {
        lemma_tracks(events, counts, k);
    }
    assert forall|i: int|
        0 <= i < events.len() && #[trigger] events[i] == GuardEvent::Release implies counts[i].live() > 0 by {
        lemma_tracks(events, counts, i);
        lemma_count_of_take(events, GuardEvent::Acquire, i);
        lemma_count_of_take(events, GuardEvent::Release, i);
        assert(count_of(events.take(i + 1), GuardEvent::Release) <= count_of(
            events.take(i + 1),
            GuardEvent::Acquire,
        ));
    }
}

} // verus!
