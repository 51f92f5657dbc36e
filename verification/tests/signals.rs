use boi::signals::IgnoreCount;

#[test]
fn signals_stay_ignored_until_every_guard_is_gone() {
    let mut c = IgnoreCount::new();
    assert!(c.acts_by_default());
    c.acquire();
    c.acquire();
    assert!(!c.acts_by_default());
    c.release();
    assert!(!c.acts_by_default());
    c.release();
    assert!(c.acts_by_default());
}

#[test]
fn count_follows_interleaved_guards() {
    let mut c = IgnoreCount::new();
    let mut live = 0;
    for acquire in [true, true, false, true, false, false, true, false] {
        if acquire {
            assert!(c.can_acquire());
            c.acquire();
            live += 1;
        } else {
            c.release();
            live -= 1;
        }
        assert_eq!(c.acts_by_default(), live == 0);
    }
    assert!(c.acts_by_default());
}

use boi::foreground::{may_yield_foreground, on_child_state, StopAction};

#[test]
fn foreground_decisions() {
    assert!(may_yield_foreground(Some(12), 12));
    assert!(!may_yield_foreground(Some(13), 12));
    assert!(!may_yield_foreground(None, 12));
    assert_eq!(on_child_state(Some(true)), StopAction::StopAlong);
    assert_eq!(on_child_state(Some(false)), StopAction::Ignore);
    assert_eq!(on_child_state(None), StopAction::Ignore);
}
