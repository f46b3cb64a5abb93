//! The activity edge detector: reports a change between silence and activity
//! once, at the tick on which it happens, and nothing on the ticks between.

use vstd::prelude::*;

verus! {

/// Whether anybody was heard in the most recent tick.
#[derive(Clone, Copy, Debug, PartialEq, Eq, Structural)]
pub enum ActivityState {
    Silent,
    Active,
}

/// A change of the activity state.
#[derive(Clone, Copy, Debug, PartialEq, Eq, Structural)]
pub enum ActivityEdge {
    /// Somebody was heard after silence.
    Started,
    /// Nobody was heard after activity.
    WentSilent,
}

/// The state that a tick leaves behind.
pub open spec fn state_after(active: bool) -> ActivityState {
    if active {
        ActivityState::Active
    } else {
        ActivityState::Silent
    }
}

/// The notification that a tick causes in a given state: one when the tick's
/// activity differs from the state, none when it matches.
pub open spec fn edge_between(state: ActivityState, active: bool) -> Option<ActivityEdge> {
    match state {
        ActivityState::Silent => if active {
            Some(ActivityEdge::Started)
        } else {
            None
        },
        ActivityState::Active => if active {
            None
        } else {
            Some(ActivityEdge::WentSilent)
        },
    }
}

/// The state in which the tick at position `index` of `ticks` is seen by a
/// detector that began in `start`.
pub open spec fn state_before(start: ActivityState, ticks: Seq<bool>, index: int) -> ActivityState {
    if index <= 0 {
        start
    } else {
        state_after(ticks[index - 1])
    }
}

/// The state that a detector is in after it began in `start` and saw all of
/// `ticks`, one after the other.
pub open spec fn state_after_all(start: ActivityState, ticks: Seq<bool>) -> ActivityState {
    if ticks.len() == 0 {
        start
    } else {
        state_after(ticks.last())
    }
}

/// What a detector reports, tick by tick, when it begins in `start` and sees
/// all of `ticks`, one after the other.
pub open spec fn notifications(start: ActivityState, ticks: Seq<bool>) -> Seq<Option<ActivityEdge>>
    decreases ticks.len(),
{
    if ticks.len() == 0 {
        Seq::empty()
    } else {
        notifications(start, ticks.drop_last()).push(
            edge_between(state_after_all(start, ticks.drop_last()), ticks.last()),
        )
    }
}

/// How many notifications a report holds.
pub open spec fn notification_count(report: Seq<Option<ActivityEdge>>) -> nat
    decreases report.len(),
{
    if report.len() == 0 {
        0
    } else {
        notification_count(report.drop_last()) + if report.last() is Some {
            1nat
        } else {
            0nat
        }
    }
}

/// How many ticks of `ticks` differ in activity from the tick before them,
/// the first being held against `start`.
pub open spec fn boundary_count(start: ActivityState, ticks: Seq<bool>) -> nat
    decreases ticks.len(),
{
    if ticks.len() == 0 {
        0
    } else {
        boundary_count(start, ticks.drop_last()) + if state_after_all(start, ticks.drop_last())
            != state_after(ticks.last()) {
            1nat
        } else {
            0nat
        }
    }
}

/// Over any run of ticks there is one report per tick; the tick at a
/// position is reported exactly when its activity differs from that of the
/// tick before it (for the first tick, from the starting state), as a start
/// when it is active and as a fall to silence when it is not.
pub proof fn lemma_notifications_mark_boundaries(start: ActivityState, ticks: Seq<bool>)
    ensures
        notifications(start, ticks).len() == ticks.len(),
        forall|i: int|
            0 <= i < ticks.len() ==> #[trigger] notifications(start, ticks)[i] == edge_between(
                state_before(start, ticks, i),
                ticks[i],
            ),
        forall|i: int|
            0 <= i < ticks.len() ==> (#[trigger] notifications(start, ticks)[i] is Some
                <==> state_before(start, ticks, i) != state_after(ticks[i])),
    decreases ticks.len(),
{
    if ticks.len() > 0 {
        let front = ticks.drop_last();
        lemma_notifications_mark_boundaries(start, front);
        assert forall|i: int| 0 <= i < ticks.len() implies #[trigger] notifications(
            start,
            ticks,
        )[i] == edge_between(state_before(start, ticks, i), ticks[i]) by {
            if i < front.len() {
                assert(notifications(start, ticks)[i] == notifications(start, front)[i]);
                assert(front[i] == ticks[i]);
                if i > 0 {
                    assert(front[i - 1] == ticks[i - 1]);
                }
            } else {
                if i > 0 {
                    assert(front.last() == ticks[i - 1]);
                }
            }
        }
    }
}

/// Over any run of ticks the detector reports exactly as many times as the
/// activity changes: once per boundary, never once per tick.
pub proof fn lemma_one_notification_per_boundary(start: ActivityState, ticks: Seq<bool>)
    ensures
        notification_count(notifications(start, ticks)) == boundary_count(start, ticks),
    decreases ticks.len(),
{
    if ticks.len() > 0 {
        let front = ticks.drop_last();
        lemma_one_notification_per_boundary(start, front);
        let report = notifications(start, ticks);
        assert(report.drop_last() =~= notifications(start, front));
    }
}

/// Remembers whether the last tick was active.
#[derive(Debug)]
pub struct ActivityDetector {
    state: ActivityState,
}

impl View for ActivityDetector {
    type V = ActivityState;

    closed spec fn view(&self) -> ActivityState {
        self.state
    }
}

impl ActivityDetector {
    /// A detector that has seen nothing yet, which counts as silence.
    pub fn new() -> (detector: ActivityDetector)
        ensures
            detector@ == ActivityState::Silent,
    {
        ActivityDetector { state: ActivityState::Silent }
    }

    /// The state that the last tick left behind.
    pub fn state(&self) -> (state: ActivityState)
        ensures
            state == self@,
    {
        self.state
    }

    /// Takes in one tick's activity. The answer is the change that the tick
    /// brings, if it brings one; the detector then remembers the tick.
    pub fn observe(&mut self, active: bool) -> (edge: Option<ActivityEdge>)
        ensures
            edge == edge_between(old(self)@, active),
            final(self)@ == state_after(active),
    {
        let edge = match self.state {
            ActivityState::Silent => if active {
                Some(ActivityEdge::Started)
            } else {
                None
            },
            ActivityState::Active => if active {
                None
            } else {
                Some(ActivityEdge::WentSilent)
            },
        };
        self.state = if active {
            ActivityState::Active
        } else {
            ActivityState::Silent
        };
        edge
    }
}

} // verus!
