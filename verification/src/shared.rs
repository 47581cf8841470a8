use crate::cursor::{CursorState, CursorType, CursorView};
use crate::session::{SessionEvent, SessionView};
use vstd::prelude::*;

verus! {

/// One session with the cursors that are bound to it.
pub struct SharedView<T> {
    pub session: SessionView,
    /// The cursors that share the session.
    pub cursors: Seq<CursorView<T>>,
    /// For each cursor, whether a round-trip of it is outstanding.
    pub in_round_trip: Seq<bool>,
}

/// What the cursors of a session and their callers do, one step at a time.
/// Steps of different cursors may come in any order.
pub enum SharedEvent<T> {
    /// The caller of a cursor asks it to advance.
    Advance(int),
    /// A cursor whose advance asked for a fetch asks for the session.
    Enter(int),
    /// The round-trip of a cursor ends and brings a batch.
    Complete(int, Seq<T>),
    /// The round-trip of a cursor ends in a failure.
    Fail(int),
}

impl<T> SharedView<T> {
    /// A session that nobody holds, with cursors that have not been read.
    pub open spec fn start(count: nat) -> SharedView<T> {
        SharedView {
            session: SessionView::idle(),
            cursors: Seq::new(count, |i: int| CursorView::<T>::start(CursorType::Session)),
            in_round_trip: Seq::new(count, |i: int| false),
        }
    }

    /// Whether a cursor may start its round-trip now: its advance has asked
    /// for a fetch, and nobody holds the session.
    pub open spec fn may_enter(self, i: int) -> bool {
        &&& 0 <= i < self.cursors.len()
        &&& self.cursors[i].state == CursorState::Advancing
        &&& !self.in_round_trip[i]
        &&& self.session.grants()
    }

    /// Whether a round-trip of a cursor is outstanding.
    pub open spec fn fetching(self, i: int) -> bool {
        0 <= i < self.cursors.len() && self.in_round_trip[i]
    }

    /// The session and its cursors after one step. A step that is not due
    /// changes nothing: a cursor that asks for a session that is held waits.
    pub open spec fn after(self, event: SharedEvent<T>) -> SharedView<T> {
        match event {
            SharedEvent::Advance(i) => if 0 <= i < self.cursors.len() {
                SharedView { cursors: self.cursors.update(i, self.cursors[i].advanced()), ..self }
            } else {
                self
            },
            SharedEvent::Enter(i) => if self.may_enter(i) {
                SharedView {
                    session: self.session.after(SessionEvent::Acquire),
                    in_round_trip: self.in_round_trip.update(i, true),
                    ..self
                }
            } else {
                self
            },
            SharedEvent::Complete(i, batch) => if self.fetching(i) {
                SharedView {
                    session: self.session.after(SessionEvent::Release),
                    cursors: self.cursors.update(i, self.cursors[i].refilled(batch)),
                    in_round_trip: self.in_round_trip.update(i, false),
                }
            } else {
                self
            },
            SharedEvent::Fail(i) => if self.fetching(i) {
                SharedView {
                    session: self.session.after(SessionEvent::Release),
                    cursors: self.cursors.update(i, self.cursors[i].failed()),
                    in_round_trip: self.in_round_trip.update(i, false),
                }
            } else {
                self
            },
        }
    }

    /// The session and its cursors after a series of steps, in their order.
    pub open spec fn run(self, events: Seq<SharedEvent<T>>) -> SharedView<T>
        decreases events.len(),
    {
        if events.len() == 0 {
            self
        } else {
            self.run(events.drop_last()).after(events.last())
        }
    }

    /// What every step keeps: the session counts the round-trips that are
    /// outstanding, there is at most one, and it belongs to a cursor that
    /// waits for it.
    pub open spec fn consistent(self) -> bool {
        &&& self.cursors.len() == self.in_round_trip.len()
        &&& self.session.exclusive()
        &&& self.session.in_flight == 0 ==> forall|i: int|
            0 <= i < self.cursors.len() ==> !self.in_round_trip[i]
        &&& forall|i: int, j: int|
            0 <= i < self.cursors.len() && 0 <= j < self.cursors.len() && self.in_round_trip[i]
                && self.in_round_trip[j] ==> i == j
        &&& forall|i: int|
            0 <= i < self.cursors.len() && self.in_round_trip[i] ==> self.cursors[i].state
                == CursorState::Advancing && self.session.in_flight == 1
        &&& forall|i: int|
            0 <= i < self.cursors.len() ==> (#[trigger] self.cursors[i]).well_formed()
    }
}

/// One step keeps the session and its cursors consistent.
pub proof fn lemma_step_keeps_consistent<T>(shared: SharedView<T>, event: SharedEvent<T>)
    requires
        shared.consistent(),
    ensures
        shared.after(event).consistent(),
{
    let next = shared.after(event);
    match event {
        SharedEvent::Advance(i) => {
            if 0 <= i < shared.cursors.len() {
                assert forall|k: int| 0 <= k < next.cursors.len() implies (
                #[trigger] next.cursors[k]).well_formed() by {
                    if k != i {
                        assert(next.cursors[k] == shared.cursors[k]);
                    }
                }
                assert forall|k: int|
                    0 <= k < next.cursors.len() && next.in_round_trip[k] implies next.cursors[k].state
                    == CursorState::Advancing && next.session.in_flight == 1 by {
                    if k != i {
                        assert(next.cursors[k] == shared.cursors[k]);
                    }
                }
            }
        },
        SharedEvent::Enter(i) => {
            if shared.may_enter(i) {
                assert forall|k: int| 0 <= k < shared.cursors.len() implies !shared.in_round_trip[k] by {
                }
            }
        },
        SharedEvent::Complete(i, _) => {
            if shared.fetching(i) {
                assert forall|k: int| 0 <= k < next.cursors.len() implies !next.in_round_trip[k] by {
                    if k != i {
                        assert(!shared.in_round_trip[k]);
                    }
                }
                assert forall|k: int| 0 <= k < next.cursors.len() implies (
                #[trigger] next.cursors[k]).well_formed() by {
                    if k != i {
                        assert(next.cursors[k] == shared.cursors[k]);
                    }
                }
            }
        },
        SharedEvent::Fail(i) => {
            if shared.fetching(i) {
                assert forall|k: int| 0 <= k < next.cursors.len() implies !next.in_round_trip[k] by {
                    if k != i {
                        assert(!shared.in_round_trip[k]);
                    }
                }
                assert forall|k: int| 0 <= k < next.cursors.len() implies (
                #[trigger] next.cursors[k]).well_formed() by {
                    if k != i {
                        assert(next.cursors[k] == shared.cursors[k]);
                    }
                }
            }
        },
    }
}

/// Every series of steps leaves the session and its cursors consistent.
pub proof fn lemma_run_is_consistent<T>(count: nat, events: Seq<SharedEvent<T>>)
    ensures
        SharedView::<T>::start(count).run(events).consistent(),
    decreases events.len(),
{
    if events.len() > 0 {
        lemma_run_is_consistent::<T>(count, events.drop_last());
        lemma_step_keeps_consistent(
            SharedView::<T>::start(count).run(events.drop_last()),
            events.last(),
        );
    }
}

/// Session mutual exclusion: whatever the cursors that share a session and
/// their callers do, and in whatever order, at no point do two of the
/// cursors have a round-trip outstanding, and the session never counts more
/// than one operation in flight.
pub proof fn lemma_cursors_take_turns<T>(
    count: nat,
    events: Seq<SharedEvent<T>>,
    first: int,
    second: int,
)
    requires
        first != second,
    ensures
        !(SharedView::<T>::start(count).run(events).fetching(first) && SharedView::<T>::start(
            count,
        ).run(events).fetching(second)),
        SharedView::<T>::start(count).run(events).session.peak <= 1,
{
    lemma_run_is_consistent::<T>(count, events);
}

/// A cursor that asks for a session while the round-trip of another one is
/// outstanding does not get it: it waits, and nothing changes.
pub proof fn lemma_second_cursor_waits<T>(shared: SharedView<T>, holder: int, asking: int)
    requires
        shared.consistent(),
        shared.fetching(holder),
    ensures
        shared.after(SharedEvent::Enter(asking)) == shared,
{
}

} // verus!
