use vstd::prelude::*;

verus! {

/// What an operation does to the session that it shares with others.
pub enum SessionEvent {
    /// An operation asks for the session. It gets it if no other holds it.
    Acquire,
    /// The operation that holds the session gives it back.
    Release,
}

/// The mathematical content of a [`SessionLock`].
pub struct SessionView {
    /// How many operations have a round-trip outstanding on the session.
    pub in_flight: nat,
    /// The largest number that were ever outstanding at once.
    pub peak: nat,
}

impl SessionView {
    /// A session that nobody holds and nobody has used.
    pub open spec fn idle() -> SessionView {
        SessionView { in_flight: 0, peak: 0 }
    }

    /// Whether an operation that asks for the session gets it.
    pub open spec fn grants(self) -> bool {
        self.in_flight == 0
    }

    /// The session after one event. A request for a session that is held
    /// changes nothing: the operation that made it has to wait. A release of
    /// a session that nobody holds changes nothing either.
    pub open spec fn after(self, event: SessionEvent) -> SessionView {
        match event {
            SessionEvent::Acquire => if self.grants() {
                SessionView {
                    in_flight: self.in_flight + 1,
                    peak: if self.peak < self.in_flight + 1 {
                        self.in_flight + 1
                    } else {
                        self.peak
                    },
                }
            } else {
                self
            },
            SessionEvent::Release => if self.in_flight > 0 {
                SessionView { in_flight: (self.in_flight - 1) as nat, ..self }
            } else {
                self
            },
        }
    }

    /// The session after a series of events, in their order.
    pub open spec fn run(self, events: Seq<SessionEvent>) -> SessionView
        decreases events.len(),
    {
        if events.len() == 0 {
            self
        } else {
            self.run(events.drop_last()).after(events.last())
        }
    }

    /// At most one operation is and ever was in flight.
    pub open spec fn exclusive(self) -> bool {
        self.in_flight <= self.peak <= 1
    }
}

/// The discipline of one shared session: at most one remote operation uses
/// the session at a time. Every operation that needs it, the batch
/// fetch of a cursor bound to it among them, asks for it, makes its
/// round-trip once it has it, and gives it back. The lock counts the
/// operations in flight and remembers the largest count that it saw.
#[derive(Debug, PartialEq)]
pub struct SessionLock {
    in_flight: usize,
    peak: usize,
}

impl View for SessionLock {
    type V = SessionView;

    closed spec fn view(&self) -> SessionView {
        SessionView { in_flight: self.in_flight as nat, peak: self.peak as nat }
    }
}

impl SessionLock {
    #[verifier::type_invariant]
    spec fn inv(&self) -> bool {
        self@.exclusive()
    }

    /// The lock of a session that nobody holds.
    pub fn new() -> (lock: SessionLock)
        ensures
            lock@ == SessionView::idle(),
    {
        SessionLock { in_flight: 0, peak: 0 }
    }

    /// Asks for the session. It is granted exactly when no operation is in
    /// flight; otherwise nothing changes and the caller has to wait.
    pub fn try_acquire(&mut self) -> (granted: bool)
        ensures
            granted == old(self)@.grants(),
            final(self)@ == old(self)@.after(SessionEvent::Acquire),
            final(self)@.exclusive(),
    {
        proof {
            use_type_invariant(&*self);
        }
        if self.in_flight == 0 {
            self.peak = 1;
            self.in_flight = 1;
            true
        } else {
            false
        }
    }

    /// Gives the session back. Returns whether it was held.
    pub fn release(&mut self) -> (held: bool)
        ensures
            held == (old(self)@.in_flight > 0),
            final(self)@ == old(self)@.after(SessionEvent::Release),
            final(self)@.exclusive(),
    {
        proof {
            use_type_invariant(&*self);
        }
        if self.in_flight > 0 {
            self.in_flight = 0;
            true
        } else {
            false
        }
    }

    /// How many operations are in flight: none or one.
    pub fn in_flight(&self) -> (n: usize)
        ensures
            n == self@.in_flight,
            n <= 1,
    {
        proof {
            use_type_invariant(self);
        }
        self.in_flight
    }

    /// The largest number of operations that were ever in flight at once.
    pub fn peak(&self) -> (n: usize)
        ensures
            n == self@.peak,
            n <= 1,
    {
        proof {
            use_type_invariant(self);
        }
        self.peak
    }
}

/// One event keeps the session exclusive.
pub proof fn lemma_event_keeps_exclusive(session: SessionView, event: SessionEvent)
    requires
        session.exclusive(),
    ensures
        session.after(event).exclusive(),
{
}

/// Mutual exclusion: in whatever order the operations that share a session
/// ask for it and give it back, at no point is more than one of them in
/// flight, and a request made while one is in flight is not granted.
pub proof fn lemma_session_mutual_exclusion(events: Seq<SessionEvent>)
    ensures
        SessionView::idle().run(events).exclusive(),
        SessionView::idle().run(events).in_flight == 1 ==> !SessionView::idle().run(events).grants(),
    decreases events.len(),
{
    if events.len() > 0 {
        lemma_session_mutual_exclusion(events.drop_last());
        lemma_event_keeps_exclusive(SessionView::idle().run(events.drop_last()), events.last());
    }
}

} // verus!
