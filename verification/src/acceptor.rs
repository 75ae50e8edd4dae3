//! The listening side: binding once, then accepting connections for as long
//! as the process lives.
//!
//! Like a session, the acceptor does no work on sockets. It is told how the
//! bind and each accept went, and answers with what is to be done next.

use vstd::prelude::*;

verus! {

/// Where the listening side stands.
#[derive(Clone, Copy, Debug, PartialEq, Eq, Structural)]
pub enum Acceptor {
    /// The endpoint is not bound yet.
    Unbound,
    /// The endpoint is bound and connections are accepted.
    Listening,
    /// The endpoint could not be bound. Nothing is served.
    Stopped,
}

/// Something that happened on the listening side.
#[derive(Clone, Copy, Debug, PartialEq, Eq, Structural)]
pub enum AcceptEvent {
    /// The endpoint was bound.
    Bound,
    /// The endpoint could not be bound.
    BindFailed,
    /// A connection was accepted.
    Accepted,
    /// An attempt to accept a connection failed.
    AcceptFailed,
}

/// What the listening side is to do next.
#[derive(Clone, Copy, Debug, PartialEq, Eq, Structural)]
pub enum AcceptAction {
    /// Bind the endpoint.
    Bind,
    /// Wait for the next connection.
    Accept,
    /// Launch a session of its own for the connection just accepted, and,
    /// without waiting for it, wait for the next connection.
    Launch,
    /// Report that the endpoint cannot be bound, and end the process.
    Exit,
}

impl Acceptor {
    /// The listening side after an event.
    ///
    /// A bind that fails is final. Once the endpoint is bound nothing stops
    /// the acceptor: a failed accept is passed over. An event that cannot
    /// happen where the acceptor stands changes nothing.
    pub open spec fn after(self, e: AcceptEvent) -> Acceptor {
        match (self, e) {
            (Acceptor::Unbound, AcceptEvent::Bound) => Acceptor::Listening,
            (Acceptor::Unbound, AcceptEvent::BindFailed) => Acceptor::Stopped,
            _ => self,
        }
    }

    /// What the listening side is waiting to have done.
    pub open spec fn awaited(self) -> AcceptAction {
        match self {
            Acceptor::Unbound => AcceptAction::Bind,
            Acceptor::Listening => AcceptAction::Accept,
            Acceptor::Stopped => AcceptAction::Exit,
        }
    }

    /// What is to be done after an event: to launch a session where a
    /// connection was accepted, and otherwise what the listening side waits
    /// for after the event.
    pub open spec fn answer(self, e: AcceptEvent) -> AcceptAction {
        match (self, e) {
            (Acceptor::Listening, AcceptEvent::Accepted) => AcceptAction::Launch,
            _ => self.after(e).awaited(),
        }
    }

    /// The listening side after a sequence of events, taken in order.
    pub open spec fn after_all(self, events: Seq<AcceptEvent>) -> Acceptor
        decreases events.len(),
    {
        if events.len() == 0 {
            self
        } else {
            self.after_all(events.drop_last()).after(events.last())
        }
    }

    /// The number of sessions that a sequence of events has launched.
    pub open spec fn launched(self, events: Seq<AcceptEvent>) -> nat
        decreases events.len(),
    {
        if events.len() == 0 {
            0
        } else if self.after_all(events.drop_last()).answer(events.last())
            == AcceptAction::Launch {
            self.launched(events.drop_last()) + 1
        } else {
            self.launched(events.drop_last())
        }
    }

    /// The listening side as the process starts.
    pub fn new() -> (acceptor: Acceptor)
        ensures
            acceptor == Acceptor::Unbound,
    {
        Acceptor::Unbound
    }

    /// What the listening side is waiting to have done.
    pub fn awaits(&self) -> (action: AcceptAction)
        ensures
            action == self.awaited(),
    {
        match *self {
            Acceptor::Unbound => AcceptAction::Bind,
            Acceptor::Listening => AcceptAction::Accept,
            Acceptor::Stopped => AcceptAction::Exit,
        }
    }

    /// Takes one event and answers with what is to be done next.
    pub fn step(&mut self, event: AcceptEvent) -> (action: AcceptAction)
        ensures
            *final(self) == old(self).after(event),
            action == old(self).answer(event),
    {
        match *self {
            Acceptor::Unbound => match event {
                AcceptEvent::Bound => {
                    *self = Acceptor::Listening;
                    AcceptAction::Accept
                },
                AcceptEvent::BindFailed => {
                    *self = Acceptor::Stopped;
                    AcceptAction::Exit
                },
                _ => AcceptAction::Bind,
            },
            Acceptor::Listening => match event {
                AcceptEvent::Accepted => AcceptAction::Launch,
                _ => AcceptAction::Accept,
            },
            Acceptor::Stopped => AcceptAction::Exit,
        }
    }
}

/// The number of connections accepted among `events`.
pub open spec fn accepted(events: Seq<AcceptEvent>) -> nat
    decreases events.len(),
{
    if events.len() == 0 {
        0
    } else if events.last() == AcceptEvent::Accepted {
        accepted(events.drop_last()) + 1
    } else {
        accepted(events.drop_last())
    }
}

/// Once it listens, the acceptor listens for good, whatever fails, and it
/// launches one session for each connection it accepts.
pub proof fn lemma_listening_serves_every_connection(events: Seq<AcceptEvent>)
    ensures
        Acceptor::Listening.after_all(events) == Acceptor::Listening,
        Acceptor::Listening.launched(events) == accepted(events),
    decreases events.len(),
{
    if events.len() > 0 {
        lemma_listening_serves_every_connection(events.drop_last());
    }
}

/// A bind that fails is final: the answer is to exit, and whatever follows,
/// no session is launched.
pub proof fn lemma_bind_failure_is_final(events: Seq<AcceptEvent>)
    ensures
        Acceptor::Unbound.answer(AcceptEvent::BindFailed) == AcceptAction::Exit,
        Acceptor::Unbound.after(AcceptEvent::BindFailed) == Acceptor::Stopped,
        Acceptor::Stopped.after_all(events) == Acceptor::Stopped,
        Acceptor::Stopped.launched(events) == 0,
    decreases events.len(),
{
    if events.len() > 0 {
        lemma_bind_failure_is_final(events.drop_last());
    }
}

/// Nothing is launched before the endpoint is bound.
pub proof fn lemma_no_session_before_bind(events: Seq<AcceptEvent>)
    requires
        forall|k: int| 0 <= k < events.len() ==> #[trigger] events[k] != AcceptEvent::Bound,
    ensures
        Acceptor::Unbound.after_all(events) != Acceptor::Listening,
        Acceptor::Unbound.launched(events) == 0,
    decreases events.len(),
{
    if events.len() > 0 {
        let shorter = events.drop_last();
        assert forall|k: int| 0 <= k < shorter.len() implies #[trigger] shorter[k]
            != AcceptEvent::Bound by {
            assert(shorter[k] == events[k]);
        }
        lemma_no_session_before_bind(shorter);
        assert(events[events.len() - 1] != AcceptEvent::Bound);
    }
}

} // verus!
