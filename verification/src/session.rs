//! One accepted connection, from its first read to its end.
//!
//! A session does no reading itself. It is told what happened on the
//! connection, one event at a time, and answers with what is to be done
//! next. Between a read that brought data and the next read it asks once for
//! the destination the connection was first addressed to; only when that is
//! known does the read become a record.

use vstd::prelude::*;
use crate::destination::{dotted_quad, OriginalDestination, ResolutionError};
use crate::payload::{hex_string, payload_hex, payload_text, text_of};
use crate::record::{ConnectionRecord, RecordView};

verus! {

/// The seconds a session waits for data before it gives the connection up.
pub const READ_DEADLINE_SECONDS: u64 = 10;

/// The most bytes that one read is asked for.
pub const READ_BUFFER_BYTES: usize = 4096;

/// What a session is waiting for.
#[derive(Clone, Copy, Debug, PartialEq, Eq, Structural)]
pub enum Phase {
    /// The outcome of the next read.
    AwaitingRead,
    /// The destination of the connection, for the data that was just read.
    AwaitingDestination,
    /// Nothing: the session is over.
    Closed,
}

/// Something that happened on a session's connection.
#[derive(Debug, PartialEq, Eq)]
pub enum Event {
    /// A read returned these bytes. None at all means the peer has closed.
    Read(Vec<u8>),
    /// A read failed.
    ReadFailed,
    /// The deadline for a read passed with nothing received.
    ReadTimedOut,
    /// The destination was asked for, with this outcome, at `now` seconds
    /// since the epoch.
    Resolution { outcome: Result<OriginalDestination, ResolutionError>, now: u64 },
}

/// What is to be done next on a session's connection.
#[derive(Debug, PartialEq, Eq)]
pub enum Action {
    /// Read again, and wait no longer than the deadline.
    AwaitRead,
    /// Ask for the destination of the connection, once.
    Resolve,
    /// Write this record out, then read again.
    Emit(ConnectionRecord),
    /// Release the connection.
    Close,
}

/// An event as a mathematical value.
pub enum EventView {
    Read(Seq<u8>),
    ReadFailed,
    ReadTimedOut,
    Resolution { outcome: Result<OriginalDestination, ResolutionError>, now: u64 },
}

/// An action as a mathematical value.
pub enum ActionView {
    AwaitRead,
    Resolve,
    Emit(RecordView),
    Close,
}

impl View for Event {
    type V = EventView;

    open spec fn view(&self) -> EventView {
        match *self {
            Event::Read(bytes) => EventView::Read(bytes@),
            Event::ReadFailed => EventView::ReadFailed,
            Event::ReadTimedOut => EventView::ReadTimedOut,
            Event::Resolution { outcome, now } => EventView::Resolution { outcome, now },
        }
    }
}

impl View for Action {
    type V = ActionView;

    open spec fn view(&self) -> ActionView {
        match *self {
            Action::AwaitRead => ActionView::AwaitRead,
            Action::Resolve => ActionView::Resolve,
            Action::Emit(record) => ActionView::Emit(record@),
            Action::Close => ActionView::Close,
        }
    }
}

/// A session as a mathematical value.
pub struct SessionView {
    /// The identifier, fixed when the session began.
    pub session_id: Seq<char>,
    /// The address of the peer.
    pub peer_address: Seq<char>,
    /// The port of the peer.
    pub peer_port: u16,
    /// What the session is waiting for.
    pub phase: Phase,
    /// The data of the last read, while its destination is being asked for.
    pub pending: Seq<u8>,
    /// The timestamp of the last record, or zero before the first.
    pub last_timestamp: u64,
}

impl SessionView {
    /// A session waits for a destination only with data in hand.
    pub open spec fn wf(self) -> bool {
        self.phase == Phase::AwaitingDestination ==> self.pending.len() > 0
    }

    /// The session as it begins: waiting for its first read.
    pub open spec fn fresh(session_id: Seq<char>, peer_address: Seq<char>, peer_port: u16) -> SessionView {
        SessionView {
            session_id,
            peer_address,
            peer_port,
            phase: Phase::AwaitingRead,
            pending: Seq::empty(),
            last_timestamp: 0,
        }
    }
}

/// The timestamp of a record made at `now`, after one stamped `last`: a
/// clock that was set back does not make a session's records go back in
/// time.
pub open spec fn stamp(last: u64, now: u64) -> u64 {
    if now >= last {
        now
    } else {
        last
    }
}

/// The record for the data that `s` holds, once its destination is known.
pub open spec fn record_of(s: SessionView, destination: OriginalDestination, now: u64) -> RecordView {
    RecordView {
        timestamp: stamp(s.last_timestamp, now),
        payload: text_of(s.pending),
        payload_hex: hex_string(s.pending),
        source_ip: s.peer_address,
        source_port: s.peer_port,
        destination_ip: dotted_quad(destination.octets@),
        destination_port: destination.port,
        session_id: s.session_id,
    }
}

/// The session after an event.
///
/// While a read is awaited, data moves the session on to ask for the
/// destination; an empty read, a failed one and a passed deadline close it.
/// While the destination is awaited, its outcome, whichever it is, moves the
/// session back to reading. An event that the session is not waiting for
/// changes nothing, and a closed session stays closed.
pub open spec fn next(s: SessionView, e: EventView) -> SessionView {
    match s.phase {
        Phase::AwaitingRead => match e {
            EventView::Read(bytes) => if bytes.len() > 0 {
                SessionView { phase: Phase::AwaitingDestination, pending: bytes, ..s }
            } else {
                SessionView { phase: Phase::Closed, ..s }
            },
            EventView::ReadFailed => SessionView { phase: Phase::Closed, ..s },
            EventView::ReadTimedOut => SessionView { phase: Phase::Closed, ..s },
            EventView::Resolution { .. } => s,
        },
        Phase::AwaitingDestination => match e {
            EventView::Resolution { outcome, now } => SessionView {
                phase: Phase::AwaitingRead,
                pending: Seq::empty(),
                last_timestamp: if outcome is Ok {
                    stamp(s.last_timestamp, now)
                } else {
                    s.last_timestamp
                },
                ..s
            },
            _ => s,
        },
        Phase::Closed => s,
    }
}

/// What a session in a given phase is waiting to have done.
pub open spec fn awaited(phase: Phase) -> ActionView {
    match phase {
        Phase::AwaitingRead => ActionView::AwaitRead,
        Phase::AwaitingDestination => ActionView::Resolve,
        Phase::Closed => ActionView::Close,
    }
}

/// What is to be done after an event.
///
/// A record is emitted in one case only: the destination was awaited and
/// was found. Where it was not found the data is dropped and reading goes
/// on. In every other case the answer is what the session waits for after
/// the event.
pub open spec fn action_of(s: SessionView, e: EventView) -> ActionView {
    match (s.phase, e) {
        (Phase::AwaitingDestination, EventView::Resolution { outcome: Ok(destination), now }) => {
            ActionView::Emit(record_of(s, destination, now))
        },
        _ => awaited(next(s, e).phase),
    }
}

/// Whether `id` has the shape of a random identifier: thirty-six characters,
/// lowercase hexadecimal digits in five groups of 8, 4, 4, 4 and 12 with a
/// hyphen between each two, the third group starting with `4` and the
/// fourth with one of `8`, `9`, `a`, `b`.
pub open spec fn is_random_id(id: Seq<char>) -> bool {
    &&& id.len() == 36
    &&& forall|i: int|
        0 <= i < 36 ==> if i == 8 || i == 13 || i == 18 || i == 23 {
            #[trigger] id[i] == '-'
        } else {
            '0' <= id[i] <= '9' || 'a' <= id[i] <= 'f'
        }
    &&& id[14] == '4'
    &&& (id[19] == '8' || id[19] == '9' || id[19] == 'a' || id[19] == 'b')
}

/// Calls `Uuid::new_v4` and renders the identifier with its `Display`. The
/// identifier is random, so the contract says only what holds of every one:
/// the hyphenated lowercase form, with the version and variant digits that
/// `new_v4` sets. `new_v4` aborts where the operating system can give no
/// random bytes.
#[verifier::external_body]
fn random_id() -> (id: String)
    ensures
        is_random_id(id@),
{
    uuid::Uuid::new_v4().to_string()
}

/// One accepted connection.
pub struct Session {
    session_id: String,
    peer_address: String,
    peer_port: u16,
    phase: Phase,
    pending: Vec<u8>,
    last_timestamp: u64,
}

impl View for Session {
    type V = SessionView;

    closed spec fn view(&self) -> SessionView {
        SessionView {
            session_id: self.session_id@,
            peer_address: self.peer_address@,
            peer_port: self.peer_port,
            phase: self.phase,
            pending: self.pending@,
            last_timestamp: self.last_timestamp,
        }
    }
}

impl Session {
    #[verifier::type_invariant]
    spec fn inv(self) -> bool {
        self.phase == Phase::AwaitingDestination ==> self.pending@.len() > 0
    }

    /// Begins the session of a connection from the given peer, under a new
    /// random identifier.
    pub fn start(peer_address: String, peer_port: u16) -> (session: Session)
        ensures
            is_random_id(session@.session_id),
            session@ == SessionView::fresh(session@.session_id, peer_address@, peer_port),
    {
        Session::with_id(random_id(), peer_address, peer_port)
    }

    /// Begins the session of a connection from the given peer, under the
    /// identifier given.
    pub fn with_id(session_id: String, peer_address: String, peer_port: u16) -> (session: Session)
        ensures
            session@ == SessionView::fresh(session_id@, peer_address@, peer_port),
    {
        Session {
            session_id,
            peer_address,
            peer_port,
            phase: Phase::AwaitingRead,
            pending: Vec::new(),
            last_timestamp: 0,
        }
    }

    /// The identifier of the session.
    pub fn session_id(&self) -> (id: &String)
        ensures
            id@ == self@.session_id,
    {
        &self.session_id
    }

    /// The address of the peer.
    pub fn peer_address(&self) -> (address: &String)
        ensures
            address@ == self@.peer_address,
    {
        &self.peer_address
    }

    /// The port of the peer.
    pub fn peer_port(&self) -> (port: u16)
        ensures
            port == self@.peer_port,
    {
        self.peer_port
    }

    /// What the session is waiting for. A session that waits for a
    /// destination always has the data in hand that the destination is for.
    pub fn phase(&self) -> (phase: Phase)
        ensures
            phase == self@.phase,
            self@.wf(),
    {
        proof {
            use_type_invariant(self);
        }
        self.phase
    }

    /// Whether the session is over.
    pub fn is_closed(&self) -> (closed: bool)
        ensures
            closed == (self@.phase == Phase::Closed),
    {
        match self.phase {
            Phase::Closed => true,
            _ => false,
        }
    }

    /// What the session is waiting to have done.
    pub fn awaits(&self) -> (action: Action)
        ensures
            action@ == awaited(self@.phase),
    {
        match self.phase {
            Phase::AwaitingRead => Action::AwaitRead,
            Phase::AwaitingDestination => Action::Resolve,
            Phase::Closed => Action::Close,
        }
    }

    /// The record for the data in hand, from its two renderings, the
    /// destination and the time.
    pub fn record_with(
        &self,
        payload: String,
        payload_hex: String,
        destination: &OriginalDestination,
        now: u64,
    ) -> (record: ConnectionRecord)
        ensures
            record@ == (RecordView {
                payload: payload@,
                payload_hex: payload_hex@,
                ..record_of(self@, *destination, now)
            }),
    {
        let timestamp: u64 = if now >= self.last_timestamp {
            now
        } else {
            self.last_timestamp
        };
        ConnectionRecord::new(
            timestamp,
            payload,
            payload_hex,
            self.peer_address.clone(),
            self.peer_port,
            destination.address_text(),
            destination.port,
            self.session_id.clone(),
        )
    }

    /// Takes one event and answers with what is to be done next.
    pub fn step(&mut self, event: Event) -> (action: Action)
        ensures
            final(self)@ == next(old(self)@, event@),
            action@ == action_of(old(self)@, event@),
            final(self)@.wf(),
    {
        proof {
            use_type_invariant(&*self);
        }
        match self.phase {
            Phase::AwaitingRead => match event {
                Event::Read(bytes) => {
                    if bytes.len() > 0 {
                        self.pending = bytes;
                        self.phase = Phase::AwaitingDestination;
                        Action::Resolve
                    } else {
                        self.phase = Phase::Closed;
                        Action::Close
                    }
                },
                Event::ReadFailed => {
                    self.phase = Phase::Closed;
                    Action::Close
                },
                Event::ReadTimedOut => {
                    self.phase = Phase::Closed;
                    Action::Close
                },
                Event::Resolution { .. } => Action::AwaitRead,
            },
            Phase::AwaitingDestination => match event {
                Event::Resolution { outcome, now } => {
                    let action = match outcome {
                        Ok(destination) => {
                            let text = payload_text(self.pending.as_slice());
                            let hex = payload_hex(self.pending.as_slice());
                            let record = self.record_with(text, hex, &destination, now);
                            self.last_timestamp = record.timestamp;
                            Action::Emit(record)
                        },
                        Err(_) => Action::AwaitRead,
                    };
                    self.phase = Phase::AwaitingRead;
                    self.pending = Vec::new();
                    action
                },
                _ => Action::Resolve,
            },
            Phase::Closed => Action::Close,
        }
    }
}

} // verus!
