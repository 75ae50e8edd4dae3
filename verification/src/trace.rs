//! Whole sessions: what a sequence of events leads to, and what holds of the
//! records that come out of it.

use vstd::prelude::*;
use crate::destination::{dotted_quad, OriginalDestination, ResolutionError};
use crate::payload::{hex_bytes, hex_string, lemma_hex_round_trip, text_of};
use crate::record::RecordView;
use crate::session::{action_of, next, record_of, stamp, ActionView, EventView, Phase, SessionView};

verus! {

/// The session after a sequence of events, taken in order.
pub open spec fn run(s: SessionView, events: Seq<EventView>) -> SessionView
    decreases events.len(),
{
    if events.len() == 0 {
        s
    } else {
        next(run(s, events.drop_last()), events.last())
    }
}

/// The records that a sequence of events makes a session emit, in the order
/// in which they are emitted.
pub open spec fn emitted(s: SessionView, events: Seq<EventView>) -> Seq<RecordView>
    decreases events.len(),
{
    if events.len() == 0 {
        Seq::empty()
    } else {
        let earlier = emitted(s, events.drop_last());
        match action_of(run(s, events.drop_last()), events.last()) {
            ActionView::Emit(record) => earlier.push(record),
            _ => earlier,
        }
    }
}

/// Whether an event is one that ends a session that is reading: an empty
/// read, a failed read, or a deadline that passed.
pub open spec fn ends_reading(e: EventView) -> bool {
    match e {
        EventView::Read(bytes) => bytes.len() == 0,
        EventView::ReadFailed => true,
        EventView::ReadTimedOut => true,
        EventView::Resolution { .. } => false,
    }
}

/// Whether an event says that the destination was found.
pub open spec fn finds_destination(e: EventView) -> bool {
    e matches EventView::Resolution { outcome, .. } && outcome is Ok
}

/// The number of reads among `events` that brought data.
pub open spec fn data_reads(events: Seq<EventView>) -> nat
    decreases events.len(),
{
    if events.len() == 0 {
        0
    } else if events.last() matches EventView::Read(bytes) && bytes.len() > 0 {
        data_reads(events.drop_last()) + 1
    } else {
        data_reads(events.drop_last())
    }
}

/// Running a sequence of events in two parts is running it whole, and the
/// records of the whole are those of the first part followed by those of the
/// second: records leave in the order of the reads they report.
pub proof fn lemma_run_in_parts(s: SessionView, first: Seq<EventView>, second: Seq<EventView>)
    ensures
        run(s, first + second) == run(run(s, first), second),
        emitted(s, first + second) == emitted(s, first) + emitted(run(s, first), second),
    decreases second.len(),
{
    if second.len() == 0 {
        assert(first + second =~= first);
        assert(emitted(s, first) + Seq::<RecordView>::empty() =~= emitted(s, first));
    } else {
        lemma_run_in_parts(s, first, second.drop_last());
        assert((first + second).drop_last() =~= first + second.drop_last());
        assert((first + second).last() == second.last());
        let mid = run(s, first);
        let before = run(mid, second.drop_last());
        match action_of(before, second.last()) {
            ActionView::Emit(record) => {
                assert(emitted(s, first + second) =~= emitted(s, first) + emitted(mid, second));
            },
            _ => {},
        }
    }
}

/// A session stays well formed, and keeps its identifier and its peer,
/// whatever happens on its connection.
pub proof fn lemma_run_keeps_identity(s: SessionView, events: Seq<EventView>)
    requires
        s.wf(),
    ensures
        run(s, events).wf(),
        run(s, events).session_id == s.session_id,
        run(s, events).peer_address == s.peer_address,
        run(s, events).peer_port == s.peer_port,
    decreases events.len(),
{
    if events.len() > 0 {
        lemma_run_keeps_identity(s, events.drop_last());
    }
}

/// Every record of a session carries that session's identifier and that
/// session's peer, so all records of one session carry the same.
pub proof fn lemma_records_carry_session(s: SessionView, events: Seq<EventView>, i: int)
    requires
        s.wf(),
        0 <= i < emitted(s, events).len(),
    ensures
        emitted(s, events)[i].session_id == s.session_id,
        emitted(s, events)[i].source_ip == s.peer_address,
        emitted(s, events)[i].source_port == s.peer_port,
    decreases events.len(),
{
    if events.len() > 0 {
        let earlier = emitted(s, events.drop_last());
        lemma_run_keeps_identity(s, events.drop_last());
        if i < earlier.len() {
            lemma_records_carry_session(s, events.drop_last(), i);
        }
    }
}

/// Any two records of one session carry the same identifier.
pub proof fn lemma_one_session_one_id(s: SessionView, events: Seq<EventView>, i: int, j: int)
    requires
        s.wf(),
        0 <= i < emitted(s, events).len(),
        0 <= j < emitted(s, events).len(),
    ensures
        emitted(s, events)[i].session_id == emitted(s, events)[j].session_id,
{
    lemma_records_carry_session(s, events, i);
    lemma_records_carry_session(s, events, j);
}

/// Records of two sessions with different identifiers or different peers are
/// told apart by them: nothing of one session shows in a record of the
/// other.
pub proof fn lemma_sessions_stay_apart(
    a: SessionView,
    a_events: Seq<EventView>,
    i: int,
    b: SessionView,
    b_events: Seq<EventView>,
    j: int,
)
    requires
        a.wf(),
        b.wf(),
        0 <= i < emitted(a, a_events).len(),
        0 <= j < emitted(b, b_events).len(),
    ensures
        a.session_id != b.session_id ==> emitted(a, a_events)[i].session_id != emitted(
            b,
            b_events,
        )[j].session_id,
        a.peer_address != b.peer_address ==> emitted(a, a_events)[i].source_ip != emitted(
            b,
            b_events,
        )[j].source_ip,
        a.peer_port != b.peer_port ==> emitted(a, a_events)[i].source_port != emitted(
            b,
            b_events,
        )[j].source_port,
{
    lemma_records_carry_session(a, a_events, i);
    lemma_records_carry_session(b, b_events, j);
}

/// A closed session stays closed and emits nothing, whatever follows.
pub proof fn lemma_closed_is_final(s: SessionView, events: Seq<EventView>)
    requires
        s.phase == Phase::Closed,
    ensures
        run(s, events) == s,
        emitted(s, events) == Seq::<RecordView>::empty(),
    decreases events.len(),
{
    if events.len() > 0 {
        lemma_closed_is_final(s, events.drop_last());
    }
}

/// An empty read, a failed read and a passed deadline each end a session
/// that is reading: the answer is to close, no record is emitted for it, and
/// none for anything that follows.
pub proof fn lemma_end_of_reading(
    s: SessionView,
    before: Seq<EventView>,
    e: EventView,
    after: Seq<EventView>,
)
    requires
        run(s, before).phase == Phase::AwaitingRead,
        ends_reading(e),
    ensures
        action_of(run(s, before), e) == ActionView::Close,
        run(s, before.push(e) + after).phase == Phase::Closed,
        emitted(s, before.push(e) + after) == emitted(s, before),
{
    let closed = run(s, before.push(e));
    assert(before.push(e).drop_last() =~= before);
    assert(before.push(e).last() == e);
    assert(closed.phase == Phase::Closed);
    assert(emitted(s, before.push(e)) == emitted(s, before));
    lemma_run_in_parts(s, before.push(e), after);
    lemma_closed_is_final(closed, after);
    assert(emitted(s, before) + Seq::<RecordView>::empty() =~= emitted(s, before));
}

/// Where the destination is never found, no record is emitted, however many
/// reads bring data.
pub proof fn lemma_no_destination_no_record(s: SessionView, events: Seq<EventView>)
    requires
        forall|k: int| 0 <= k < events.len() ==> !finds_destination(#[trigger] events[k]),
    ensures
        emitted(s, events) == Seq::<RecordView>::empty(),
    decreases events.len(),
{
    if events.len() > 0 {
        let shorter = events.drop_last();
        assert forall|k: int| 0 <= k < shorter.len() implies !finds_destination(
            #[trigger] shorter[k],
        ) by {
            assert(shorter[k] == events[k]);
        }
        lemma_no_destination_no_record(s, shorter);
        assert(!finds_destination(events[events.len() - 1]));
    }
}

/// Only an event that ends reading closes a session: a destination that is
/// not found leaves it waiting for the next read.
pub proof fn lemma_only_reads_close(s: SessionView, events: Seq<EventView>)
    requires
        s.phase != Phase::Closed,
        forall|k: int| 0 <= k < events.len() ==> !ends_reading(#[trigger] events[k]),
    ensures
        run(s, events).phase != Phase::Closed,
    decreases events.len(),
{
    if events.len() > 0 {
        let shorter = events.drop_last();
        assert forall|k: int| 0 <= k < shorter.len() implies !ends_reading(#[trigger] shorter[k]) by {
            assert(shorter[k] == events[k]);
        }
        lemma_only_reads_close(s, shorter);
        assert(!ends_reading(events[events.len() - 1]));
    }
}

/// A destination that is not found costs the read its record and nothing
/// else: the session goes back to reading.
pub proof fn lemma_unresolved_read_is_skipped(
    s: SessionView,
    error: ResolutionError,
    now: u64,
)
    requires
        s.phase == Phase::AwaitingDestination,
    ensures
        action_of(s, EventView::Resolution { outcome: Err(error), now }) == ActionView::AwaitRead,
        next(s, EventView::Resolution { outcome: Err(error), now }).phase == Phase::AwaitingRead,
        next(s, EventView::Resolution { outcome: Err(error), now }).last_timestamp
            == s.last_timestamp,
{
}

/// A read that brings data, followed by its destination, gives exactly one
/// record: that of these bytes, this destination and this session, and its
/// hexadecimal payload reads back as the bytes that were received.
pub proof fn lemma_read_becomes_record(
    s: SessionView,
    bytes: Seq<u8>,
    destination: OriginalDestination,
    now: u64,
)
    requires
        s.phase == Phase::AwaitingRead,
        bytes.len() > 0,
    ensures
        emitted(
            s,
            seq![EventView::Read(bytes), EventView::Resolution { outcome: Ok(destination), now }],
        ) == seq![
            RecordView {
                timestamp: stamp(s.last_timestamp, now),
                payload: text_of(bytes),
                payload_hex: hex_string(bytes),
                source_ip: s.peer_address,
                source_port: s.peer_port,
                destination_ip: dotted_quad(destination.octets@),
                destination_port: destination.port,
                session_id: s.session_id,
            },
        ],
        hex_bytes(hex_string(bytes)) == Some(bytes),
        run(
            s,
            seq![EventView::Read(bytes), EventView::Resolution { outcome: Ok(destination), now }],
        ).phase == Phase::AwaitingRead,
{
    let read = EventView::Read(bytes);
    let found = EventView::Resolution { outcome: Ok(destination), now };
    let both = seq![read, found];
    let one = seq![read];
    let none = Seq::<EventView>::empty();
    assert(both.drop_last() =~= one);
    assert(one.drop_last() =~= none);
    assert(run(s, none) == s);
    assert(emitted(s, none) =~= Seq::<RecordView>::empty());
    assert(run(s, one) == next(s, read));
    assert(emitted(s, one) =~= Seq::<RecordView>::empty());
    assert(emitted(s, both) =~= seq![record_of(next(s, read), destination, now)]);
    lemma_hex_round_trip(bytes);
}

/// Every record reports data that was received: its hexadecimal payload is
/// the rendering of at least one byte, and its text is the text of the same
/// bytes.
pub proof fn lemma_records_hold_data(s: SessionView, events: Seq<EventView>, i: int)
    requires
        s.wf(),
        0 <= i < emitted(s, events).len(),
    ensures
        exists|bytes: Seq<u8>|
            {
                &&& bytes.len() > 0
                &&& #[trigger] hex_string(bytes) == emitted(s, events)[i].payload_hex
                &&& text_of(bytes) == emitted(s, events)[i].payload
                &&& hex_bytes(emitted(s, events)[i].payload_hex) == Some(bytes)
            },
    decreases events.len(),
{
    if events.len() > 0 {
        let earlier = emitted(s, events.drop_last());
        if i < earlier.len() {
            lemma_records_hold_data(s, events.drop_last(), i);
        } else {
            let before = run(s, events.drop_last());
            lemma_run_keeps_identity(s, events.drop_last());
            lemma_hex_round_trip(before.pending);
            assert(hex_string(before.pending) == emitted(s, events)[i].payload_hex);
        }
    }
}

/// The timestamps of a session's records never go back, from one record to
/// the next, and the session remembers the last of them.
pub proof fn lemma_timestamps_do_not_go_back(s: SessionView, events: Seq<EventView>)
    ensures
        s.last_timestamp <= run(s, events).last_timestamp,
        forall|i: int|
            0 <= i < emitted(s, events).len() ==> s.last_timestamp <= (#[trigger] emitted(
                s,
                events,
            )[i]).timestamp <= run(s, events).last_timestamp,
        forall|i: int, j: int|
            0 <= i <= j < emitted(s, events).len() ==> (#[trigger] emitted(s, events)[i]).timestamp
                <= (#[trigger] emitted(s, events)[j]).timestamp,
    decreases events.len(),
{
    if events.len() > 0 {
        let shorter = events.drop_last();
        lemma_timestamps_do_not_go_back(s, shorter);
        let before = run(s, shorter);
        let earlier = emitted(s, shorter);
        let all = emitted(s, events);
        let after = run(s, events);
        assert(before.last_timestamp <= after.last_timestamp);
        assert forall|i: int| 0 <= i < all.len() implies s.last_timestamp <= (#[trigger] all[i]).timestamp
            <= after.last_timestamp by {
            if i < earlier.len() {
                assert(all[i] == earlier[i]);
            }
        }
        assert forall|i: int, j: int| 0 <= i <= j < all.len() implies (#[trigger] all[i]).timestamp <= (
        #[trigger] all[j]).timestamp by {
            if j < earlier.len() {
                assert(all[i] == earlier[i]);
                assert(all[j] == earlier[j]);
            } else if i < earlier.len() {
                assert(all[i] == earlier[i]);
                assert(earlier[i].timestamp <= before.last_timestamp);
            }
        }
    }
}

/// No more records are emitted than reads brought data: a read is reported
/// at most once.
pub proof fn lemma_at_most_one_record_per_read(s: SessionView, events: Seq<EventView>)
    requires
        s.phase != Phase::AwaitingDestination,
    ensures
        emitted(s, events).len() + (if run(s, events).phase == Phase::AwaitingDestination {
            1nat
        } else {
            0nat
        }) <= data_reads(events),
    decreases events.len(),
{
    if events.len() > 0 {
        lemma_at_most_one_record_per_read(s, events.drop_last());
    }
}

} // verus!
