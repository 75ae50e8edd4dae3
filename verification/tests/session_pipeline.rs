use redirect_tap::destination::{OriginalDestination, ResolutionError};
use redirect_tap::record::ConnectionRecord;
use redirect_tap::session::{Action, Event, Phase, Session};

fn found(octets: [u8; 4], port: u16, now: u64) -> Event {
    Event::Resolution { outcome: Ok(OriginalDestination { octets, port }), now }
}

fn not_found(code: i32, now: u64) -> Event {
    Event::Resolution { outcome: Err(ResolutionError { code }), now }
}

fn record_in(action: Action) -> ConnectionRecord {
    match action {
        Action::Emit(record) => record,
        other => panic!("no record: {:?}", other),
    }
}

#[test]
fn session_begins_reading() {
    let session = Session::with_id(String::from("s-1"), String::from("10.0.0.7"), 51000);
    assert_eq!(session.session_id(), "s-1");
    assert_eq!(session.peer_address(), "10.0.0.7");
    assert_eq!(session.peer_port(), 51000);
    assert_eq!(session.phase(), Phase::AwaitingRead);
    assert!(!session.is_closed());
}

#[test]
fn started_session_has_random_identifier() {
    let session = Session::start(String::from("10.0.0.7"), 51000);
    let id = session.session_id().clone();
    assert_eq!(id.len(), 36);
    let chars: Vec<char> = id.chars().collect();
    let mut i: usize = 0;
    while i < 36 {
        if i == 8 || i == 13 || i == 18 || i == 23 {
            assert_eq!(chars[i], '-');
        } else {
            assert!(chars[i].is_ascii_digit() || ('a'..='f').contains(&chars[i]));
        }
        i += 1;
    }
    assert_eq!(chars[14], '4');
    assert!(chars[19] == '8' || chars[19] == '9' || chars[19] == 'a' || chars[19] == 'b');
    let parsed = uuid::Uuid::parse_str(&id).unwrap();
    assert_eq!(parsed.get_version_num(), 4);
    assert_eq!(parsed.to_string(), id);
    assert_eq!(session.peer_address(), "10.0.0.7");
    assert_eq!(session.peer_port(), 51000);
    assert_eq!(session.phase(), Phase::AwaitingRead);
}

#[test]
fn started_sessions_have_different_identifiers() {
    let a = Session::start(String::from("10.0.0.7"), 51000);
    let b = Session::start(String::from("10.0.0.7"), 51000);
    let c = Session::start(String::from("10.0.0.8"), 51001);
    assert_ne!(a.session_id(), b.session_id());
    assert_ne!(a.session_id(), c.session_id());
    assert_ne!(b.session_id(), c.session_id());
}

#[test]
fn one_request_then_idle() {
    let mut session = Session::with_id(String::from("s-1"), String::from("10.0.0.7"), 51000);
    assert_eq!(session.step(Event::Read(b"GET / HTTP/1.1\r\n".to_vec())), Action::Resolve);
    assert_eq!(session.phase(), Phase::AwaitingDestination);
    let action = session.step(found([93, 184, 216, 34], 80, 1_700_000_000));
    assert_eq!(
        action,
        Action::Emit(ConnectionRecord {
            timestamp: 1_700_000_000,
            payload: String::from("GET / HTTP/1.1\r\n"),
            payload_hex: String::from("474554202f20485454502f312e310d0a"),
            source_ip: String::from("10.0.0.7"),
            source_port: 51000,
            destination_ip: String::from("93.184.216.34"),
            destination_port: 80,
            session_id: String::from("s-1"),
        })
    );
    assert_eq!(session.phase(), Phase::AwaitingRead);
    assert_eq!(session.step(Event::ReadTimedOut), Action::Close);
    assert!(session.is_closed());
    assert_eq!(session.step(Event::Read(b"late".to_vec())), Action::Close);
    assert_eq!(session.step(found([93, 184, 216, 34], 80, 1_700_000_020)), Action::Close);
    assert!(session.is_closed());
}

#[test]
fn record_payload_hex_decodes_to_what_was_read() {
    let chunk: Vec<u8> = vec![0x16, 0x03, 0x01, 0x00, 0xa5, 0x01, 0x00, 0x00, 0xa1, 0x03, 0x03, 0xff, 0x80];
    let mut session = Session::with_id(String::from("s-2"), String::from("10.0.0.7"), 51000);
    session.step(Event::Read(chunk.clone()));
    let record = record_in(session.step(found([1, 1, 1, 1], 443, 5)));
    assert_eq!(record.payload_hex, "16030100a5010000a10303ff80");
    assert_eq!(hex::decode(&record.payload_hex).unwrap(), chunk);
    assert_eq!(record.payload, String::from_utf8_lossy(&chunk));
    assert_eq!(record.destination_ip, "1.1.1.1");
    assert_eq!(record.destination_port, 443);
}

#[test]
fn empty_read_closes_session() {
    let mut session = Session::with_id(String::from("s-3"), String::from("10.0.0.7"), 51000);
    session.step(Event::Read(b"one".to_vec()));
    let first = record_in(session.step(found([10, 1, 2, 3], 25, 100)));
    assert_eq!(first.payload, "one");
    assert_eq!(session.step(Event::Read(Vec::new())), Action::Close);
    assert!(session.is_closed());
    assert_eq!(session.phase(), Phase::Closed);
    assert_eq!(session.step(Event::Read(b"two".to_vec())), Action::Close);
    assert_eq!(session.step(found([10, 1, 2, 3], 25, 101)), Action::Close);
    assert_eq!(session.step(Event::ReadTimedOut), Action::Close);
    assert_eq!(session.step(Event::ReadFailed), Action::Close);
    assert!(session.is_closed());
}

#[test]
fn empty_first_read_closes_without_record() {
    let mut session = Session::with_id(String::from("s-4"), String::from("10.0.0.7"), 51000);
    assert_eq!(session.step(Event::Read(Vec::new())), Action::Close);
    assert!(session.is_closed());
}

#[test]
fn idle_session_times_out_without_record() {
    let mut session = Session::with_id(String::from("s-5"), String::from("10.0.0.7"), 51000);
    assert_eq!(session.step(Event::ReadTimedOut), Action::Close);
    assert!(session.is_closed());
    assert_eq!(session.step(Event::Read(b"x".to_vec())), Action::Close);
}

#[test]
fn read_error_closes_session() {
    let mut session = Session::with_id(String::from("s-6"), String::from("10.0.0.7"), 51000);
    session.step(Event::Read(b"x".to_vec()));
    record_in(session.step(found([10, 1, 2, 3], 25, 100)));
    assert_eq!(session.step(Event::ReadFailed), Action::Close);
    assert!(session.is_closed());
}

#[test]
fn unresolved_destination_skips_record_and_keeps_session() {
    let mut session = Session::with_id(String::from("s-7"), String::from("10.0.0.7"), 51000);
    let mut round: u64 = 0;
    while round < 5 {
        assert_eq!(session.step(Event::Read(b"data".to_vec())), Action::Resolve);
        assert_eq!(session.step(not_found(92, 100 + round)), Action::AwaitRead);
        assert_eq!(session.phase(), Phase::AwaitingRead);
        assert!(!session.is_closed());
        round += 1;
    }
}

#[test]
fn skipped_read_does_not_leak_into_next_record() {
    let mut session = Session::with_id(String::from("s-8"), String::from("10.0.0.7"), 51000);
    session.step(Event::Read(b"dropped".to_vec()));
    assert_eq!(session.step(not_found(2, 900)), Action::AwaitRead);
    session.step(Event::Read(b"kept".to_vec()));
    let record = record_in(session.step(found([10, 1, 2, 3], 8443, 50)));
    assert_eq!(record.payload, "kept");
    assert_eq!(record.payload_hex, "6b657074");
    assert_eq!(record.timestamp, 50);
}

#[test]
fn records_of_one_session_share_its_identifier() {
    let mut session = Session::start(String::from("10.0.0.7"), 51000);
    let id = session.session_id().clone();
    let mut round: u64 = 0;
    while round < 4 {
        session.step(Event::Read(vec![b'a' + round as u8]));
        let record = record_in(session.step(found([10, 1, 2, 3], 80, 10 + round)));
        assert_eq!(record.session_id, id);
        assert_eq!(record.source_ip, "10.0.0.7");
        assert_eq!(record.source_port, 51000);
        round += 1;
    }
    assert_eq!(session.session_id(), &id);
}

#[test]
fn records_come_in_the_order_of_reads() {
    let mut session = Session::with_id(String::from("s-9"), String::from("10.0.0.7"), 51000);
    let chunks: Vec<&[u8]> = vec![b"first", b"second", b"third"];
    let mut seen: Vec<String> = Vec::new();
    for chunk in chunks {
        session.step(Event::Read(chunk.to_vec()));
        seen.push(record_in(session.step(found([10, 1, 2, 3], 80, 7))).payload);
    }
    assert_eq!(seen, vec!["first", "second", "third"]);
}

#[test]
fn two_sessions_do_not_mix() {
    let mut a = Session::start(String::from("10.0.0.7"), 51000);
    let mut b = Session::start(String::from("10.0.0.8"), 62000);
    assert_eq!(a.step(Event::Read(b"from a".to_vec())), Action::Resolve);
    assert_eq!(b.step(Event::Read(b"from b".to_vec())), Action::Resolve);
    let record_b = record_in(b.step(found([198, 51, 100, 2], 443, 1000)));
    let record_a = record_in(a.step(found([203, 0, 113, 1], 80, 1000)));
    assert_ne!(record_a.session_id, record_b.session_id);
    assert_eq!(&record_a.session_id, a.session_id());
    assert_eq!(&record_b.session_id, b.session_id());
    assert_eq!(record_a.source_ip, "10.0.0.7");
    assert_eq!(record_a.source_port, 51000);
    assert_eq!(record_b.source_ip, "10.0.0.8");
    assert_eq!(record_b.source_port, 62000);
    assert_eq!(record_a.payload, "from a");
    assert_eq!(record_b.payload, "from b");
    assert_eq!(record_a.destination_ip, "203.0.113.1");
    assert_eq!(record_a.destination_port, 80);
    assert_eq!(record_b.destination_ip, "198.51.100.2");
    assert_eq!(record_b.destination_port, 443);
}

#[test]
fn timestamps_do_not_go_back() {
    let mut session = Session::with_id(String::from("s-10"), String::from("10.0.0.7"), 51000);
    session.step(Event::Read(b"a".to_vec()));
    assert_eq!(record_in(session.step(found([10, 1, 2, 3], 80, 100))).timestamp, 100);
    session.step(Event::Read(b"b".to_vec()));
    assert_eq!(record_in(session.step(found([10, 1, 2, 3], 80, 100))).timestamp, 100);
    session.step(Event::Read(b"c".to_vec()));
    assert_eq!(record_in(session.step(found([10, 1, 2, 3], 80, 90))).timestamp, 100);
    session.step(Event::Read(b"d".to_vec()));
    assert_eq!(record_in(session.step(found([10, 1, 2, 3], 80, 101))).timestamp, 101);
    session.step(Event::Read(b"e".to_vec()));
    assert_eq!(record_in(session.step(found([10, 1, 2, 3], 80, u64::MAX))).timestamp, u64::MAX);
}

#[test]
fn events_out_of_turn_change_nothing() {
    let mut session = Session::with_id(String::from("s-11"), String::from("10.0.0.7"), 51000);
    assert_eq!(session.step(found([10, 1, 2, 3], 80, 5)), Action::AwaitRead);
    assert_eq!(session.step(not_found(92, 5)), Action::AwaitRead);
    assert_eq!(session.phase(), Phase::AwaitingRead);
    session.step(Event::Read(b"held".to_vec()));
    assert_eq!(session.step(Event::Read(b"other".to_vec())), Action::Resolve);
    assert_eq!(session.step(Event::Read(Vec::new())), Action::Resolve);
    assert_eq!(session.step(Event::ReadTimedOut), Action::Resolve);
    assert_eq!(session.step(Event::ReadFailed), Action::Resolve);
    assert_eq!(session.phase(), Phase::AwaitingDestination);
    let record = record_in(session.step(found([10, 1, 2, 3], 80, 6)));
    assert_eq!(record.payload, "held");
}

#[test]
fn record_with_takes_renderings_as_given() {
    let session = Session::with_id(String::from("s-12"), String::from("10.0.0.7"), 51000);
    let destination = OriginalDestination { octets: [8, 8, 4, 4], port: 53 };
    let record = session.record_with(String::from("text"), String::from("74657874"), &destination, 42);
    assert_eq!(
        record,
        ConnectionRecord::new(
            42,
            String::from("text"),
            String::from("74657874"),
            String::from("10.0.0.7"),
            51000,
            String::from("8.8.4.4"),
            53,
            String::from("s-12"),
        )
    );
}
