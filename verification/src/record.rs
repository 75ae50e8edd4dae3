//! The record that is written out for one chunk of received data.

use vstd::prelude::*;

verus! {

/// One non-empty read on one connection, as it is reported.
#[derive(Clone, Debug, PartialEq, Eq)]
pub struct ConnectionRecord {
    /// Seconds since the epoch at which the record was made.
    pub timestamp: u64,
    /// The received bytes as best-effort text.
    pub payload: String,
    /// The received bytes in lowercase hexadecimal.
    pub payload_hex: String,
    /// The address of the peer that sent them.
    pub source_ip: String,
    /// The port of that peer.
    pub source_port: u16,
    /// The address the peer meant to reach.
    pub destination_ip: String,
    /// The port the peer meant to reach.
    pub destination_port: u16,
    /// The identifier of the session the read belongs to.
    pub session_id: String,
}

/// A record as a mathematical value.
pub struct RecordView {
    pub timestamp: u64,
    pub payload: Seq<char>,
    pub payload_hex: Seq<char>,
    pub source_ip: Seq<char>,
    pub source_port: u16,
    pub destination_ip: Seq<char>,
    pub destination_port: u16,
    pub session_id: Seq<char>,
}

impl View for ConnectionRecord {
    type V = RecordView;

    open spec fn view(&self) -> RecordView {
        RecordView {
            timestamp: self.timestamp,
            payload: self.payload@,
            payload_hex: self.payload_hex@,
            source_ip: self.source_ip@,
            source_port: self.source_port,
            destination_ip: self.destination_ip@,
            destination_port: self.destination_port,
            session_id: self.session_id@,
        }
    }
}

impl ConnectionRecord {
    /// A record made of the given parts, each taken as it is.
    pub fn new(
        timestamp: u64,
        payload: String,
        payload_hex: String,
        source_ip: String,
        source_port: u16,
        destination_ip: String,
        destination_port: u16,
        session_id: String,
    ) -> (record: ConnectionRecord)
        ensures
            record@ == (RecordView {
                timestamp,
                payload: payload@,
                payload_hex: payload_hex@,
                source_ip: source_ip@,
                source_port,
                destination_ip: destination_ip@,
                destination_port,
                session_id: session_id@,
            }),
    {
        ConnectionRecord {
            timestamp,
            payload,
            payload_hex,
            source_ip,
            source_port,
            destination_ip,
            destination_port,
            session_id,
        }
    }
}

} // verus!
