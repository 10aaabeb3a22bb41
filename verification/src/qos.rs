//! Quality-of-service levels, packet identifiers and the acknowledgement
//! packets of the QoS handshakes.
use crate::error_classification::ReasonCode;
use vstd::prelude::*;

verus! {

/// The delivery guarantee of a PUBLISH.
#[derive(Debug, Clone, Copy, PartialEq, Eq, Structural, Hash)]
pub enum QoS {
    AtMostOnce,
    AtLeastOnce,
    ExactlyOnce,
}

impl QoS {
    /// The level's number on the wire.
    pub open spec fn spec_level(self) -> u8 {
        match self {
            QoS::AtMostOnce => 0,
            QoS::AtLeastOnce => 1,
            QoS::ExactlyOnce => 2,
        }
    }

    /// The level with the number `level`, if there is one.
    pub open spec fn spec_from_level(level: u8) -> Option<QoS> {
        if level == 0 {
            Some(QoS::AtMostOnce)
        } else if level == 1 {
            Some(QoS::AtLeastOnce)
        } else if level == 2 {
            Some(QoS::ExactlyOnce)
        } else {
            None
        }
    }

    /// The level's number on the wire.
    pub fn level(self) -> (l: u8)
        ensures
            l == self.spec_level(),
    {
        match self {
            QoS::AtMostOnce => 0,
            QoS::AtLeastOnce => 1,
            QoS::ExactlyOnce => 2,
        }
    }

    /// The level with the number `level`; numbers above 2 have none.
    pub fn from_level(level: u8) -> (r: Option<QoS>)
        ensures
            r == QoS::spec_from_level(level),
    {
        if level == 0 {
            Some(QoS::AtMostOnce)
        } else if level == 1 {
            Some(QoS::AtLeastOnce)
        } else if level == 2 {
            Some(QoS::ExactlyOnce)
        } else {
            None
        }
    }
}

/// The packet identifier that follows `id`: identifiers count up from 1 to
/// 65535 and then start again at 1, so that 0 is never used.
pub open spec fn next_id(id: u16) -> u16 {
    if id == 65535 {
        1
    } else {
        (id + 1) as u16
    }
}

/// The packet identifier that follows `id`.
pub fn next_packet_id_after(id: u16) -> (r: u16)
    ensures
        r == next_id(id),
        r != 0,
{
    if id == 65535 {
        1
    } else {
        id + 1
    }
}

/// The kind of a QoS acknowledgement packet.
#[derive(Debug, Clone, Copy, PartialEq, Eq, Structural, Hash)]
pub enum AckKind {
    PubAck,
    PubRec,
    PubRel,
    PubComp,
}

/// A QoS acknowledgement packet: its kind, the packet identifier it
/// acknowledges and its reason code.
#[derive(Debug, Clone, Copy, PartialEq, Eq, Structural, Hash)]
pub struct Ack {
    pub kind: AckKind,
    pub packet_id: u16,
    pub reason_code: ReasonCode,
}

/// The acknowledgement of kind `kind` for `packet_id` with a success code.
pub open spec fn success_ack(kind: AckKind, packet_id: u16) -> Ack {
    Ack { kind, packet_id, reason_code: ReasonCode::Success }
}

} // verus!
