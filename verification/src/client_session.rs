//! The bookkeeping of the standalone client between the packets it reads
//! and writes: packet identifier allocation, outbound publishes awaiting
//! their acknowledgement, inbound QoS 2 publishes held until PUBREL, and
//! publishes buffered while another reply was awaited.
//!
//! Every operation takes the event the connection produced (a packet read,
//! a publish requested) and answers with the packet to write and the
//! message to hand to the user; the caller performs the I/O.
use crate::broker_session::SubAckCode;
use crate::capabilities::{decimal, u8_to_decimal};
use crate::error_classification::MqttError;
use crate::qos::{next_id, next_packet_id_after, success_ack, Ack, AckKind, QoS};
use std::collections::{HashMap, VecDeque};
use vstd::prelude::*;

verus! {

broadcast use vstd::std_specs::hash::group_hash_axioms;

/// The abstract state of a client session.
pub struct ClientSessionView<P> {
    pub protocol_version: u8,
    /// The identifier the next QoS 1/2 packet will carry.
    pub next_packet_id: u16,
    /// Inbound QoS 2 publishes received and acknowledged with PUBREC,
    /// awaiting PUBREL, by packet identifier.
    pub inbound_qos2: Map<u16, P>,
    /// Outbound QoS 1/2 publishes awaiting PUBACK / PUBCOMP, by packet
    /// identifier.
    pub outbound_inflight: Map<u16, QoS>,
    /// Publishes received while another reply was awaited, oldest first.
    pub pending_messages: Seq<P>,
}

impl<P> ClientSessionView<P> {
    /// Packet identifier 0 is never handed out.
    pub open spec fn valid(self) -> bool {
        self.next_packet_id != 0
    }
}

/// What to do with a PUBLISH received from the broker: the acknowledgement
/// to write, if any, and the message to hand to the user, if any.
#[derive(Debug, Clone)]
pub struct InboundOutcome<P> {
    pub reply: Option<Ack>,
    pub deliver: Option<P>,
}

/// The client session state.
pub struct ClientSession<P> {
    protocol_version: u8,
    next_packet_id: u16,
    inbound_qos2: HashMap<u16, P>,
    outbound_inflight: HashMap<u16, QoS>,
    pending_messages: VecDeque<P>,
}

impl<P> View for ClientSession<P> {
    type V = ClientSessionView<P>;

    closed spec fn view(&self) -> ClientSessionView<P> {
        ClientSessionView {
            protocol_version: self.protocol_version,
            next_packet_id: self.next_packet_id,
            inbound_qos2: self.inbound_qos2@,
            outbound_inflight: self.outbound_inflight@,
            pending_messages: self.pending_messages@,
        }
    }
}

/// The text of the error for a QoS 1/2 packet that lacks its identifier.
pub open spec fn missing_id_message(context: Seq<char>) -> Seq<char> {
    context + " missing packet identifier"@
}

/// The text of the error for a protocol version other than 4 and 5.
pub open spec fn unsupported_version_message(version: u8) -> Seq<char> {
    "Unsupported protocol version: "@ + decimal(version as nat)
}

/// The protocol error for a QoS 1/2 packet that lacks its identifier.
pub fn missing_packet_id(context: &str) -> (e: MqttError)
    ensures
        e matches MqttError::ProtocolError(m) && m@ == missing_id_message(context@),
{
    let mut m = String::from_str(context);
    m.append(" missing packet identifier");
    MqttError::ProtocolError(m)
}

/// Checks the protocol version of a client configuration before connecting:
/// only 4 (v3.1.1) and 5 (v5.0) are supported.
pub fn check_protocol_version(version: u8) -> (r: Result<(), MqttError>)
    ensures
        r is Ok <==> (version == 4 || version == 5),
        r matches Err(MqttError::ProtocolError(m)) ==> m@ == unsupported_version_message(version),
        r is Err ==> r matches Err(MqttError::ProtocolError(_)),
{
    if version == 4 || version == 5 {
        Ok(())
    } else {
        let mut m = String::from_str("Unsupported protocol version: ");
        let digits = u8_to_decimal(version);
        m.append(digits.as_str());
        Err(MqttError::ProtocolError(m))
    }
}

/// The QoS granted to a single-filter subscription, read from the SUBACK's
/// reason codes: the first code must grant one.
pub fn granted_from_suback(codes: &[SubAckCode]) -> (r: Result<QoS, MqttError>)
    ensures
        codes@.len() == 0 ==> (r matches Err(MqttError::ProtocolError(m)) && m@
            == "SUBACK had no reason codes"@),
        codes@.len() > 0 ==> match codes@[0].spec_granted_qos() {
            Some(q) => r == Ok::<QoS, MqttError>(q),
            None => r matches Err(MqttError::ProtocolError(m)) && m@
                == "Subscription not granted"@,
        },
{
    if codes.len() == 0 {
        return Err(MqttError::ProtocolError(String::from_str("SUBACK had no reason codes")));
    }
    match codes[0].granted_qos() {
        Some(q) => Ok(q),
        None => Err(MqttError::ProtocolError(String::from_str("Subscription not granted"))),
    }
}

/// The session after an inbound QoS 2 publish `publish` with identifier
/// `id` is held.
pub open spec fn hold_inbound<P>(v: ClientSessionView<P>, id: u16, publish: P) -> ClientSessionView<
    P,
> {
    ClientSessionView { inbound_qos2: v.inbound_qos2.insert(id, publish), ..v }
}

/// The session after PUBREL for `id`, and the publish it releases.
pub open spec fn release_inbound<P>(v: ClientSessionView<P>, id: u16) -> (
    ClientSessionView<P>,
    Option<P>,
) {
    (
        ClientSessionView { inbound_qos2: v.inbound_qos2.remove(id), ..v },
        if v.inbound_qos2.contains_key(id) {
            Some(v.inbound_qos2[id])
        } else {
            None
        },
    )
}

/// The session and the outcome after a PUBLISH with QoS `qos`, identifier
/// `packet_id` and content `publish` arrives from the broker.
pub open spec fn receive_publish<P>(
    v: ClientSessionView<P>,
    qos: QoS,
    packet_id: Option<u16>,
    publish: P,
) -> (ClientSessionView<P>, Result<InboundOutcome<P>, Seq<char>>) {
    match qos {
        QoS::AtMostOnce => (v, Ok(InboundOutcome { reply: None, deliver: Some(publish) })),
        QoS::AtLeastOnce => match packet_id {
            None => (v, Err(missing_id_message("PUBLISH QoS 1"@))),
            Some(id) => (
                v,
                Ok(
                    InboundOutcome {
                        reply: Some(success_ack(AckKind::PubAck, id)),
                        deliver: Some(publish),
                    },
                ),
            ),
        },
        QoS::ExactlyOnce => match packet_id {
            None => (v, Err(missing_id_message("PUBLISH QoS 2"@))),
            Some(id) => (
                hold_inbound(v, id, publish),
                Ok(InboundOutcome { reply: Some(success_ack(AckKind::PubRec, id)), deliver: None }),
            ),
        },
    }
}

/// The outcome of `receive_publish`, with the error taken by its message.
pub open spec fn outcome_view<P>(r: Result<InboundOutcome<P>, MqttError>) -> Result<
    InboundOutcome<P>,
    Seq<char>,
> {
    match r {
        Ok(o) => Ok(o),
        Err(MqttError::ProtocolError(m)) => Err(m@),
        Err(_) => Err(Seq::empty()),
    }
}

impl<P> ClientSession<P> {
    /// A fresh session for protocol version `protocol_version`: identifiers
    /// start at 1 and nothing is in flight.
    pub fn new(protocol_version: u8) -> (s: Self)
        ensures
            s@ == (ClientSessionView::<P> {
                protocol_version,
                next_packet_id: 1,
                inbound_qos2: Map::empty(),
                outbound_inflight: Map::empty(),
                pending_messages: Seq::empty(),
            }),
    {
        ClientSession {
            protocol_version,
            next_packet_id: 1,
            inbound_qos2: HashMap::new(),
            outbound_inflight: HashMap::new(),
            pending_messages: VecDeque::new(),
        }
    }

    /// The protocol version the session was connected with.
    pub fn protocol_version(&self) -> (v: u8)
        ensures
            v == self@.protocol_version,
    {
        self.protocol_version
    }

    /// Hands out the next packet identifier, which is never 0.
    pub fn next_packet_id(&mut self) -> (id: u16)
        requires
            old(self)@.valid(),
        ensures
            id == old(self)@.next_packet_id,
            id != 0,
            final(self)@ == (ClientSessionView { next_packet_id: next_id(id), ..old(self)@ }),
    {
        let id = self.next_packet_id;
        self.next_packet_id = next_packet_id_after(id);
        id
    }

    /// Prepares an outbound PUBLISH with QoS `qos`: a QoS 1/2 publish gets
    /// the next packet identifier and is recorded as in flight.
    pub fn begin_publish(&mut self, qos: QoS) -> (pid: Option<u16>)
        requires
            old(self)@.valid(),
        ensures
            qos == QoS::AtMostOnce ==> pid is None && final(self)@ == old(self)@,
            qos != QoS::AtMostOnce ==> pid == Some(old(self)@.next_packet_id) && final(self)@ == (ClientSessionView {
                next_packet_id: next_id(old(self)@.next_packet_id),
                outbound_inflight: old(self)@.outbound_inflight.insert(
                    old(self)@.next_packet_id,
                    qos,
                ),
                ..old(self)@
            }),
    {
        if qos == QoS::AtMostOnce {
            None
        } else {
            let pid = self.next_packet_id();
            self.outbound_inflight.insert(pid, qos);
            Some(pid)
        }
    }

    /// Handles a PUBLISH received from the broker. QoS 0 is delivered; QoS 1
    /// is acknowledged with PUBACK and delivered; QoS 2 is acknowledged with
    /// PUBREC and held until PUBREL. A QoS 1/2 publish without an
    /// identifier is a protocol error.
    pub fn handle_inbound_publish(&mut self, qos: QoS, packet_id: Option<u16>, publish: P) -> (r:
        Result<InboundOutcome<P>, MqttError>)
        ensures
            (final(self)@, outcome_view(r)) == receive_publish(old(self)@, qos, packet_id, publish),
            r is Err ==> r matches Err(MqttError::ProtocolError(_)),
    {
        match qos {
            QoS::AtMostOnce => Ok(InboundOutcome { reply: None, deliver: Some(publish) }),
            QoS::AtLeastOnce => match packet_id {
                None => Err(missing_packet_id("PUBLISH QoS 1")),
                Some(id) => Ok(
                    InboundOutcome {
                        reply: Some(Ack { kind: AckKind::PubAck, packet_id: id, reason_code: crate::error_classification::ReasonCode::Success }),
                        deliver: Some(publish),
                    },
                ),
            },
            QoS::ExactlyOnce => match packet_id {
                None => Err(missing_packet_id("PUBLISH QoS 2")),
                Some(id) => {
                    self.inbound_qos2.insert(id, publish);
                    Ok(
                        InboundOutcome {
                            reply: Some(Ack { kind: AckKind::PubRec, packet_id: id, reason_code: crate::error_classification::ReasonCode::Success }),
                            deliver: None,
                        },
                    )
                },
            },
        }
    }

    /// Outbound QoS 2: the broker accepted a PUBLISH with PUBREC; the
    /// answer is PUBREL for the same identifier.
    pub fn handle_pubrec(&self, packet_id: u16) -> (ack: Ack)
        ensures
            ack == success_ack(AckKind::PubRel, packet_id),
    {
        Ack {
            kind: AckKind::PubRel,
            packet_id,
            reason_code: crate::error_classification::ReasonCode::Success,
        }
    }

    /// Inbound QoS 2: the broker released identifier `packet_id` with
    /// PUBREL. The answer is PUBCOMP; the held publish, if any, is handed
    /// to the user and forgotten.
    pub fn handle_pubrel(&mut self, packet_id: u16) -> (r: (Ack, Option<P>))
        ensures
            r.0 == success_ack(AckKind::PubComp, packet_id),
            (final(self)@, r.1) == release_inbound(old(self)@, packet_id),
    {
        let publish = self.inbound_qos2.remove(&packet_id);
        (
            Ack {
                kind: AckKind::PubComp,
                packet_id,
                reason_code: crate::error_classification::ReasonCode::Success,
            },
            publish,
        )
    }

    /// An outbound publish was acknowledged (PUBACK for QoS 1, PUBCOMP for
    /// QoS 2): it is no longer in flight.
    pub fn acknowledge_outbound(&mut self, packet_id: u16)
        ensures
            final(self)@ == (ClientSessionView {
                outbound_inflight: old(self)@.outbound_inflight.remove(packet_id),
                ..old(self)@
            }),
    {
        self.outbound_inflight.remove(&packet_id);
    }

    /// Buffers a publish received while another reply was awaited.
    pub fn push_pending(&mut self, publish: P)
        ensures
            final(self)@ == (ClientSessionView {
                pending_messages: old(self)@.pending_messages.push(publish),
                ..old(self)@
            }),
    {
        self.pending_messages.push_back(publish);
    }

    /// Takes the oldest buffered publish, if any.
    pub fn pop_pending(&mut self) -> (r: Option<P>)
        ensures
            old(self)@.pending_messages.len() == 0 ==> r is None && final(self)@ == old(self)@,
            old(self)@.pending_messages.len() > 0 ==> r == Some(old(self)@.pending_messages[0])
                && final(self)@ == (ClientSessionView {
                pending_messages: old(self)@.pending_messages.drop_first(),
                ..old(self)@
            }),
    {
        self.pending_messages.pop_front()
    }
}

/// An inbound QoS 2 publish is handed to the user exactly once: it is held
/// (not delivered) on receipt, released on the first PUBREL for its
/// identifier, and a repeated PUBREL releases nothing.
pub proof fn law_qos2_inbound_delivered_once<P>(v: ClientSessionView<P>, id: u16, publish: P)
    ensures
        ({
            let (v1, r1) = receive_publish(v, QoS::ExactlyOnce, Some(id), publish);
            let (v2, d2) = release_inbound(v1, id);
            let (v3, d3) = release_inbound(v2, id);
            &&& r1 matches Ok(o) && o.deliver is None
            &&& d2 == Some(publish)
            &&& d3 is None
            &&& !v3.inbound_qos2.contains_key(id)
        }),
{
}

/// A duplicate QoS 2 PUBLISH with an identifier that is still held does
/// not lead to a second delivery: the PUBREL releases one publish, the
/// latest received, and nothing is left for a second PUBREL.
pub proof fn law_qos2_duplicate_not_delivered_twice<P>(
    v: ClientSessionView<P>,
    id: u16,
    first: P,
    second: P,
)
    ensures
        ({
            let (v1, _) = receive_publish(v, QoS::ExactlyOnce, Some(id), first);
            let (v2, _) = receive_publish(v1, QoS::ExactlyOnce, Some(id), second);
            let (v3, d3) = release_inbound(v2, id);
            let (_, d4) = release_inbound(v3, id);
            d3 == Some(second) && d4 is None
        }),
{
}

/// Holding and releasing one identifier leaves the publishes held under
/// every other identifier untouched.
pub proof fn law_release_keeps_other_ids<P>(v: ClientSessionView<P>, id: u16, other: u16)
    requires
        other != id,
    ensures
        release_inbound(v, id).0.inbound_qos2.contains_key(other) == v.inbound_qos2.contains_key(
            other,
        ),
        v.inbound_qos2.contains_key(other) ==> release_inbound(v, id).0.inbound_qos2[other]
            == v.inbound_qos2[other],
{
}

/// Packet identifiers handed out in sequence are never 0 and never repeat
/// the previous one.
pub proof fn law_next_id_nonzero(id: u16)
    ensures
        next_id(id) != 0,
        next_id(id) != id,
{
}

} // verus!
