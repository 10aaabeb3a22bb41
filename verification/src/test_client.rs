//! The parts of the conformance test client that do not touch the network:
//! the messages a subscription receives, the queue they wait in, and the
//! packet identifiers the raw client hands out.
use crate::error_classification::ReasonCode;
use crate::qos::{success_ack, Ack, AckKind, QoS};
use vstd::prelude::*;

verus! {

/// The abstract content of a received message.
pub struct ReceivedMessageView {
    pub topic: Seq<char>,
    pub payload: Seq<u8>,
    pub qos: QoS,
    pub retain: bool,
    pub dup: bool,
    pub subscription_identifiers: Seq<u32>,
    pub user_properties: Seq<(Seq<char>, Seq<char>)>,
    pub content_type: Option<Seq<char>>,
    pub response_topic: Option<Seq<char>>,
    pub correlation_data: Option<Seq<u8>>,
    pub message_expiry_interval: Option<u32>,
    pub payload_format_indicator: Option<bool>,
}

/// A message received by a [`Subscription`], with its DUP flag and every
/// subscription identifier the broker attached (overlapping subscriptions
/// can attach several).
#[derive(Debug)]
pub struct ReceivedMessage {
    pub topic: String,
    pub payload: Vec<u8>,
    pub qos: QoS,
    pub retain: bool,
    pub dup: bool,
    pub subscription_identifiers: Vec<u32>,
    pub user_properties: Vec<(String, String)>,
    pub content_type: Option<String>,
    pub response_topic: Option<String>,
    pub correlation_data: Option<Vec<u8>>,
    pub message_expiry_interval: Option<u32>,
    pub payload_format_indicator: Option<bool>,
}

impl View for ReceivedMessage {
    type V = ReceivedMessageView;

    open spec fn view(&self) -> ReceivedMessageView {
        ReceivedMessageView {
            topic: self.topic@,
            payload: self.payload@,
            qos: self.qos,
            retain: self.retain,
            dup: self.dup,
            subscription_identifiers: self.subscription_identifiers@,
            user_properties: self.user_properties.deep_view(),
            content_type: self.content_type.deep_view(),
            response_topic: self.response_topic.deep_view(),
            correlation_data: self.correlation_data.deep_view(),
            message_expiry_interval: self.message_expiry_interval,
            payload_format_indicator: self.payload_format_indicator,
        }
    }
}

/// A copy of `s`.
fn copy_optional_string(s: &Option<String>) -> (r: Option<String>)
    ensures
        r.deep_view() == s.deep_view(),
{
    match s {
        Some(v) => Some(v.clone()),
        None => None,
    }
}

/// A copy of `b`.
fn copy_optional_bytes(b: &Option<Vec<u8>>) -> (r: Option<Vec<u8>>)
    ensures
        r.deep_view() == b.deep_view(),
{
    match b {
        Some(v) => Some(vstd::slice::slice_to_vec(v.as_slice())),
        None => None,
    }
}

/// A copy of the pairs in `props`.
fn copy_pairs(props: &Vec<(String, String)>) -> (r: Vec<(String, String)>)
    ensures
        r.deep_view() == props.deep_view(),
{
    let mut r: Vec<(String, String)> = Vec::new();
    let mut i: usize = 0;
    while i < props.len()
        invariant
            i <= props@.len(),
            r@.len() == i,
            forall|j: int| 0 <= j < i ==> #[trigger] r@[j].0@ == props@[j].0@ && r@[j].1@ == props@[j].1@,
        decreases props@.len() - i,
    {
        let (k, v) = &props[i];
        r.push((k.clone(), v.clone()));
        i = i + 1;
    }
    assert(r.deep_view() =~= props.deep_view());
    r
}

impl Clone for ReceivedMessage {
    fn clone(&self) -> (r: Self)
        ensures
            r@ == self@,
    {
        ReceivedMessage {
            topic: self.topic.clone(),
            payload: vstd::slice::slice_to_vec(self.payload.as_slice()),
            qos: self.qos,
            retain: self.retain,
            dup: self.dup,
            subscription_identifiers: vstd::slice::slice_to_vec(
                self.subscription_identifiers.as_slice(),
            ),
            user_properties: copy_pairs(&self.user_properties),
            content_type: copy_optional_string(&self.content_type),
            response_topic: copy_optional_string(&self.response_topic),
            correlation_data: copy_optional_bytes(&self.correlation_data),
            message_expiry_interval: self.message_expiry_interval,
            payload_format_indicator: self.payload_format_indicator,
        }
    }
}

/// An active subscription: the identifier and QoS from the broker's SUBACK,
/// and the messages delivered to it that the test has not taken yet, oldest
/// first.
#[derive(Debug)]
pub struct Subscription {
    messages: Vec<ReceivedMessage>,
    packet_id: u16,
    granted_qos: QoS,
}

impl Subscription {
    /// The messages waiting in the subscription, oldest first.
    pub closed spec fn queued(&self) -> Seq<ReceivedMessageView> {
        self.messages@.map_values(|m: ReceivedMessage| m@)
    }

    /// The identifier the broker echoed in its SUBACK.
    pub closed spec fn spec_packet_id(&self) -> u16 {
        self.packet_id
    }

    /// The QoS the broker granted in its SUBACK.
    pub closed spec fn spec_granted_qos(&self) -> QoS {
        self.granted_qos
    }

    /// A subscription with an empty queue.
    pub fn new(packet_id: u16, granted_qos: QoS) -> (s: Self)
        ensures
            s.queued() == Seq::<ReceivedMessageView>::empty(),
            s.spec_packet_id() == packet_id,
            s.spec_granted_qos() == granted_qos,
    {
        let s = Subscription { messages: Vec::new(), packet_id, granted_qos };
        assert(s.queued() =~= Seq::<ReceivedMessageView>::empty());
        s
    }

    /// The SUBACK packet identifier echoed by the broker.
    pub fn packet_id(&self) -> (id: u16)
        ensures
            id == self.spec_packet_id(),
    {
        self.packet_id
    }

    /// The QoS granted in the broker's SUBACK.
    pub fn granted_qos(&self) -> (q: QoS)
        ensures
            q == self.spec_granted_qos(),
    {
        self.granted_qos
    }

    /// Adds a delivered message at the end of the queue.
    pub fn deliver(&mut self, message: ReceivedMessage)
        ensures
            final(self).queued() == old(self).queued().push(message@),
            final(self).spec_packet_id() == old(self).spec_packet_id(),
            final(self).spec_granted_qos() == old(self).spec_granted_qos(),
    {
        let ghost m = message@;
        self.messages.push(message);
        assert(self.queued() =~= old(self).queued().push(m));
    }

    /// Takes the oldest queued message, if any; later calls see later
    /// messages.
    pub fn take_next(&mut self) -> (r: Option<ReceivedMessage>)
        ensures
            old(self).queued().len() == 0 ==> r is None && final(self).queued() == old(
                self,
            ).queued(),
            old(self).queued().len() > 0 ==> (r matches Some(m) && m@ == old(self).queued()[0])
                && final(self).queued() == old(self).queued().drop_first(),
            final(self).spec_packet_id() == old(self).spec_packet_id(),
            final(self).spec_granted_qos() == old(self).spec_granted_qos(),
    {
        if self.messages.len() == 0 {
            None
        } else {
            let m = self.messages.remove(0);
            assert(self.queued() =~= old(self).queued().drop_first());
            Some(m)
        }
    }

    /// A copy of every queued message, oldest first, leaving them queued.
    pub fn snapshot(&self) -> (r: Vec<ReceivedMessage>)
        ensures
            r@.map_values(|m: ReceivedMessage| m@) == self.queued(),
    {
        let mut r: Vec<ReceivedMessage> = Vec::new();
        let mut i: usize = 0;
        while i < self.messages.len()
            invariant
                i <= self.messages@.len(),
                r@.len() == i,
                forall|j: int| 0 <= j < i ==> #[trigger] r@[j]@ == self.messages@[j]@,
            decreases self.messages@.len() - i,
        {
            r.push(self.messages[i].clone());
            i = i + 1;
        }
        assert(r@.map_values(|m: ReceivedMessage| m@) =~= self.queued());
        r
    }

    /// The number of queued messages.
    pub fn count(&self) -> (n: usize)
        ensures
            n == self.queued().len(),
    {
        self.messages.len()
    }

    /// Drops every queued message.
    pub fn clear(&mut self)
        ensures
            final(self).queued() == Seq::<ReceivedMessageView>::empty(),
            final(self).spec_packet_id() == old(self).spec_packet_id(),
            final(self).spec_granted_qos() == old(self).spec_granted_qos(),
    {
        self.messages.clear();
        assert(self.queued() =~= Seq::<ReceivedMessageView>::empty());
    }
}

/// The packet identifiers of the raw test client: a 16-bit counter that
/// wraps, whose value 0 is skipped.
pub struct PacketIdAllocator {
    next: u16,
}

/// The identifier after `id` on a wrapping 16-bit counter.
pub open spec fn wrapping_next(id: u16) -> u16 {
    if id == 65535 {
        0
    } else {
        (id + 1) as u16
    }
}

impl PacketIdAllocator {
    /// The counter the allocator would hand out next (possibly 0, which it
    /// skips).
    pub closed spec fn counter(&self) -> u16 {
        self.next
    }

    /// An allocator whose first identifier is 1.
    pub fn new() -> (a: Self)
        ensures
            a.counter() == 1,
    {
        PacketIdAllocator { next: 1 }
    }

    /// Hands out the next nonzero identifier.
    pub fn allocate(&mut self) -> (id: u16)
        ensures
            id != 0,
            old(self).counter() != 0 ==> id == old(self).counter() && final(self).counter()
                == wrapping_next(id),
            old(self).counter() == 0 ==> id == 1 && final(self).counter() == 2,
    {
        let mut id = self.next;
        self.next = id.wrapping_add(1);
        if id == 0 {
            id = self.next;
            self.next = id.wrapping_add(1);
        }
        id
    }
}

/// The acknowledgement the raw client sends for a PUBLISH the broker
/// delivered: PUBACK for QoS 1 and PUBREC for QoS 2, when the publish
/// carries an identifier; nothing otherwise.
pub fn acknowledge_received_publish(qos: QoS, packet_id: Option<u16>) -> (r: Option<Ack>)
    ensures
        r == match (qos, packet_id) {
            (QoS::AtLeastOnce, Some(id)) => Some(success_ack(AckKind::PubAck, id)),
            (QoS::ExactlyOnce, Some(id)) => Some(success_ack(AckKind::PubRec, id)),
            _ => None,
        },
{
    match (qos, packet_id) {
        (QoS::AtLeastOnce, Some(id)) => Some(
            Ack { kind: AckKind::PubAck, packet_id: id, reason_code: ReasonCode::Success },
        ),
        (QoS::ExactlyOnce, Some(id)) => Some(
            Ack { kind: AckKind::PubRec, packet_id: id, reason_code: ReasonCode::Success },
        ),
        _ => None,
    }
}

/// The answer of the raw client to a PUBREL from the broker: PUBCOMP for
/// the same identifier.
pub fn answer_pubrel(packet_id: u16) -> (r: Ack)
    ensures
        r == success_ack(AckKind::PubComp, packet_id),
{
    Ack { kind: AckKind::PubComp, packet_id, reason_code: ReasonCode::Success }
}

/// Where the raw client stands in the acknowledgement handshake of a
/// PUBLISH it sent.
#[derive(Debug, Clone, Copy, PartialEq, Eq, Structural)]
pub enum PublishFlow {
    AwaitPubAck,
    AwaitPubRec,
    AwaitPubComp,
    Done,
}

/// The handshake of a PUBLISH sent with QoS `qos`: none for QoS 0, PUBACK
/// for QoS 1, PUBREC then PUBCOMP for QoS 2.
pub fn start_publish_flow(qos: QoS) -> (f: PublishFlow)
    ensures
        f == match qos {
            QoS::AtMostOnce => PublishFlow::Done,
            QoS::AtLeastOnce => PublishFlow::AwaitPubAck,
            QoS::ExactlyOnce => PublishFlow::AwaitPubRec,
        },
{
    match qos {
        QoS::AtMostOnce => PublishFlow::Done,
        QoS::AtLeastOnce => PublishFlow::AwaitPubAck,
        QoS::ExactlyOnce => PublishFlow::AwaitPubRec,
    }
}

/// The acknowledgement that arrived for the identifier of a PUBLISH: its
/// kind and whether its reason code is a success, or another packet.
#[derive(Debug, Clone, Copy, PartialEq, Eq, Structural)]
pub enum AckArrival {
    Ack(AckKind, bool),
    Other,
}

/// What the raw client does after an acknowledgement arrived.
#[derive(Debug, Clone, Copy, PartialEq, Eq, Structural)]
pub enum FlowAction {
    /// The publish is complete.
    Finish,
    /// Send PUBREL for the identifier and wait for PUBCOMP.
    SendPubRel,
    /// The expected acknowledgement came with a failure reason code.
    FailReason(AckKind),
    /// Another packet came where this acknowledgement was expected.
    FailUnexpected(AckKind),
}

/// The kind of acknowledgement a handshake step waits for.
pub open spec fn awaited_kind(f: PublishFlow) -> AckKind {
    match f {
        PublishFlow::AwaitPubAck => AckKind::PubAck,
        PublishFlow::AwaitPubRec => AckKind::PubRec,
        _ => AckKind::PubComp,
    }
}

/// One step of the handshake: the expected acknowledgement with a success
/// code moves it on (PUBREC is answered by PUBREL and PUBCOMP awaited); a
/// failure code or another packet ends it with an error naming the
/// expected kind.
pub open spec fn spec_flow_step(f: PublishFlow, arrival: AckArrival) -> (PublishFlow, FlowAction) {
    let k = awaited_kind(f);
    match arrival {
        AckArrival::Ack(kind, success) => if kind != k {
            (PublishFlow::Done, FlowAction::FailUnexpected(k))
        } else if !success {
            (PublishFlow::Done, FlowAction::FailReason(k))
        } else if f == PublishFlow::AwaitPubRec {
            (PublishFlow::AwaitPubComp, FlowAction::SendPubRel)
        } else {
            (PublishFlow::Done, FlowAction::Finish)
        },
        AckArrival::Other => (PublishFlow::Done, FlowAction::FailUnexpected(k)),
    }
}

/// One step of the acknowledgement handshake of a PUBLISH.
pub fn publish_flow_step(f: PublishFlow, arrival: AckArrival) -> (r: (PublishFlow, FlowAction))
    requires
        f != PublishFlow::Done,
    ensures
        r == spec_flow_step(f, arrival),
        arrival matches AckArrival::Ack(kind, success) && !success ==> r.0 == PublishFlow::Done
            && (r.1 is FailReason || r.1 is FailUnexpected),
        r.1 == FlowAction::SendPubRel ==> f == PublishFlow::AwaitPubRec
            && arrival == AckArrival::Ack(AckKind::PubRec, true),
{
    let k = match f {
        PublishFlow::AwaitPubAck => AckKind::PubAck,
        PublishFlow::AwaitPubRec => AckKind::PubRec,
        _ => AckKind::PubComp,
    };
    match arrival {
        AckArrival::Ack(kind, success) => {
            if kind != k {
                (PublishFlow::Done, FlowAction::FailUnexpected(k))
            } else if !success {
                (PublishFlow::Done, FlowAction::FailReason(k))
            } else if f == PublishFlow::AwaitPubRec {
                (PublishFlow::AwaitPubComp, FlowAction::SendPubRel)
            } else {
                (PublishFlow::Done, FlowAction::Finish)
            }
        },
        AckArrival::Other => (PublishFlow::Done, FlowAction::FailUnexpected(k)),
    }
}

/// A QoS 2 publish completes after exactly a successful PUBREC, answered
/// by PUBREL, and a successful PUBCOMP; a QoS 1 publish after a successful
/// PUBACK.
pub proof fn law_publish_handshakes_complete()
    ensures
        ({
            let (f1, a1) = spec_flow_step(PublishFlow::AwaitPubRec, AckArrival::Ack(AckKind::PubRec, true));
            let (f2, a2) = spec_flow_step(f1, AckArrival::Ack(AckKind::PubComp, true));
            a1 == FlowAction::SendPubRel && a2 == FlowAction::Finish && f2 == PublishFlow::Done
        }),
        spec_flow_step(PublishFlow::AwaitPubAck, AckArrival::Ack(AckKind::PubAck, true)) == (
            PublishFlow::Done,
            FlowAction::Finish,
        ),
{
}

/// A packet the raw client's reader received, as far as dispatching it
/// needs.
#[derive(Debug, Clone, Copy, PartialEq, Eq, Structural)]
pub enum RawInbound {
    ConnAck { session_present: bool, success: bool },
    Publish { qos: QoS, packet_id: Option<u16> },
    PubAck(u16),
    PubRec(u16),
    PubRel(u16),
    PubComp(u16),
    SubAck(u16),
    UnsubAck(u16),
    Disconnect,
    Other,
}

/// What the raw client's reader does with a packet.
#[derive(Debug, Clone, Copy, PartialEq, Eq, Structural)]
pub enum RawAction {
    /// Record the CONNACK's session-present flag; when its reason code is
    /// not a success the reader then stops with an error.
    RecordConnAck { session_present: bool, refused: bool },
    /// Hand the publish to the matching subscriptions, then write `reply`
    /// if there is one.
    Deliver { reply: Option<Ack> },
    /// Complete the operation waiting for an acknowledgement of this
    /// identifier.
    CompleteAck(u16),
    /// Write this packet.
    Reply(Ack),
    /// Stop: the broker disconnected.
    Stop,
    /// Nothing to do.
    Ignore,
}

/// How the raw client's reader dispatches a packet.
pub fn dispatch_inbound(packet: RawInbound) -> (a: RawAction)
    ensures
        a == match packet {
            RawInbound::ConnAck { session_present, success } => RawAction::RecordConnAck {
                session_present,
                refused: !success,
            },
            RawInbound::Publish { qos, packet_id } => RawAction::Deliver {
                reply: match (qos, packet_id) {
                    (QoS::AtLeastOnce, Some(id)) => Some(success_ack(AckKind::PubAck, id)),
                    (QoS::ExactlyOnce, Some(id)) => Some(success_ack(AckKind::PubRec, id)),
                    _ => None,
                },
            },
            RawInbound::PubAck(id) => RawAction::CompleteAck(id),
            RawInbound::PubRec(id) => RawAction::CompleteAck(id),
            RawInbound::PubComp(id) => RawAction::CompleteAck(id),
            RawInbound::SubAck(id) => RawAction::CompleteAck(id),
            RawInbound::UnsubAck(id) => RawAction::CompleteAck(id),
            RawInbound::PubRel(id) => RawAction::Reply(success_ack(AckKind::PubComp, id)),
            RawInbound::Disconnect => RawAction::Stop,
            RawInbound::Other => RawAction::Ignore,
        },
{
    match packet {
        RawInbound::ConnAck { session_present, success } => RawAction::RecordConnAck {
            session_present,
            refused: !success,
        },
        RawInbound::Publish { qos, packet_id } => RawAction::Deliver {
            reply: acknowledge_received_publish(qos, packet_id),
        },
        RawInbound::PubAck(id) => RawAction::CompleteAck(id),
        RawInbound::PubRec(id) => RawAction::CompleteAck(id),
        RawInbound::PubComp(id) => RawAction::CompleteAck(id),
        RawInbound::SubAck(id) => RawAction::CompleteAck(id),
        RawInbound::UnsubAck(id) => RawAction::CompleteAck(id),
        RawInbound::PubRel(id) => RawAction::Reply(answer_pubrel(id)),
        RawInbound::Disconnect => RawAction::Stop,
        RawInbound::Other => RawAction::Ignore,
    }
}

/// When retained messages are sent for a new subscription (the option
/// a test asks for).
#[derive(Debug, Clone, Copy, PartialEq, Eq, Structural)]
pub enum RetainHandling {
    SendAtSubscribe,
    SendIfNew,
    DontSend,
}

/// The retain-handling option as the SUBSCRIBE packet encodes it.
#[derive(Debug, Clone, Copy, PartialEq, Eq, Structural)]
pub enum PacketRetainHandling {
    SendAtSubscribe,
    SendAtSubscribeIfNew,
    DoNotSend,
}

/// The packet encoding of a retain-handling option.
pub fn convert_retain_handling(handling: RetainHandling) -> (r: PacketRetainHandling)
    ensures
        r == match handling {
            RetainHandling::SendAtSubscribe => PacketRetainHandling::SendAtSubscribe,
            RetainHandling::SendIfNew => PacketRetainHandling::SendAtSubscribeIfNew,
            RetainHandling::DontSend => PacketRetainHandling::DoNotSend,
        },
{
    match handling {
        RetainHandling::SendAtSubscribe => PacketRetainHandling::SendAtSubscribe,
        RetainHandling::SendIfNew => PacketRetainHandling::SendAtSubscribeIfNew,
        RetainHandling::DontSend => PacketRetainHandling::DoNotSend,
    }
}

/// Every acknowledgement with a failure reason code ends the handshake: the
/// one awaited fails with its own kind (PUBACK for QoS 1, PUBREC then
/// PUBCOMP for QoS 2), and PUBREL is sent only after a successful PUBREC.
pub proof fn law_failed_ack_ends_flow(f: PublishFlow, kind: AckKind, success: bool)
    requires
        f != PublishFlow::Done,
    ensures
        f == PublishFlow::AwaitPubAck ==> spec_flow_step(f, AckArrival::Ack(AckKind::PubAck, false))
            == (PublishFlow::Done, FlowAction::FailReason(AckKind::PubAck)),
        f == PublishFlow::AwaitPubRec ==> spec_flow_step(f, AckArrival::Ack(AckKind::PubRec, false))
            == (PublishFlow::Done, FlowAction::FailReason(AckKind::PubRec)),
        f == PublishFlow::AwaitPubComp ==> spec_flow_step(
            f,
            AckArrival::Ack(AckKind::PubComp, false),
        ) == (PublishFlow::Done, FlowAction::FailReason(AckKind::PubComp)),
        !success ==> spec_flow_step(f, AckArrival::Ack(kind, success)).0 == PublishFlow::Done,
        spec_flow_step(f, AckArrival::Ack(kind, success)).1 == FlowAction::SendPubRel <==> (f
            == PublishFlow::AwaitPubRec && kind == AckKind::PubRec && success),
        spec_flow_step(f, AckArrival::Ack(kind, success)).1 == FlowAction::Finish <==> (success
            && ((f == PublishFlow::AwaitPubAck && kind == AckKind::PubAck) || (f
            == PublishFlow::AwaitPubComp && kind == AckKind::PubComp))),
{
}

} // verus!
