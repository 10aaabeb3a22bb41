//! The QoS state the WASI broker keeps for one client between packets:
//! inbound QoS 2 publishes held until PUBREL, those the application already
//! consumed, outbound QoS 2 publishes awaiting PUBCOMP, and the identifier
//! the next forwarded publish carries.
use crate::client_session::InboundOutcome;
use crate::error_classification::ReasonCode;
use crate::qos::{next_id, next_packet_id_after, success_ack, Ack, AckKind, QoS};
use std::collections::{HashMap, HashSet};
use vstd::prelude::*;

verus! {

broadcast use vstd::std_specs::hash::group_hash_axioms;

/// The abstract QoS state of one client connection at the broker.
pub struct BrokerQosView<P> {
    /// The identifier the next forwarded QoS 1/2 publish carries.
    pub next_packet_id: u16,
    /// Inbound QoS 2 publishes to route once PUBREL arrives.
    pub inbound: Map<u16, P>,
    /// Identifiers of inbound QoS 2 publishes the application consumed,
    /// whose handshake still awaits PUBREL.
    pub handled: Set<u16>,
    /// Outbound QoS 2 publishes awaiting PUBCOMP.
    pub outbound: Map<u16, P>,
}

impl<P> BrokerQosView<P> {
    /// Packet identifier 0 is never handed out.
    pub open spec fn valid(self) -> bool {
        self.next_packet_id != 0
    }
}

/// The broker's QoS state for one client connection.
pub struct BrokerQos<P> {
    next_packet_id: u16,
    inflight_publishes: HashMap<u16, P>,
    inflight_handled: HashSet<u16>,
    outbound_inflight: HashMap<u16, P>,
}

impl<P> View for BrokerQos<P> {
    type V = BrokerQosView<P>;

    closed spec fn view(&self) -> BrokerQosView<P> {
        BrokerQosView {
            next_packet_id: self.next_packet_id,
            inbound: self.inflight_publishes@,
            handled: self.inflight_handled@,
            outbound: self.outbound_inflight@,
        }
    }
}

/// The state and the outcome after a PUBLISH with QoS `qos` and identifier
/// `packet_id` is accepted. When `handled` holds, the application consumed
/// the publish and it is not routed; otherwise it is routed (QoS 0 and 1)
/// or held until PUBREL (QoS 2). QoS 1 is answered with PUBACK and QoS 2
/// with PUBREC.
pub open spec fn spec_accept<P>(
    v: BrokerQosView<P>,
    qos: QoS,
    packet_id: Option<u16>,
    publish: P,
    handled: bool,
) -> (BrokerQosView<P>, InboundOutcome<P>) {
    let id = packet_id->0;
    match qos {
        QoS::AtMostOnce => (
            v,
            InboundOutcome { reply: None, deliver: if handled { None } else { Some(publish) } },
        ),
        QoS::AtLeastOnce => (
            v,
            InboundOutcome {
                reply: Some(success_ack(AckKind::PubAck, id)),
                deliver: if handled { None } else { Some(publish) },
            },
        ),
        QoS::ExactlyOnce => (
            if handled {
                BrokerQosView { handled: v.handled.insert(id), ..v }
            } else {
                BrokerQosView { inbound: v.inbound.insert(id, publish), ..v }
            },
            InboundOutcome { reply: Some(success_ack(AckKind::PubRec, id)), deliver: None },
        ),
    }
}

/// The state after PUBREL for `id`, the PUBCOMP to answer with, and the
/// publish to route now: a held publish is routed and its PUBCOMP is a
/// success, a consumed one completes with success and is not routed, and
/// an unknown identifier is answered "packet identifier not found".
pub open spec fn spec_release<P>(v: BrokerQosView<P>, id: u16) -> (BrokerQosView<P>, Ack, Option<P>) {
    if v.inbound.contains_key(id) {
        (
            BrokerQosView { inbound: v.inbound.remove(id), ..v },
            success_ack(AckKind::PubComp, id),
            Some(v.inbound[id]),
        )
    } else if v.handled.contains(id) {
        (
            BrokerQosView { handled: v.handled.remove(id), ..v },
            success_ack(AckKind::PubComp, id),
            None,
        )
    } else {
        (
            v,
            Ack {
                kind: AckKind::PubComp,
                packet_id: id,
                reason_code: ReasonCode::PacketIdentifierNotFound,
            },
            None,
        )
    }
}

/// `id` is in use by a publish in flight in either direction.
pub open spec fn in_flight<P>(v: BrokerQosView<P>, id: u16) -> bool {
    v.outbound.contains_key(id) || v.inbound.contains_key(id)
}

/// The first identifier, among `steps` identifiers counted from `candidate`,
/// that is not in flight.
pub open spec fn first_free_from<P>(v: BrokerQosView<P>, candidate: u16, steps: nat) -> Option<u16>
    decreases steps,
{
    if steps == 0 {
        None
    } else if !in_flight(v, candidate) {
        Some(candidate)
    } else {
        first_free_from(v, next_id(candidate), (steps - 1) as nat)
    }
}

/// The identifier the next forwarded publish carries after a session is
/// resumed: the first one from the current one on that is not in flight,
/// or the current one when every identifier is.
pub open spec fn advanced_next_id<P>(v: BrokerQosView<P>) -> u16 {
    match first_free_from(v, v.next_packet_id, 65535) {
        Some(c) => c,
        None => v.next_packet_id,
    }
}

/// Which way a stored in-flight message travels.
#[derive(Debug, Clone, Copy, PartialEq, Eq, Structural)]
pub enum InflightDirection {
    Inbound,
    Outbound,
}

/// The step of the QoS handshake a stored in-flight message awaits.
#[derive(Debug, Clone, Copy, PartialEq, Eq, Structural)]
pub enum InflightPhase {
    AwaitingPubrec,
    AwaitingPubrel,
    AwaitingPubcomp,
}

/// What to send for an in-flight message restored with a resumed session.
#[derive(Debug, Clone, Copy, PartialEq, Eq, Structural)]
pub enum RestoreAction {
    /// Send the publish again, with the DUP flag set.
    ResendPublish,
    /// Send this PUBREL.
    SendPubRel(Ack),
    /// Send nothing.
    Nothing,
}

/// The state after an in-flight message is restored, and what to send.
pub open spec fn spec_restore<P>(
    v: BrokerQosView<P>,
    direction: InflightDirection,
    phase: InflightPhase,
    packet_id: u16,
    publish: P,
) -> (BrokerQosView<P>, RestoreAction) {
    match direction {
        InflightDirection::Inbound => (
            BrokerQosView { inbound: v.inbound.insert(packet_id, publish), ..v },
            RestoreAction::Nothing,
        ),
        InflightDirection::Outbound => match phase {
            InflightPhase::AwaitingPubrec => (
                BrokerQosView { outbound: v.outbound.insert(packet_id, publish), ..v },
                RestoreAction::ResendPublish,
            ),
            InflightPhase::AwaitingPubcomp => (
                BrokerQosView { outbound: v.outbound.insert(packet_id, publish), ..v },
                RestoreAction::SendPubRel(success_ack(AckKind::PubRel, packet_id)),
            ),
            InflightPhase::AwaitingPubrel => (v, RestoreAction::Nothing),
        },
    }
}

impl<P> BrokerQos<P> {
    /// The state of a new connection: identifiers start at 1 and nothing
    /// is in flight.
    pub fn new() -> (s: Self)
        ensures
            s@ == (BrokerQosView::<P> {
                next_packet_id: 1,
                inbound: Map::empty(),
                handled: Set::empty(),
                outbound: Map::empty(),
            }),
    {
        BrokerQos {
            next_packet_id: 1,
            inflight_publishes: HashMap::new(),
            inflight_handled: HashSet::new(),
            outbound_inflight: HashMap::new(),
        }
    }

    /// Accepts an inbound PUBLISH that passed the broker's checks. A QoS 1/2
    /// publish carries an identifier.
    pub fn accept_publish(&mut self, qos: QoS, packet_id: Option<u16>, publish: P, handled: bool) -> (r:
        InboundOutcome<P>)
        requires
            qos != QoS::AtMostOnce ==> packet_id is Some,
        ensures
            (final(self)@, r) == spec_accept(old(self)@, qos, packet_id, publish, handled),
            qos != QoS::ExactlyOnce && !handled ==> r.deliver == Some(publish),
            qos == QoS::ExactlyOnce || handled ==> r.deliver is None,
            qos == QoS::AtMostOnce ==> r.reply is None,
            qos == QoS::AtLeastOnce ==> r.reply == Some(
                Ack { kind: AckKind::PubAck, packet_id: packet_id->0, reason_code: ReasonCode::Success },
            ),
            qos == QoS::ExactlyOnce ==> r.reply == Some(
                Ack { kind: AckKind::PubRec, packet_id: packet_id->0, reason_code: ReasonCode::Success },
            ),
    {
        match qos {
            QoS::AtMostOnce => InboundOutcome {
                reply: None,
                deliver: if handled {
                    None
                } else {
                    Some(publish)
                },
            },
            QoS::AtLeastOnce => {
                let id = packet_id.unwrap();
                InboundOutcome {
                    reply: Some(Ack { kind: AckKind::PubAck, packet_id: id, reason_code: ReasonCode::Success }),
                    deliver: if handled {
                        None
                    } else {
                        Some(publish)
                    },
                }
            },
            QoS::ExactlyOnce => {
                let id = packet_id.unwrap();
                if handled {
                    self.inflight_handled.insert(id);
                } else {
                    self.inflight_publishes.insert(id, publish);
                }
                InboundOutcome {
                    reply: Some(Ack { kind: AckKind::PubRec, packet_id: id, reason_code: ReasonCode::Success }),
                    deliver: None,
                }
            },
        }
    }

    /// Handles PUBREL for `packet_id`: the PUBCOMP to answer with and the
    /// publish to route now.
    pub fn release(&mut self, packet_id: u16) -> (r: (Ack, Option<P>))
        ensures
            (final(self)@, r.0, r.1) == spec_release(old(self)@, packet_id),
    {
        match self.inflight_publishes.remove(&packet_id) {
            Some(publish) => (
                Ack { kind: AckKind::PubComp, packet_id, reason_code: ReasonCode::Success },
                Some(publish),
            ),
            None => {
                assert(old(self)@.inbound.remove(packet_id) =~= old(self)@.inbound);
                if self.inflight_handled.remove(&packet_id) {
                    (Ack { kind: AckKind::PubComp, packet_id, reason_code: ReasonCode::Success }, None)
                } else {
                    assert(old(self)@.handled.remove(packet_id) =~= old(self)@.handled);
                    (
                        Ack {
                            kind: AckKind::PubComp,
                            packet_id,
                            reason_code: ReasonCode::PacketIdentifierNotFound,
                        },
                        None,
                    )
                }
            },
        }
    }

    /// Outbound QoS 2: the client accepted a forwarded publish with PUBREC;
    /// the answer is PUBREL for the same identifier.
    pub fn answer_pubrec(&self, packet_id: u16) -> (ack: Ack)
        ensures
            ack == success_ack(AckKind::PubRel, packet_id),
    {
        Ack { kind: AckKind::PubRel, packet_id, reason_code: ReasonCode::Success }
    }

    /// The identifier of a publish forwarded to the client with QoS `qos`:
    /// QoS 1/2 publishes take the next identifier, QoS 0 ones none.
    pub fn assign_forward_id(&mut self, qos: QoS) -> (pid: Option<u16>)
        requires
            old(self)@.valid(),
        ensures
            qos == QoS::AtMostOnce ==> pid is None && final(self)@ == old(self)@,
            qos != QoS::AtMostOnce ==> pid == Some(old(self)@.next_packet_id) && final(self)@ == (
            BrokerQosView { next_packet_id: next_id(old(self)@.next_packet_id), ..old(self)@ }),
            pid matches Some(id) ==> id != 0,
    {
        if qos == QoS::AtMostOnce {
            None
        } else {
            let pid = self.next_packet_id;
            self.next_packet_id = next_packet_id_after(pid);
            Some(pid)
        }
    }

    /// Records a forwarded QoS 2 publish as awaiting PUBCOMP.
    pub fn track_outbound(&mut self, packet_id: u16, publish: P)
        ensures
            final(self)@ == (BrokerQosView {
                outbound: old(self)@.outbound.insert(packet_id, publish),
                ..old(self)@
            }),
    {
        self.outbound_inflight.insert(packet_id, publish);
    }

    /// The client acknowledged a forwarded publish (PUBACK or PUBCOMP): it
    /// is no longer in flight.
    pub fn complete_outbound(&mut self, packet_id: u16)
        ensures
            final(self)@ == (BrokerQosView {
                outbound: old(self)@.outbound.remove(packet_id),
                ..old(self)@
            }),
    {
        self.outbound_inflight.remove(&packet_id);
    }

    /// Restores an in-flight message of a resumed session and says what to
    /// send for it.
    pub fn restore_inflight(
        &mut self,
        direction: InflightDirection,
        phase: InflightPhase,
        packet_id: u16,
        publish: P,
    ) -> (r: RestoreAction)
        ensures
            (final(self)@, r) == spec_restore(old(self)@, direction, phase, packet_id, publish),
    {
        match direction {
            InflightDirection::Inbound => {
                self.inflight_publishes.insert(packet_id, publish);
                RestoreAction::Nothing
            },
            InflightDirection::Outbound => match phase {
                InflightPhase::AwaitingPubrec => {
                    self.outbound_inflight.insert(packet_id, publish);
                    RestoreAction::ResendPublish
                },
                InflightPhase::AwaitingPubcomp => {
                    self.outbound_inflight.insert(packet_id, publish);
                    RestoreAction::SendPubRel(
                        Ack { kind: AckKind::PubRel, packet_id, reason_code: ReasonCode::Success },
                    )
                },
                InflightPhase::AwaitingPubrel => RestoreAction::Nothing,
            },
        }
    }

    /// After a session is resumed, moves the next identifier to the first
    /// one that no restored publish uses, so that forwarded publishes do
    /// not collide with them.
    pub fn advance_packet_id_past_inflight(&mut self)
        requires
            old(self)@.valid(),
        ensures
            final(self)@ == (BrokerQosView {
                next_packet_id: advanced_next_id(old(self)@),
                ..old(self)@
            }),
    {
        let ghost v0 = self@;
        let mut candidate = self.next_packet_id;
        let mut i: u32 = 0;
        while i < 65535
            invariant
                self@ == v0,
                v0 == old(self)@,
                candidate != 0,
                i <= 65535,
                first_free_from(v0, candidate, (65535 - i) as nat) == first_free_from(
                    v0,
                    v0.next_packet_id,
                    65535,
                ),
            decreases 65535 - i,
        {
            if !self.outbound_inflight.contains_key(&candidate)
                && !self.inflight_publishes.contains_key(&candidate) {
                self.next_packet_id = candidate;
                return ;
            }
            candidate = next_packet_id_after(candidate);
            i = i + 1;
        }
    }
}

/// An inbound QoS 2 publish is routed exactly once: held on receipt, routed
/// on the first PUBREL with a successful PUBCOMP, and a repeated PUBREL
/// routes nothing and is answered "packet identifier not found" (when the
/// application had not consumed a publish under the same identifier).
pub proof fn law_qos2_routed_once<P>(v: BrokerQosView<P>, id: u16, publish: P)
    requires
        !v.handled.contains(id),
    ensures
        ({
            let (v1, o1) = spec_accept(v, QoS::ExactlyOnce, Some(id), publish, false);
            let (v2, c2, r2) = spec_release(v1, id);
            let (v3, c3, r3) = spec_release(v2, id);
            &&& o1.deliver is None
            &&& o1.reply == Some(success_ack(AckKind::PubRec, id))
            &&& r2 == Some(publish) && c2.reason_code == ReasonCode::Success
            &&& r3 is None && c3.reason_code == ReasonCode::PacketIdentifierNotFound
            &&& v3 == v2
        }),
{
}

/// A QoS 2 publish the application consumed completes its handshake with a
/// successful PUBCOMP and is never routed.
pub proof fn law_handled_publish_never_routed<P>(v: BrokerQosView<P>, id: u16, publish: P)
    requires
        !v.inbound.contains_key(id),
    ensures
        ({
            let (v1, o1) = spec_accept(v, QoS::ExactlyOnce, Some(id), publish, true);
            let (_, c2, r2) = spec_release(v1, id);
            o1.deliver is None && r2 is None && c2 == success_ack(AckKind::PubComp, id)
        }),
{
}

/// A PUBREL for an identifier the broker holds nothing under is answered
/// "packet identifier not found" and changes nothing.
pub proof fn law_unknown_pubrel_not_found<P>(v: BrokerQosView<P>, id: u16)
    requires
        !v.inbound.contains_key(id),
        !v.handled.contains(id),
    ensures
        spec_release(v, id) == (
            v,
            Ack {
                kind: AckKind::PubComp,
                packet_id: id,
                reason_code: ReasonCode::PacketIdentifierNotFound,
            },
            None::<P>,
        ),
{
}

/// An inbound publish restored with a resumed session is routed by the
/// PUBREL that completes its handshake.
pub proof fn law_restored_inbound_released<P>(
    v: BrokerQosView<P>,
    phase: InflightPhase,
    id: u16,
    publish: P,
)
    ensures
        ({
            let (v1, a) = spec_restore(v, InflightDirection::Inbound, phase, id, publish);
            let (_, c, r) = spec_release(v1, id);
            a == RestoreAction::Nothing && r == Some(publish) && c == success_ack(AckKind::PubComp, id)
        }),
{
}

/// `next_id` applied `k` times.
pub open spec fn iterate_next(c: u16, k: nat) -> u16
    decreases k,
{
    if k == 0 {
        c
    } else {
        iterate_next(next_id(c), (k - 1) as nat)
    }
}

/// Counting `k` identifiers on from `c` wraps round the nonzero identifiers.
proof fn lemma_iterate_next(c: u16, k: nat)
    requires
        c != 0,
    ensures
        iterate_next(c, k) as int == (c - 1 + k) % 65535 + 1,
    decreases k,
{
    if k > 0 {
        lemma_iterate_next(next_id(c), (k - 1) as nat);
        if c == 65535 {
            assert((0 + (k - 1)) % 65535 == (65535 - 1 + k) % 65535) by {
                vstd::arithmetic::div_mod::lemma_mod_add_multiples_vanish((k - 1) as int, 65535);
            }
        }
    }
}

/// If the search from `c` over `n` identifiers finds nothing free, every
/// identifier it passed is in flight.
proof fn lemma_none_free_means_all_in_flight<P>(v: BrokerQosView<P>, c: u16, n: nat, k: nat)
    requires
        first_free_from(v, c, n) is None,
        k < n,
    ensures
        in_flight(v, iterate_next(c, k)),
    decreases n,
{
    if k > 0 {
        lemma_none_free_means_all_in_flight(v, next_id(c), (n - 1) as nat, (k - 1) as nat);
    }
}

/// What the search from `c` finds is a nonzero identifier that is not in
/// flight.
proof fn lemma_found_is_free<P>(v: BrokerQosView<P>, c: u16, n: nat)
    requires
        c != 0,
        first_free_from(v, c, n) is Some,
    ensures
        !in_flight(v, first_free_from(v, c, n)->0),
        first_free_from(v, c, n)->0 != 0,
    decreases n,
{
    if in_flight(v, c) {
        lemma_found_is_free(v, next_id(c), (n - 1) as nat);
    }
}

/// After a session is resumed, the next forwarded publish carries an
/// identifier that no in-flight publish uses, as long as one is free; and
/// it is never 0.
pub proof fn law_advanced_id_is_free<P>(v: BrokerQosView<P>, free: u16)
    requires
        v.valid(),
        free != 0,
        !in_flight(v, free),
    ensures
        !in_flight(v, advanced_next_id(v)),
        advanced_next_id(v) != 0,
{
    let c = v.next_packet_id;
    let k: nat = if free >= c {
        (free - c) as nat
    } else {
        (free - c + 65535) as nat
    };
    lemma_iterate_next(c, k);
    assert(iterate_next(c, k) == free);
    if first_free_from(v, c, 65535) is None {
        lemma_none_free_means_all_in_flight(v, c, 65535, k);
    }
    lemma_found_is_free(v, c, 65535);
}

/// What accepting a PUBLISH does, for every state, QoS and publish: one the
/// application did not consume is handed to the subscribers at once at
/// QoS 0 and 1, and at QoS 2 is held (not yet routed) under its identifier
/// until PUBREL; one the application consumed is never routed. QoS 1 is
/// answered with a successful PUBACK and QoS 2 with a successful PUBREC for
/// the publish's identifier; QoS 0 gets no answer. Only a QoS 2 publish
/// changes the state.
pub proof fn law_accept_routes_or_holds<P>(
    v: BrokerQosView<P>,
    qos: QoS,
    id: u16,
    publish: P,
    handled: bool,
)
    ensures
        ({
            let (v1, o) = spec_accept(v, qos, Some(id), publish, handled);
            &&& (qos != QoS::ExactlyOnce && !handled) ==> o.deliver == Some(publish)
            &&& (qos == QoS::ExactlyOnce || handled) ==> o.deliver is None
            &&& qos == QoS::AtMostOnce ==> o.reply is None
            &&& qos == QoS::AtLeastOnce ==> o.reply == Some(
                Ack { kind: AckKind::PubAck, packet_id: id, reason_code: ReasonCode::Success },
            )
            &&& qos == QoS::ExactlyOnce ==> o.reply == Some(
                Ack { kind: AckKind::PubRec, packet_id: id, reason_code: ReasonCode::Success },
            )
            &&& qos != QoS::ExactlyOnce ==> v1 == v
            &&& (qos == QoS::ExactlyOnce && !handled) ==> v1.inbound.contains_key(id)
                && v1.inbound[id] == publish && v1.handled == v.handled && v1.outbound
                == v.outbound
            &&& (qos == QoS::ExactlyOnce && handled) ==> v1.handled.contains(id) && v1.inbound
                == v.inbound && v1.outbound == v.outbound
        }),
{
}

} // verus!
