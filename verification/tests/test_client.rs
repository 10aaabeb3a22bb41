use mqtt_lib::error_classification::ReasonCode;
use mqtt_lib::qos::{Ack, AckKind, QoS};
use mqtt_lib::test_client::{
    dispatch_inbound, publish_flow_step, start_publish_flow, AckArrival, FlowAction, PublishFlow,
    RawAction, RawInbound,
};
use mqtt_lib::test_client::{
    acknowledge_received_publish, answer_pubrel, convert_retain_handling, PacketIdAllocator, PacketRetainHandling, ReceivedMessage,
    RetainHandling, Subscription,
};

fn message(topic: &str) -> ReceivedMessage {
    ReceivedMessage {
        topic: topic.to_owned(),
        payload: b"hello".to_vec(),
        qos: QoS::AtLeastOnce,
        retain: false,
        dup: false,
        subscription_identifiers: vec![3],
        user_properties: vec![("k".to_owned(), "v".to_owned())],
        content_type: Some("text/plain".to_owned()),
        response_topic: None,
        correlation_data: Some(vec![1, 2]),
        message_expiry_interval: Some(30),
        payload_format_indicator: Some(true),
    }
}

#[test]
fn subscription_queue_is_first_in_first_out() {
    let mut s = Subscription::new(7, QoS::AtLeastOnce);
    assert_eq!(s.packet_id(), 7);
    assert_eq!(s.granted_qos(), QoS::AtLeastOnce);
    assert_eq!(s.count(), 0);
    s.deliver(message("a"));
    s.deliver(message("b"));
    assert_eq!(s.count(), 2);
    let snap = s.snapshot();
    assert_eq!(snap.len(), 2);
    assert_eq!(snap[0].topic, "a");
    assert_eq!(snap[1].user_properties, vec![("k".to_owned(), "v".to_owned())]);
    assert_eq!(s.count(), 2);
    assert_eq!(s.take_next().unwrap().topic, "a");
    assert_eq!(s.take_next().unwrap().topic, "b");
    assert!(s.take_next().is_none());
}

#[test]
fn subscription_clear_drops_everything() {
    let mut s = Subscription::new(1, QoS::AtMostOnce);
    s.deliver(message("a"));
    s.clear();
    assert_eq!(s.count(), 0);
    assert!(s.snapshot().is_empty());
    assert_eq!(s.packet_id(), 1);
}

#[test]
fn received_message_clone_keeps_every_field() {
    let m = message("t");
    let c = m.clone();
    assert_eq!(c.topic, m.topic);
    assert_eq!(c.payload, m.payload);
    assert_eq!(c.content_type, m.content_type);
    assert_eq!(c.correlation_data, m.correlation_data);
    assert_eq!(c.subscription_identifiers, m.subscription_identifiers);
}

#[test]
fn raw_allocator_skips_zero_after_wrap() {
    let mut a = PacketIdAllocator::new();
    assert_eq!(a.allocate(), 1);
    assert_eq!(a.allocate(), 2);
    for _ in 0..65532 {
        a.allocate();
    }
    assert_eq!(a.allocate(), 65535);
    assert_eq!(a.allocate(), 1);
}

#[test]
fn retain_handling_maps_to_packet_encoding() {
    assert_eq!(convert_retain_handling(RetainHandling::SendAtSubscribe), PacketRetainHandling::SendAtSubscribe);
    assert_eq!(convert_retain_handling(RetainHandling::SendIfNew), PacketRetainHandling::SendAtSubscribeIfNew);
    assert_eq!(convert_retain_handling(RetainHandling::DontSend), PacketRetainHandling::DoNotSend);
}

#[test]
fn qos_levels_round_trip() {
    for q in [QoS::AtMostOnce, QoS::AtLeastOnce, QoS::ExactlyOnce] {
        assert_eq!(QoS::from_level(q.level()), Some(q));
    }
    assert_eq!(QoS::from_level(3), None);
}

#[test]
fn raw_client_acknowledges_by_qos() {
    assert_eq!(acknowledge_received_publish(QoS::AtMostOnce, Some(1)), None);
    assert_eq!(
        acknowledge_received_publish(QoS::AtLeastOnce, Some(1)),
        Some(Ack { kind: AckKind::PubAck, packet_id: 1, reason_code: ReasonCode::Success })
    );
    assert_eq!(
        acknowledge_received_publish(QoS::ExactlyOnce, Some(2)),
        Some(Ack { kind: AckKind::PubRec, packet_id: 2, reason_code: ReasonCode::Success })
    );
    assert_eq!(acknowledge_received_publish(QoS::ExactlyOnce, None), None);
    assert_eq!(answer_pubrel(5), Ack { kind: AckKind::PubComp, packet_id: 5, reason_code: ReasonCode::Success });
}

#[test]
fn publish_handshake_steps() {
    assert_eq!(start_publish_flow(QoS::AtMostOnce), PublishFlow::Done);
    let f = start_publish_flow(QoS::ExactlyOnce);
    assert_eq!(f, PublishFlow::AwaitPubRec);
    let (f, a) = publish_flow_step(f, AckArrival::Ack(AckKind::PubRec, true));
    assert_eq!((f, a), (PublishFlow::AwaitPubComp, FlowAction::SendPubRel));
    let (f, a) = publish_flow_step(f, AckArrival::Ack(AckKind::PubComp, true));
    assert_eq!((f, a), (PublishFlow::Done, FlowAction::Finish));
    let f1 = start_publish_flow(QoS::AtLeastOnce);
    assert_eq!(publish_flow_step(f1, AckArrival::Ack(AckKind::PubAck, false)).1, FlowAction::FailReason(AckKind::PubAck));
    assert_eq!(publish_flow_step(f1, AckArrival::Ack(AckKind::PubRec, true)).1, FlowAction::FailUnexpected(AckKind::PubAck));
    assert_eq!(publish_flow_step(f1, AckArrival::Other).1, FlowAction::FailUnexpected(AckKind::PubAck));
}

#[test]
fn raw_reader_dispatches_packets() {
    assert_eq!(
        dispatch_inbound(RawInbound::ConnAck { session_present: true, success: false }),
        RawAction::RecordConnAck { session_present: true, refused: true }
    );
    assert_eq!(
        dispatch_inbound(RawInbound::Publish { qos: QoS::ExactlyOnce, packet_id: Some(4) }),
        RawAction::Deliver { reply: Some(Ack { kind: AckKind::PubRec, packet_id: 4, reason_code: ReasonCode::Success }) }
    );
    assert_eq!(dispatch_inbound(RawInbound::SubAck(9)), RawAction::CompleteAck(9));
    assert_eq!(
        dispatch_inbound(RawInbound::PubRel(3)),
        RawAction::Reply(Ack { kind: AckKind::PubComp, packet_id: 3, reason_code: ReasonCode::Success })
    );
    assert_eq!(dispatch_inbound(RawInbound::Disconnect), RawAction::Stop);
    assert_eq!(dispatch_inbound(RawInbound::Other), RawAction::Ignore);
}
