use mqtt_lib::broker_session::SubAckCode;
use mqtt_lib::client_session::{
    check_protocol_version, granted_from_suback, missing_packet_id, ClientSession,
};
use mqtt_lib::error_classification::{MqttError, ReasonCode};
use mqtt_lib::qos::{next_packet_id_after, Ack, AckKind, QoS};

fn protocol_message(e: MqttError) -> String {
    match e {
        MqttError::ProtocolError(m) => m,
        other => panic!("expected a protocol error, got {other:?}"),
    }
}

#[test]
fn packet_ids_start_at_one_and_skip_zero() {
    let mut s: ClientSession<&str> = ClientSession::new(5);
    assert_eq!(s.protocol_version(), 5);
    assert_eq!(s.next_packet_id(), 1);
    assert_eq!(s.next_packet_id(), 2);
    assert_eq!(next_packet_id_after(65535), 1);
    assert_eq!(next_packet_id_after(1), 2);
    for _ in 0..70_000 {
        assert_ne!(s.next_packet_id(), 0);
    }
}

#[test]
fn qos0_publish_takes_no_id() {
    let mut s: ClientSession<&str> = ClientSession::new(4);
    assert_eq!(s.begin_publish(QoS::AtMostOnce), None);
    assert_eq!(s.begin_publish(QoS::AtLeastOnce), Some(1));
    assert_eq!(s.begin_publish(QoS::ExactlyOnce), Some(2));
    s.acknowledge_outbound(1);
    assert_eq!(s.next_packet_id(), 3);
}

#[test]
fn inbound_qos1_is_acknowledged_and_delivered() {
    let mut s = ClientSession::new(5);
    let out = s.handle_inbound_publish(QoS::AtLeastOnce, Some(9), "m").unwrap();
    assert_eq!(
        out.reply,
        Some(Ack { kind: AckKind::PubAck, packet_id: 9, reason_code: ReasonCode::Success })
    );
    assert_eq!(out.deliver, Some("m"));
}

#[test]
fn inbound_qos2_delivered_once_after_pubrel() {
    let mut s = ClientSession::new(5);
    let out = s.handle_inbound_publish(QoS::ExactlyOnce, Some(4), "held").unwrap();
    assert_eq!(
        out.reply,
        Some(Ack { kind: AckKind::PubRec, packet_id: 4, reason_code: ReasonCode::Success })
    );
    assert_eq!(out.deliver, None);
    let (ack, released) = s.handle_pubrel(4);
    assert_eq!(ack, Ack { kind: AckKind::PubComp, packet_id: 4, reason_code: ReasonCode::Success });
    assert_eq!(released, Some("held"));
    let (ack2, again) = s.handle_pubrel(4);
    assert_eq!(ack2.kind, AckKind::PubComp);
    assert_eq!(again, None);
}

#[test]
fn duplicate_qos2_publish_not_delivered_twice() {
    let mut s = ClientSession::new(5);
    s.handle_inbound_publish(QoS::ExactlyOnce, Some(4), "first").unwrap();
    s.handle_inbound_publish(QoS::ExactlyOnce, Some(4), "second").unwrap();
    assert_eq!(s.handle_pubrel(4).1, Some("second"));
    assert_eq!(s.handle_pubrel(4).1, None);
}

#[test]
fn missing_packet_id_is_protocol_error() {
    let mut s: ClientSession<&str> = ClientSession::new(5);
    let e = s.handle_inbound_publish(QoS::AtLeastOnce, None, "x").unwrap_err();
    assert_eq!(protocol_message(e), "PUBLISH QoS 1 missing packet identifier");
    let e = s.handle_inbound_publish(QoS::ExactlyOnce, None, "x").unwrap_err();
    assert_eq!(protocol_message(e), "PUBLISH QoS 2 missing packet identifier");
    assert_eq!(protocol_message(missing_packet_id("PUBREL")), "PUBREL missing packet identifier");
    let out = s.handle_inbound_publish(QoS::AtMostOnce, None, "y").unwrap();
    assert_eq!(out.reply, None);
    assert_eq!(out.deliver, Some("y"));
}

#[test]
fn pubrec_is_answered_with_pubrel() {
    let s: ClientSession<()> = ClientSession::new(5);
    assert_eq!(
        s.handle_pubrec(300),
        Ack { kind: AckKind::PubRel, packet_id: 300, reason_code: ReasonCode::Success }
    );
}

#[test]
fn pending_messages_come_back_in_order() {
    let mut s = ClientSession::new(5);
    assert_eq!(s.pop_pending(), None);
    s.push_pending("a");
    s.push_pending("b");
    assert_eq!(s.pop_pending(), Some("a"));
    assert_eq!(s.pop_pending(), Some("b"));
    assert_eq!(s.pop_pending(), None);
}

#[test]
fn only_versions_4_and_5_are_supported() {
    assert!(check_protocol_version(4).is_ok());
    assert!(check_protocol_version(5).is_ok());
    assert_eq!(protocol_message(check_protocol_version(3).unwrap_err()), "Unsupported protocol version: 3");
    assert_eq!(protocol_message(check_protocol_version(255).unwrap_err()), "Unsupported protocol version: 255");
}

#[test]
fn suback_grant_read_from_first_code() {
    assert_eq!(granted_from_suback(&[SubAckCode::GrantedQoS1, SubAckCode::NotAuthorized]).unwrap(), QoS::AtLeastOnce);
    assert_eq!(protocol_message(granted_from_suback(&[]).unwrap_err()), "SUBACK had no reason codes");
    assert_eq!(
        protocol_message(granted_from_suback(&[SubAckCode::TopicFilterInvalid]).unwrap_err()),
        "Subscription not granted"
    );
}
