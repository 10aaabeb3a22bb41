use mqtt_lib::broker_qos::{BrokerQos, InflightDirection, InflightPhase, RestoreAction};
use mqtt_lib::broker_session::{
    check_connect_preflight, check_plain_connect, route_connect_auth, subscribe_reason_codes,
    AuthRoute, FilterRequest,
};
use mqtt_lib::broker_session::{
    assign_client_id, check_connect_version, check_continue_auth, check_reauth,
    check_session_owner, check_subscribe_filter, connect_auth_step, is_normal_disconnect,
    plan_session, publish_rejection, reauth_reply, reject_publish_reply, resolve_granted_qos,
    server_capability_properties, session_persists, suback_code_for, unsuback_reason_codes,
    validate_will_capabilities, will_timing, AuthReply, AuthState, BrokerLimits,
    EnhancedAuthStatus, FilterCheck, SessionPlan, SubAckCode, WillSummary, WillTiming,
};
use mqtt_lib::error_classification::{MqttError, ReasonCode};
use mqtt_lib::qos::{Ack, AckKind, QoS};

fn message(e: &MqttError) -> String {
    match e {
        MqttError::ProtocolError(m) => m.clone(),
        other => format!("{other:?}"),
    }
}

#[test]
fn connect_version_must_be_4_or_5() {
    assert!(check_connect_version(4).is_ok());
    assert!(check_connect_version(5).is_ok());
    let rej = check_connect_version(3).unwrap_err();
    assert_eq!(rej.reason_code, ReasonCode::UnsupportedProtocolVersion);
    assert_eq!(message(&rej.error), "Unsupported protocol version");
}

#[test]
fn empty_client_id_gets_generated_one() {
    assert_eq!(assign_client_id("", 7), ("wasi-auto-7".to_owned(), Some("wasi-auto-7".to_owned())));
    assert_eq!(assign_client_id("", 1234567), ("wasi-auto-1234567".to_owned(), Some("wasi-auto-1234567".to_owned())));
    assert_eq!(assign_client_id("dev-1", 7), ("dev-1".to_owned(), None));
}

#[test]
fn will_checked_against_broker_capabilities() {
    assert!(validate_will_capabilities(None, 0, false).is_ok());
    let q2 = WillSummary { qos: QoS::ExactlyOnce, retain: false };
    let rej = validate_will_capabilities(Some(q2), 1, true).unwrap_err();
    assert_eq!(rej.reason_code, ReasonCode::QoSNotSupported);
    assert_eq!(message(&rej.error), "Will QoS exceeds server maximum");
    let retained = WillSummary { qos: QoS::AtMostOnce, retain: true };
    let rej = validate_will_capabilities(Some(retained), 2, false).unwrap_err();
    assert_eq!(rej.reason_code, ReasonCode::RetainNotSupported);
    assert_eq!(message(&rej.error), "Retain not supported");
    assert!(validate_will_capabilities(Some(retained), 2, true).is_ok());
}

#[test]
fn connack_capabilities_saturate_and_hide_full_qos() {
    let limits = BrokerLimits {
        session_expiry_secs: 10_000_000_000,
        maximum_qos: 2,
        retain_available: true,
        max_packet_size: 1 << 20,
        topic_alias_maximum: 10,
        wildcard_subscription_available: true,
        subscription_identifier_available: false,
        shared_subscription_available: true,
    };
    let c = server_capability_properties(&limits);
    assert_eq!(c.session_expiry_interval, u32::MAX);
    assert_eq!(c.maximum_qos, None);
    assert_eq!(c.maximum_packet_size, 1 << 20);
    assert_eq!(c.topic_alias_maximum, 10);
    assert!(!c.subscription_identifier_available);
    let c1 = server_capability_properties(&BrokerLimits { maximum_qos: 1, session_expiry_secs: 3600, ..limits });
    assert_eq!(c1.maximum_qos, Some(1));
    assert_eq!(c1.session_expiry_interval, 3600);
}

#[test]
fn disconnect_with_will_keeps_will() {
    assert!(!is_normal_disconnect(ReasonCode::DisconnectWithWillMessage));
    assert!(is_normal_disconnect(ReasonCode::Success));
    assert!(is_normal_disconnect(ReasonCode::ProtocolError));
}

#[test]
fn session_plan_follows_clean_start() {
    assert_eq!(plan_session(true, true), SessionPlan::DiscardAndCreate);
    assert_eq!(plan_session(false, true), SessionPlan::Resume);
    assert_eq!(plan_session(false, false), SessionPlan::Create);
    assert!(session_persists(None));
    assert!(session_persists(Some(30)));
    assert!(!session_persists(Some(0)));
}

#[test]
fn session_owner_must_match() {
    assert!(check_session_owner(None, None).is_ok());
    assert!(check_session_owner(Some("alice"), Some("alice")).is_ok());
    let rej = check_session_owner(Some("alice"), Some("bob")).unwrap_err();
    assert_eq!(rej.reason_code, ReasonCode::NotAuthorized);
    assert!(matches!(rej.error, MqttError::AuthenticationFailed));
    assert!(check_session_owner(Some("alice"), None).is_err());
}

#[test]
fn will_delay_postpones_publication() {
    assert_eq!(will_timing(None), WillTiming::Immediate);
    assert_eq!(will_timing(Some(0)), WillTiming::Immediate);
    assert_eq!(will_timing(Some(5)), WillTiming::Delayed(5));
}

#[test]
fn continue_auth_requires_flow_and_matching_method() {
    let rej = check_continue_auth(AuthState::NotStarted, Some("SCRAM"), Some("SCRAM")).unwrap_err();
    assert!(rej.send_protocol_error_disconnect);
    assert_eq!(message(&rej.error), "AUTH received outside of auth flow");
    let rej = check_continue_auth(AuthState::InProgress, None, Some("SCRAM")).unwrap_err();
    assert!(!rej.send_protocol_error_disconnect);
    assert_eq!(message(&rej.error), "No auth method set");
    let rej = check_continue_auth(AuthState::InProgress, Some("SCRAM"), Some("OTHER")).unwrap_err();
    assert!(rej.send_protocol_error_disconnect);
    assert_eq!(message(&rej.error), "AUTH method mismatch");
    assert!(check_continue_auth(AuthState::InProgress, Some("SCRAM"), None).is_err());
    assert!(check_continue_auth(AuthState::InProgress, Some(""), None).is_ok());
    assert!(check_continue_auth(AuthState::InProgress, Some("SCRAM"), Some("SCRAM")).is_ok());
}

#[test]
fn reauth_requires_completed_auth_and_method() {
    let rej = check_reauth(AuthState::InProgress, Some("SCRAM")).unwrap_err();
    assert_eq!(message(&rej.error), "Re-auth before initial auth");
    let rej = check_reauth(AuthState::Completed, None).unwrap_err();
    assert_eq!(message(&rej.error), "Re-auth missing method");
    assert!(check_reauth(AuthState::Completed, Some("SCRAM")).is_ok());
}

#[test]
fn enhanced_auth_steps() {
    assert_eq!(
        connect_auth_step(EnhancedAuthStatus::Success, AuthState::InProgress, ReasonCode::NotAuthorized),
        (AuthState::Completed, AuthReply::ConnAck(ReasonCode::Success))
    );
    assert_eq!(
        connect_auth_step(EnhancedAuthStatus::Continue, AuthState::InProgress, ReasonCode::NotAuthorized),
        (AuthState::InProgress, AuthReply::Auth(ReasonCode::ContinueAuthentication))
    );
    assert_eq!(
        connect_auth_step(EnhancedAuthStatus::Failed, AuthState::InProgress, ReasonCode::BadAuthenticationMethod),
        (AuthState::NotStarted, AuthReply::ConnAck(ReasonCode::BadAuthenticationMethod))
    );
    assert_eq!(reauth_reply(EnhancedAuthStatus::Success, ReasonCode::NotAuthorized), AuthReply::Auth(ReasonCode::Success));
    assert_eq!(reauth_reply(EnhancedAuthStatus::Failed, ReasonCode::NotAuthorized), AuthReply::Disconnect(ReasonCode::NotAuthorized));
}

#[test]
fn refused_publish_answered_by_its_qos() {
    assert_eq!(publish_rejection(false, QoS::AtMostOnce, 2), Some(ReasonCode::NotAuthorized));
    assert_eq!(publish_rejection(true, QoS::ExactlyOnce, 1), Some(ReasonCode::QoSNotSupported));
    assert_eq!(publish_rejection(true, QoS::AtLeastOnce, 1), None);
    assert_eq!(
        reject_publish_reply(QoS::AtLeastOnce, Some(3), ReasonCode::QuotaExceeded),
        Some(Ack { kind: AckKind::PubAck, packet_id: 3, reason_code: ReasonCode::QuotaExceeded })
    );
    assert_eq!(
        reject_publish_reply(QoS::ExactlyOnce, Some(3), ReasonCode::NotAuthorized),
        Some(Ack { kind: AckKind::PubRec, packet_id: 3, reason_code: ReasonCode::NotAuthorized })
    );
    assert_eq!(reject_publish_reply(QoS::AtMostOnce, Some(3), ReasonCode::NotAuthorized), None);
    assert_eq!(reject_publish_reply(QoS::AtLeastOnce, None, ReasonCode::NotAuthorized), None);
}

#[test]
fn granted_qos_lowered_to_maximum() {
    assert_eq!(resolve_granted_qos(QoS::ExactlyOnce, 1), QoS::AtLeastOnce);
    assert_eq!(resolve_granted_qos(QoS::ExactlyOnce, 0), QoS::AtMostOnce);
    assert_eq!(resolve_granted_qos(QoS::AtLeastOnce, 2), QoS::AtLeastOnce);
    assert_eq!(suback_code_for(QoS::ExactlyOnce), SubAckCode::GrantedQoS2);
    assert_eq!(SubAckCode::GrantedQoS0.granted_qos(), Some(QoS::AtMostOnce));
    assert_eq!(SubAckCode::NotAuthorized.granted_qos(), None);
}

#[test]
fn subscribe_filters_screened() {
    assert_eq!(check_subscribe_filter("$share/g/a", true, true, Some("g")), FilterCheck::ProtocolError);
    assert_eq!(check_subscribe_filter("a/#/b", false, false, None), FilterCheck::Invalid);
    assert_eq!(check_subscribe_filter("$share/g+/a", false, true, Some("g+")), FilterCheck::Invalid);
    assert_eq!(check_subscribe_filter("$share/g#/a", false, true, Some("g#")), FilterCheck::Invalid);
    assert_eq!(check_subscribe_filter("$share/a", false, true, None), FilterCheck::Invalid);
    assert_eq!(check_subscribe_filter("$share/g/a", false, true, Some("g")), FilterCheck::Proceed);
    assert_eq!(check_subscribe_filter("a/b", true, true, None), FilterCheck::Proceed);
}

#[test]
fn unsuback_codes_follow_removals() {
    assert_eq!(
        unsuback_reason_codes(&[true, false, true]),
        vec![ReasonCode::Success, ReasonCode::NoSubscriptionExisted, ReasonCode::Success]
    );
    assert!(unsuback_reason_codes(&[]).is_empty());
}

#[test]
fn broker_routes_qos2_once_on_pubrel() {
    let mut q = BrokerQos::new();
    let out = q.accept_publish(QoS::ExactlyOnce, Some(5), "p", false);
    assert_eq!(out.deliver, None);
    assert_eq!(out.reply, Some(Ack { kind: AckKind::PubRec, packet_id: 5, reason_code: ReasonCode::Success }));
    let (comp, route) = q.release(5);
    assert_eq!(comp, Ack { kind: AckKind::PubComp, packet_id: 5, reason_code: ReasonCode::Success });
    assert_eq!(route, Some("p"));
    let (comp, route) = q.release(5);
    assert_eq!(comp.reason_code, ReasonCode::PacketIdentifierNotFound);
    assert_eq!(route, None);
}

#[test]
fn handled_publish_completes_without_routing() {
    let mut q = BrokerQos::new();
    let out = q.accept_publish(QoS::ExactlyOnce, Some(8), "p", true);
    assert_eq!(out.deliver, None);
    let (comp, route) = q.release(8);
    assert_eq!(comp.reason_code, ReasonCode::Success);
    assert_eq!(route, None);
    let out1 = q.accept_publish(QoS::AtLeastOnce, Some(9), "q", true);
    assert_eq!(out1.deliver, None);
    assert_eq!(out1.reply.unwrap().kind, AckKind::PubAck);
    let out0 = q.accept_publish(QoS::AtMostOnce, None, "r", false);
    assert_eq!(out0.deliver, Some("r"));
    assert_eq!(out0.reply, None);
}

#[test]
fn forwarded_ids_and_advance_past_inflight() {
    let mut q: BrokerQos<&str> = BrokerQos::new();
    assert_eq!(q.assign_forward_id(QoS::AtMostOnce), None);
    assert_eq!(q.assign_forward_id(QoS::ExactlyOnce), Some(1));
    q.track_outbound(2, "a");
    q.restore_inflight(InflightDirection::Inbound, InflightPhase::AwaitingPubrel, 3, "b");
    q.advance_packet_id_past_inflight();
    assert_eq!(q.assign_forward_id(QoS::AtLeastOnce), Some(4));
    q.complete_outbound(2);
    assert_eq!(q.answer_pubrec(2), Ack { kind: AckKind::PubRel, packet_id: 2, reason_code: ReasonCode::Success });
}

#[test]
fn advance_wraps_past_the_highest_id() {
    let mut q: BrokerQos<u8> = BrokerQos::new();
    for _ in 0..65534 {
        q.assign_forward_id(QoS::AtLeastOnce);
    }
    assert_eq!(q.assign_forward_id(QoS::AtLeastOnce), Some(65535));
    q.track_outbound(1, 0);
    q.track_outbound(2, 0);
    q.advance_packet_id_past_inflight();
    assert_eq!(q.assign_forward_id(QoS::AtLeastOnce), Some(3));
}

#[test]
fn restored_inflight_messages_resent_by_phase() {
    let mut q = BrokerQos::new();
    assert_eq!(q.restore_inflight(InflightDirection::Outbound, InflightPhase::AwaitingPubrec, 1, "a"), RestoreAction::ResendPublish);
    assert_eq!(
        q.restore_inflight(InflightDirection::Outbound, InflightPhase::AwaitingPubcomp, 2, "b"),
        RestoreAction::SendPubRel(Ack { kind: AckKind::PubRel, packet_id: 2, reason_code: ReasonCode::Success })
    );
    assert_eq!(q.restore_inflight(InflightDirection::Outbound, InflightPhase::AwaitingPubrel, 3, "c"), RestoreAction::Nothing);
    assert_eq!(q.restore_inflight(InflightDirection::Inbound, InflightPhase::AwaitingPubrel, 4, "d"), RestoreAction::Nothing);
    assert_eq!(q.release(4).1, Some("d"));
}

fn filter(f: &str, no_local: bool, valid: bool, group: Option<&str>, authorized: bool) -> FilterRequest {
    FilterRequest {
        filter: f.to_owned(),
        no_local,
        requested_qos: QoS::ExactlyOnce,
        underlying_valid: valid,
        share_group: group.map(str::to_owned),
        authorized,
    }
}

#[test]
fn suback_codes_built_per_filter_in_order() {
    let filters = [
        filter("a/b", false, true, None, true),
        filter("a/#/b", false, false, None, true),
        filter("$share/g+/x", false, true, Some("g+"), true),
        filter("c", false, true, None, false),
    ];
    assert_eq!(
        subscribe_reason_codes(&filters, 1).unwrap(),
        vec![
            SubAckCode::GrantedQoS1,
            SubAckCode::TopicFilterInvalid,
            SubAckCode::TopicFilterInvalid,
            SubAckCode::NotAuthorized
        ]
    );
    let bad = [filter("a", false, true, None, true), filter("$share/g/a", true, true, Some("g"), true)];
    let e = subscribe_reason_codes(&bad, 2).unwrap_err();
    assert_eq!(message(&e), "NoLocal on shared subscription");
    assert!(subscribe_reason_codes(&[], 2).unwrap().is_empty());
}

#[test]
fn connect_preflight_checks_version_then_redirect() {
    assert!(check_connect_preflight(5, None).is_ok());
    let rej = check_connect_preflight(3, Some("b:1883")).unwrap_err();
    assert_eq!(rej.reason_code, ReasonCode::UnsupportedProtocolVersion);
    let rej = check_connect_preflight(4, Some("backend-2:1883")).unwrap_err();
    assert_eq!(rej.reason_code, ReasonCode::UseAnotherServer);
    assert!(matches!(rej.error, MqttError::UseAnotherServer));
    assert_eq!(rej.server_reference.as_deref(), Some("backend-2:1883"));
}

#[test]
fn connect_auth_route_and_plain_checks() {
    let rej = route_connect_auth(5, "a/../b", false, true, true).unwrap_err();
    assert_eq!(rej.reason_code, ReasonCode::ClientIdentifierNotValid);
    assert!(matches!(rej.error, MqttError::InvalidClientId(ref id) if id == "a/../b"));
    assert_eq!(route_connect_auth(5, "ok", true, true, true).unwrap(), AuthRoute::Enhanced);
    assert_eq!(route_connect_auth(4, "ok", true, true, true).unwrap(), AuthRoute::Plain);
    assert_eq!(route_connect_auth(5, "ok", true, true, false).unwrap(), AuthRoute::Plain);
    let rej = check_plain_connect(false, ReasonCode::BadUsernameOrPassword, None, 2, true).unwrap_err();
    assert_eq!(rej.reason_code, ReasonCode::BadUsernameOrPassword);
    assert!(matches!(rej.error, MqttError::AuthenticationFailed));
    let will = WillSummary { qos: QoS::ExactlyOnce, retain: false };
    assert_eq!(check_plain_connect(true, ReasonCode::Success, Some(will), 1, true).unwrap_err().reason_code, ReasonCode::QoSNotSupported);
    assert!(check_plain_connect(true, ReasonCode::Success, Some(will), 2, true).is_ok());
}
