use mqtt_lib::capabilities::{Capabilities, EnhancedAuthSupport, Requirement, TransportSupport};

#[test]
fn default_capabilities_are_permissive() {
    let caps = Capabilities::default();
    assert_eq!(caps.max_qos, 2);
    assert!(caps.retain_available);
    assert!(caps.transports.tcp);
    assert!(!caps.transports.quic);
}

#[test]
fn min_qos_requirement_matches_when_supported() {
    let qos2 = Capabilities {
        max_qos: 2,
        ..Capabilities::default()
    };
    assert!(Requirement::MinQos(1).matches(&qos2));
    assert!(Requirement::MinQos(2).matches(&qos2));
    let qos0 = Capabilities {
        max_qos: 0,
        ..Capabilities::default()
    };
    assert!(!Requirement::MinQos(1).matches(&qos0));
}

#[test]
fn transport_requirement_matches_declared_transport() {
    let ws_on = Capabilities {
        transports: TransportSupport {
            websocket: true,
            ..TransportSupport::default()
        },
        ..Capabilities::default()
    };
    assert!(Requirement::TransportWebSocket.matches(&ws_on));
    let ws_off = Capabilities::default();
    assert!(!Requirement::TransportWebSocket.matches(&ws_off));
}

#[test]
fn enhanced_auth_requirement_matches_declared_method() {
    let caps = Capabilities {
        enhanced_auth: EnhancedAuthSupport {
            methods: vec!["CHALLENGE-RESPONSE".to_owned()],
        },
        ..Capabilities::default()
    };
    assert!(Requirement::EnhancedAuthMethod("CHALLENGE-RESPONSE").matches(&caps));
    assert!(!Requirement::EnhancedAuthMethod("SCRAM-SHA-256").matches(&caps));
}

#[test]
fn requirement_label_is_stable() {
    assert_eq!(Requirement::TransportTcp.label(), "transport.tcp");
    assert_eq!(Requirement::MinQos(2).label(), "max_qos >= 2");
    assert_eq!(Requirement::EnhancedAuthMethod("CR").label(), "enhanced_auth.CR");
}

#[test]
fn from_spec_parses_all_variants() {
    assert_eq!(Requirement::from_spec("transport.tcp").unwrap(), Requirement::TransportTcp);
    assert_eq!(Requirement::from_spec("max_qos>=2").unwrap(), Requirement::MinQos(2));
    assert_eq!(
        Requirement::from_spec("enhanced_auth.CHALLENGE-RESPONSE").unwrap(),
        Requirement::EnhancedAuthMethod("CHALLENGE-RESPONSE")
    );
    assert_eq!(
        Requirement::from_spec("shared_subscription_available").unwrap(),
        Requirement::SharedSubscriptionAvailable
    );
    assert_eq!(Requirement::from_spec("acl").unwrap(), Requirement::Acl);
    assert!(Requirement::from_spec("unknown").is_err());
}

#[test]
fn from_spec_rejects_out_of_range_qos() {
    assert_eq!(Requirement::from_spec("max_qos>=3"), Err("max_qos>=3"));
    assert_eq!(Requirement::from_spec("max_qos>=0").unwrap(), Requirement::MinQos(0));
    assert_eq!(Requirement::from_spec("enhanced_auth."), Ok(Requirement::EnhancedAuthMethod("")));
}

#[test]
fn label_and_from_spec_agree_on_transports() {
    for r in [Requirement::TransportTcp, Requirement::TransportTls, Requirement::TransportWebSocket] {
        let label = r.label();
        let leaked: &'static str = Box::leak(label.into_boxed_str());
        assert_eq!(Requirement::from_spec(leaked).unwrap(), r);
    }
}

#[test]
fn labels_of_distinct_requirements_differ() {
    let all = [
        Requirement::TransportTcp,
        Requirement::TransportTls,
        Requirement::TransportWebSocket,
        Requirement::TransportQuic,
        Requirement::MinQos(0),
        Requirement::MinQos(1),
        Requirement::MinQos(10),
        Requirement::RetainAvailable,
        Requirement::WildcardSubscriptionAvailable,
        Requirement::SubscriptionIdentifierAvailable,
        Requirement::SharedSubscriptionAvailable,
        Requirement::EnhancedAuthMethod("A"),
        Requirement::EnhancedAuthMethod("B"),
        Requirement::HookRestart,
        Requirement::HookCleanup,
        Requirement::Acl,
        Requirement::StrictClientIdCharset,
        Requirement::DollarSysPublish,
    ];
    for (i, a) in all.iter().enumerate() {
        for (j, b) in all.iter().enumerate() {
            assert_eq!(i == j, a.label() == b.label());
        }
    }
}
