use mqtt_lib::capabilities::{Capabilities, Requirement};
use mqtt_lib::skip::{
    first_unmet_requirement, plan_trial, skip_if_missing, trial_name, ConformanceTest, SkipReason,
};
use mqtt_lib::sut::{SutDescriptor, SutHandle};

fn external_sut(caps: Capabilities) -> SutHandle {
    SutHandle::External(Box::new(SutDescriptor {
        capabilities: caps,
        ..SutDescriptor::default()
    }))
}

#[test]
fn skip_returns_ok_when_all_requirements_met() {
    let caps = Capabilities::default();
    let sut = external_sut(caps);
    assert!(skip_if_missing(&sut, &[Requirement::MinQos(1)]).is_ok());
}

#[test]
fn skip_returns_reason_when_requirement_missing() {
    let caps = Capabilities {
        max_qos: 0,
        ..Capabilities::default()
    };
    let sut = external_sut(caps);
    let err = skip_if_missing(&sut, &[Requirement::MinQos(1)]).unwrap_err();
    assert_eq!(err.requirement, Requirement::MinQos(1));
    assert!(err.message.contains("max_qos >= 1"));
}

#[test]
fn skip_returns_first_unmet_requirement() {
    let caps = Capabilities {
        shared_subscription_available: false,
        ..Capabilities::default()
    };
    let sut = external_sut(caps);
    let err = skip_if_missing(
        &sut,
        &[
            Requirement::TransportTcp,
            Requirement::TransportTls,
            Requirement::SharedSubscriptionAvailable,
        ],
    )
    .unwrap_err();
    assert_eq!(err.requirement, Requirement::TransportTls);
}

#[test]
fn skip_reason_is_display() {
    let reason = SkipReason {
        requirement: Requirement::Acl,
        message: "SUT does not satisfy required capability `acl`".to_owned(),
    };
    assert_eq!(
        reason.to_string(),
        "SUT does not satisfy required capability `acl`"
    );
}

#[test]
fn skip_message_names_the_unmet_label() {
    let caps = Capabilities {
        acl: false,
        ..Capabilities::default()
    };
    let sut = external_sut(caps);
    let err = skip_if_missing(&sut, &[Requirement::Acl]).unwrap_err();
    assert_eq!(err.to_string(), "SUT does not satisfy required capability `acl`");
    assert!(skip_if_missing(&sut, &[]).is_ok());
}

#[test]
fn first_unmet_requirement_scans_in_order() {
    let caps = Capabilities::default();
    assert_eq!(first_unmet_requirement(&caps, &[Requirement::TransportTcp]), None);
    assert_eq!(
        first_unmet_requirement(&caps, &[Requirement::TransportTcp, Requirement::TransportQuic, Requirement::TransportTls]),
        Some(Requirement::TransportQuic)
    );
}

static REQS: [Requirement; 0] = [];
static IDS: [&str; 2] = ["MQTT-3.1.0-1", "MQTT-3.1.0-2"];

#[test]
fn trial_name_appends_first_statement_id() {
    let test = ConformanceTest {
        name: "connect_first_packet_must_be_connect",
        module: "section3_connect",
        file: "section3_connect.rs",
        line: 10,
        ids: &IDS,
        requires: &REQS,
    };
    assert_eq!(trial_name(&test), "section3_connect::connect_first_packet_must_be_connect [MQTT-3.1.0-1]");
    let bare = ConformanceTest { ids: &[], ..test };
    assert_eq!(trial_name(&bare), "section3_connect::connect_first_packet_must_be_connect");
}

static NEEDS_QUIC: [Requirement; 2] = [Requirement::TransportTcp, Requirement::TransportQuic];

#[test]
fn plan_trial_marks_unmet_tests_ignored() {
    let test = ConformanceTest {
        name: "quic_flow",
        module: "section_quic",
        file: "section_quic.rs",
        line: 1,
        ids: &IDS,
        requires: &NEEDS_QUIC,
    };
    let caps = Capabilities::default();
    let plan = plan_trial(&test, &caps);
    assert!(plan.ignored);
    assert_eq!(plan.name, "section_quic::quic_flow [MQTT-3.1.0-1] [missing: transport.quic]");
    let runnable = ConformanceTest { requires: &REQS, ..test };
    let plan = plan_trial(&runnable, &caps);
    assert!(!plan.ignored);
    assert_eq!(plan.name, "section_quic::quic_flow [MQTT-3.1.0-1]");
}
