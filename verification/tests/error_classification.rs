use mqtt_lib::error_classification::{
    classify_connection_error, classify_connection_refused, is_aws_iot_limit_error, MqttError,
    ReasonCode, RecoverableError,
};

#[test]
fn test_connection_error_classification() {
    let error = MqttError::ConnectionError("Connection refused".to_string());
    assert_eq!(error.classify(), Some(RecoverableError::NetworkError));

    let error = MqttError::ConnectionError("Network is unreachable".to_string());
    assert_eq!(error.classify(), Some(RecoverableError::NetworkError));

    let error = MqttError::ConnectionError("temporarily unavailable".to_string());
    assert_eq!(error.classify(), Some(RecoverableError::NetworkError));
}

#[test]
fn test_aws_iot_limit_not_recoverable() {
    let error = MqttError::ConnectionError("Connection reset by peer".to_string());
    assert_eq!(error.classify(), None);
    assert!(error.is_aws_iot_connection_limit());

    let error = MqttError::ConnectionError("TCP RST received".to_string());
    assert_eq!(error.classify(), None);
    assert!(error.is_aws_iot_connection_limit());

    let error = MqttError::ConnectionError("client limit exceeded".to_string());
    assert_eq!(error.classify(), None);
    assert!(error.is_aws_iot_connection_limit());
}

#[test]
fn test_connection_refused_classification() {
    let error = MqttError::ConnectionRefused(ReasonCode::ServerUnavailable);
    assert_eq!(error.classify(), Some(RecoverableError::ServerUnavailable));

    let error = MqttError::ConnectionRefused(ReasonCode::QuotaExceeded);
    assert_eq!(error.classify(), Some(RecoverableError::QuotaExceeded));

    let error = MqttError::ConnectionRefused(ReasonCode::SessionTakenOver);
    assert_eq!(error.classify(), Some(RecoverableError::SessionTakenOver));

    let error = MqttError::ConnectionRefused(ReasonCode::BadUsernameOrPassword);
    assert_eq!(error.classify(), None);
}

#[test]
fn test_mqoq_classification() {
    let error = MqttError::ConnectionRefused(ReasonCode::MqoqIncompletePacket);
    assert_eq!(error.classify(), Some(RecoverableError::MqoqFlowRecoverable));

    let error = MqttError::ConnectionRefused(ReasonCode::MqoqFlowOpenIdle);
    assert_eq!(error.classify(), Some(RecoverableError::MqoqFlowRecoverable));

    let error = MqttError::ConnectionRefused(ReasonCode::MqoqFlowCancelled);
    assert_eq!(error.classify(), Some(RecoverableError::MqoqFlowRecoverable));

    let error = MqttError::ConnectionRefused(ReasonCode::MqoqNoFlowState);
    assert_eq!(error.classify(), None);
}

#[test]
fn test_direct_error_classification() {
    assert_eq!(MqttError::PacketIdExhausted.classify(), Some(RecoverableError::PacketIdExhausted));
    assert_eq!(MqttError::FlowControlExceeded.classify(), Some(RecoverableError::FlowControlLimited));
    assert_eq!(MqttError::Timeout.classify(), Some(RecoverableError::NetworkError));
    assert_eq!(MqttError::ServerUnavailable.classify(), Some(RecoverableError::ServerUnavailable));
    assert_eq!(MqttError::ServerBusy.classify(), Some(RecoverableError::ServerUnavailable));
    assert_eq!(MqttError::QuotaExceeded.classify(), Some(RecoverableError::QuotaExceeded));
    assert_eq!(MqttError::ServerShuttingDown.classify(), Some(RecoverableError::ServerShuttingDown));
}

#[test]
fn test_non_recoverable_errors() {
    assert_eq!(MqttError::NotConnected.classify(), None);
    assert_eq!(MqttError::AlreadyConnected.classify(), None);
    assert_eq!(MqttError::AuthenticationFailed.classify(), None);
    assert_eq!(MqttError::NotAuthorized.classify(), None);
    assert_eq!(MqttError::BadUsernameOrPassword.classify(), None);
    assert_eq!(MqttError::ProtocolError("test".to_string()).classify(), None);
}

#[test]
fn test_base_delay_multiplier() {
    assert_eq!(RecoverableError::NetworkError.base_delay_multiplier(), 1);
    assert_eq!(RecoverableError::ServerUnavailable.base_delay_multiplier(), 1);
    assert_eq!(RecoverableError::QuotaExceeded.base_delay_multiplier(), 10);
    assert_eq!(RecoverableError::FlowControlLimited.base_delay_multiplier(), 2);
    assert_eq!(RecoverableError::MqoqFlowRecoverable.base_delay_multiplier(), 3);
}

#[test]
fn test_default_set() {
    let defaults = RecoverableError::default_set();
    assert_eq!(defaults.len(), 6);
    assert!(defaults.contains(&RecoverableError::NetworkError));
    assert!(defaults.contains(&RecoverableError::ServerUnavailable));
    assert!(defaults.contains(&RecoverableError::QuotaExceeded));
    assert!(defaults.contains(&RecoverableError::PacketIdExhausted));
    assert!(defaults.contains(&RecoverableError::FlowControlLimited));
    assert!(defaults.contains(&RecoverableError::MqoqFlowRecoverable));
    assert!(!defaults.contains(&RecoverableError::SessionTakenOver));
    assert!(!defaults.contains(&RecoverableError::ServerShuttingDown));
}

#[test]
fn aws_limit_error_is_never_classified_recoverable() {
    for msg in ["connection reset by peer", "Connection refused and reset by peer", "x client limit exceeded y"] {
        let error = MqttError::ConnectionError(msg.to_string());
        if is_aws_iot_limit_error(msg) {
            assert_eq!(error.classify(), None);
        }
    }
    assert!(is_aws_iot_limit_error("TCP RST"));
    assert!(!is_aws_iot_limit_error("timed out"));
}

#[test]
fn free_classifiers_match_method() {
    assert_eq!(classify_connection_error("Connection refused"), Some(RecoverableError::NetworkError));
    assert_eq!(classify_connection_error("something else"), None);
    assert_eq!(classify_connection_refused(ReasonCode::ServerBusy), Some(RecoverableError::ServerUnavailable));
    assert_eq!(classify_connection_refused(ReasonCode::NotAuthorized), None);
}

#[test]
fn every_delay_multiplier_is_positive() {
    for k in [
        RecoverableError::NetworkError,
        RecoverableError::ServerUnavailable,
        RecoverableError::QuotaExceeded,
        RecoverableError::PacketIdExhausted,
        RecoverableError::FlowControlLimited,
        RecoverableError::SessionTakenOver,
        RecoverableError::ServerShuttingDown,
        RecoverableError::MqoqFlowRecoverable,
    ] {
        assert!(k.base_delay_multiplier() >= 1);
    }
}
