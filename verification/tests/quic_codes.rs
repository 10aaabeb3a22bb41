use mqtt_lib::quic_codes::{QuicConnectionCode, QuicStreamCode};

#[test]
fn test_connection_code_round_trip() {
    let codes = [
        QuicConnectionCode::NoError,
        QuicConnectionCode::TlsError,
        QuicConnectionCode::Unspecified,
        QuicConnectionCode::TooManyRecoverAttempts,
        QuicConnectionCode::ProtocolLevel0,
    ];
    for code in codes {
        let value = code.code();
        let parsed = QuicConnectionCode::from_code(value);
        assert_eq!(parsed, Some(code), "round-trip failed for {}", code.to_string());
    }
}

#[test]
fn test_connection_code_values() {
    assert_eq!(QuicConnectionCode::NoError.code(), 0x00);
    assert_eq!(QuicConnectionCode::TlsError.code(), 0xB1);
    assert_eq!(QuicConnectionCode::Unspecified.code(), 0xB2);
    assert_eq!(QuicConnectionCode::TooManyRecoverAttempts.code(), 0xB3);
    assert_eq!(QuicConnectionCode::ProtocolLevel0.code(), 0xB4);
}

#[test]
fn test_connection_code_unknown() {
    assert_eq!(QuicConnectionCode::from_code(0xFF), None);
    assert_eq!(QuicConnectionCode::from_code(0xB5), None);
}

#[test]
fn test_stream_code_round_trip() {
    let codes = [
        QuicStreamCode::NoError,
        QuicStreamCode::NoFlowState,
        QuicStreamCode::NotFlowOwner,
        QuicStreamCode::StreamType,
        QuicStreamCode::BadFlowId,
        QuicStreamCode::PersistentTopic,
        QuicStreamCode::PersistentSub,
        QuicStreamCode::OptionalHeader,
        QuicStreamCode::IncompletePacket,
        QuicStreamCode::FlowOpenIdle,
        QuicStreamCode::FlowCancelled,
        QuicStreamCode::FlowPacketCancelled,
        QuicStreamCode::FlowRefused,
        QuicStreamCode::DiscardState,
        QuicStreamCode::ServerPushNotWelcome,
        QuicStreamCode::RecoveryFailed,
    ];
    for code in codes {
        let value = code.code();
        let parsed = QuicStreamCode::from_code(value);
        assert_eq!(parsed, Some(code), "round-trip failed for {}", code.to_string());
    }
}

#[test]
fn test_stream_code_values() {
    assert_eq!(QuicStreamCode::NoError.code(), 0x00);
    assert_eq!(QuicStreamCode::NoFlowState.code(), 0xB3);
    assert_eq!(QuicStreamCode::NotFlowOwner.code(), 0xB4);
    assert_eq!(QuicStreamCode::StreamType.code(), 0xB5);
    assert_eq!(QuicStreamCode::BadFlowId.code(), 0xB6);
    assert_eq!(QuicStreamCode::PersistentTopic.code(), 0xB7);
    assert_eq!(QuicStreamCode::PersistentSub.code(), 0xB8);
    assert_eq!(QuicStreamCode::OptionalHeader.code(), 0xB9);
    assert_eq!(QuicStreamCode::IncompletePacket.code(), 0xBA);
    assert_eq!(QuicStreamCode::FlowOpenIdle.code(), 0xBB);
    assert_eq!(QuicStreamCode::FlowCancelled.code(), 0xBC);
    assert_eq!(QuicStreamCode::FlowPacketCancelled.code(), 0xBD);
    assert_eq!(QuicStreamCode::FlowRefused.code(), 0xBE);
    assert_eq!(QuicStreamCode::DiscardState.code(), 0xBF);
    assert_eq!(QuicStreamCode::ServerPushNotWelcome.code(), 0xC0);
    assert_eq!(QuicStreamCode::RecoveryFailed.code(), 0xC1);
}

#[test]
fn test_stream_code_unknown() {
    assert_eq!(QuicStreamCode::from_code(0xFF), None);
    assert_eq!(QuicStreamCode::from_code(0xB1), None);
}

#[test]
fn test_stream_error_levels() {
    assert_eq!(QuicStreamCode::NoError.error_level(), None);
    assert_eq!(QuicStreamCode::NoFlowState.error_level(), Some(0));
    assert_eq!(QuicStreamCode::NotFlowOwner.error_level(), Some(0));
    assert_eq!(QuicStreamCode::StreamType.error_level(), Some(1));
    assert_eq!(QuicStreamCode::BadFlowId.error_level(), Some(1));
    assert_eq!(QuicStreamCode::PersistentTopic.error_level(), Some(1));
    assert_eq!(QuicStreamCode::PersistentSub.error_level(), Some(1));
    assert_eq!(QuicStreamCode::OptionalHeader.error_level(), Some(1));
    assert_eq!(QuicStreamCode::DiscardState.error_level(), Some(1));
    assert_eq!(QuicStreamCode::ServerPushNotWelcome.error_level(), Some(1));
    assert_eq!(QuicStreamCode::RecoveryFailed.error_level(), Some(1));
    assert_eq!(QuicStreamCode::IncompletePacket.error_level(), Some(2));
    assert_eq!(QuicStreamCode::FlowOpenIdle.error_level(), Some(2));
    assert_eq!(QuicStreamCode::FlowCancelled.error_level(), Some(2));
    assert_eq!(QuicStreamCode::FlowPacketCancelled.error_level(), Some(2));
    assert_eq!(QuicStreamCode::FlowRefused.error_level(), Some(2));
}

#[test]
fn test_stream_should_discard_state() {
    assert!(!QuicStreamCode::NoError.should_discard_state());
    assert!(!QuicStreamCode::NoFlowState.should_discard_state());
    assert!(!QuicStreamCode::NotFlowOwner.should_discard_state());
    assert!(!QuicStreamCode::StreamType.should_discard_state());
    assert!(QuicStreamCode::BadFlowId.should_discard_state());
    assert!(!QuicStreamCode::PersistentTopic.should_discard_state());
    assert!(QuicStreamCode::PersistentSub.should_discard_state());
    assert!(QuicStreamCode::OptionalHeader.should_discard_state());
    assert!(!QuicStreamCode::IncompletePacket.should_discard_state());
    assert!(!QuicStreamCode::FlowOpenIdle.should_discard_state());
    assert!(QuicStreamCode::FlowCancelled.should_discard_state());
    assert!(!QuicStreamCode::FlowPacketCancelled.should_discard_state());
    assert!(!QuicStreamCode::FlowRefused.should_discard_state());
    assert!(QuicStreamCode::DiscardState.should_discard_state());
    assert!(QuicStreamCode::ServerPushNotWelcome.should_discard_state());
    assert!(QuicStreamCode::RecoveryFailed.should_discard_state());
}

#[test]
fn test_connection_code_display() {
    assert_eq!(QuicConnectionCode::NoError.to_string(), "NO_ERROR");
    assert_eq!(QuicConnectionCode::TlsError.to_string(), "ERROR_TLS_ERROR");
    assert_eq!(QuicConnectionCode::Unspecified.to_string(), "ERROR_UNSPECIFIED");
    assert_eq!(
        QuicConnectionCode::TooManyRecoverAttempts.to_string(),
        "ERROR_TOO_MANY_RECOVER_ATTEMPTS"
    );
    assert_eq!(QuicConnectionCode::ProtocolLevel0.to_string(), "ERROR_PROTOCOL_L0");
}

#[test]
fn test_stream_code_display() {
    assert_eq!(QuicStreamCode::NoFlowState.to_string(), "ERROR_NO_FLOW_STATE");
    assert_eq!(QuicStreamCode::RecoveryFailed.to_string(), "ERROR_RECOVERY_FAILED");
}

#[test]
fn test_namespace_overlap_independence() {
    assert_eq!(QuicConnectionCode::TooManyRecoverAttempts.code(), 0xB3);
    assert_eq!(QuicStreamCode::NoFlowState.code(), 0xB3);

    assert_eq!(QuicConnectionCode::ProtocolLevel0.code(), 0xB4);
    assert_eq!(QuicStreamCode::NotFlowOwner.code(), 0xB4);
}

#[test]
fn every_u32_decodes_to_matching_code() {
    for value in 0u32..0x200 {
        if let Some(c) = QuicConnectionCode::from_code(value) {
            assert_eq!(c.code(), value);
        }
        if let Some(c) = QuicStreamCode::from_code(value) {
            assert_eq!(c.code(), value);
        }
    }
}
