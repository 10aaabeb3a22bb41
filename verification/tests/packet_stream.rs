use mqtt_lib::packet_stream::{
    count_publish_headers, disconnect_has_session_expiry, extract_publish_ids, find_connack_reason_code_index, parse_suback_bytes,
};

#[test]
fn connack_reason_index_skips_length_bytes() {
    assert_eq!(find_connack_reason_code_index(&[0x20, 0x03, 0x00, 0x00, 0x00]), 3);
    assert_eq!(find_connack_reason_code_index(&[0x20, 0x80, 0x01, 0x00, 0x00]), 4);
    assert_eq!(find_connack_reason_code_index(&[0x20]), 1);
    assert_eq!(find_connack_reason_code_index(&[0x20, 0x80]), 2);
}

#[test]
fn publish_headers_counted_including_truncated_tail() {
    let data = [
        0x30, 0x02, 0x00, 0x00, // PUBLISH QoS 0
        0x40, 0x02, 0x00, 0x01, // PUBACK
        0x32, 0x05, 0x00, // PUBLISH QoS 1, truncated
    ];
    assert_eq!(count_publish_headers(&data), 2);
    assert_eq!(count_publish_headers(&[]), 0);
    assert_eq!(count_publish_headers(&[0x30]), 0);
}

#[test]
fn publish_ids_extracted_for_qos_above_zero() {
    let data = [
        0x32, 0x05, 0x00, 0x01, b't', 0x00, 0x07, // QoS 1, id 7
        0x30, 0x03, 0x00, 0x01, b't', // QoS 0
        0x34, 0x05, 0x00, 0x01, b'u', 0x01, 0x02, // QoS 2, id 258
    ];
    assert_eq!(extract_publish_ids(&data), (3, vec![7, 258]));
    assert_eq!(extract_publish_ids(&[0x32, 0x09, 0x00]), (1, vec![]));
}

#[test]
fn suback_bytes_parsed_past_properties() {
    let data = [0x90, 0x05, 0x00, 0x2A, 0x00, 0x01, 0x80];
    assert_eq!(parse_suback_bytes(&data), Some((42, vec![0x01, 0x80])));
    let with_props = [0x90, 0x05, 0x00, 0x01, 0x01, 0x1F, 0x00];
    assert_eq!(parse_suback_bytes(&with_props), Some((1, vec![0x00])));
    assert_eq!(parse_suback_bytes(&[0x80, 0x03, 0x00, 0x01, 0x00]), None);
    assert_eq!(parse_suback_bytes(&[0x90, 0x02, 0x00, 0x01]), None);
    assert_eq!(parse_suback_bytes(&[0x90, 0x03, 0x00, 0x01, 0x05, 0x00]), None);
}

#[test]
fn server_disconnect_session_expiry_detected() {
    let with_expiry = [0xE0, 0x07, 0x00, 0x05, 0x11, 0x00, 0x00, 0x00, 0x0A];
    assert!(disconnect_has_session_expiry(&with_expiry));
    let reason_only = [0xE0, 0x05, 0x00, 0x03, 0x1F, 0x00, 0x00];
    assert!(!disconnect_has_session_expiry(&reason_only));
    let after_reason = [0xE0, 0x0A, 0x00, 0x08, 0x1F, 0x00, 0x01, b'x', 0x11, 0x00, 0x00, 0x00];
    assert!(disconnect_has_session_expiry(&after_reason));
    let after_user = [
        0xE0, 0x0C, 0x00, 0x0A, 0x26, 0x00, 0x01, b'a', 0x00, 0x01, b'b', 0x11, 0x00, 0x00,
    ];
    assert!(disconnect_has_session_expiry(&after_user));
    let after_other = [0xE0, 0x0B, 0x00, 0x09, 0x1C, 0x00, 0x01, b's', 0x11, 0x00, 0x00, 0x00, 0x01];
    assert!(!disconnect_has_session_expiry(&after_other));
    assert!(!disconnect_has_session_expiry(&[0xE0, 0x00]));
    assert!(!disconnect_has_session_expiry(&[0xE0, 0x01, 0x00]));
    assert!(!disconnect_has_session_expiry(&[]));
}
