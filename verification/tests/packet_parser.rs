use mqtt_lib::packet_parser::{
    decode_string, decode_variable_int, ParsedConnAck, ParsedProperties, ParsedPublish,
};

#[test]
fn variable_int_decodes_single_byte() {
    let data = [0x05];
    assert_eq!(decode_variable_int(&data, 0), Some((5, 1)));
}

#[test]
fn variable_int_decodes_multi_byte() {
    let data = [0x80, 0x01];
    assert_eq!(decode_variable_int(&data, 0), Some((128, 2)));
}

#[test]
fn variable_int_rejects_overlong() {
    let data = [0xFF, 0xFF, 0xFF, 0xFF, 0xFF];
    assert_eq!(decode_variable_int(&data, 0), None);
}

#[test]
fn properties_parse_user_properties() {
    let data = [
        0x26, 0x00, 0x01, b'k', 0x00, 0x01, b'v', 0x26, 0x00, 0x01, b'a', 0x00, 0x01, b'b',
    ];
    let props = ParsedProperties::parse(&data, 0, data.len()).unwrap();
    assert_eq!(
        props.user_properties,
        vec![
            ("k".to_owned(), "v".to_owned()),
            ("a".to_owned(), "b".to_owned()),
        ]
    );
}

#[test]
fn properties_parse_multiple_subscription_identifiers() {
    let data = [0x0B, 0x05, 0x0B, 0x07];
    let props = ParsedProperties::parse(&data, 0, data.len()).unwrap();
    assert_eq!(props.subscription_identifiers, vec![5, 7]);
}

#[test]
fn parsed_publish_extracts_qos1_with_properties() {
    let data = [
        0x32, 0x10, 0x00, 0x04, b't', b'/', b'a', b'b', 0x00, 0x01, 0x02, 0x01, 0x01, b'h',
        b'e', b'l', b'l', b'o',
    ];
    let pkt = ParsedPublish::parse(&data).unwrap();
    assert!(!pkt.dup);
    assert_eq!(pkt.qos, 1);
    assert!(!pkt.retain);
    assert_eq!(pkt.topic, "t/ab");
    assert_eq!(pkt.packet_id, Some(1));
    assert_eq!(pkt.properties.payload_format_indicator, Some(1));
    assert_eq!(pkt.payload, b"hello");
}

#[test]
fn variable_int_decodes_four_byte_maximum() {
    let data = [0xFF, 0xFF, 0xFF, 0x7F];
    assert_eq!(decode_variable_int(&data, 0), Some((268_435_455, 4)));
    assert_eq!(decode_variable_int(&[0x10, 0x80, 0x01], 1), Some((128, 3)));
    assert_eq!(decode_variable_int(&[0x80], 0), None);
    assert_eq!(decode_variable_int(&[], 0), None);
}

#[test]
fn decode_string_reads_length_prefixed_text() {
    let data = [0x00, 0x03, b'a', b'b', b'c', 0xAA];
    assert_eq!(decode_string(&data, 0), Some(("abc".to_owned(), 5)));
    assert_eq!(decode_string(&data[..4], 0), None);
    assert_eq!(decode_string(&[0x00, 0x02, 0xC3, 0x28], 0), None);
}

#[test]
fn properties_parse_rejects_unknown_id_and_truncation() {
    assert!(ParsedProperties::parse(&[0x7F, 0x00], 0, 2).is_none());
    assert!(ParsedProperties::parse(&[0x23, 0x00], 0, 2).is_none());
    let props = ParsedProperties::parse(&[0x23, 0x00, 0x07], 0, 3).unwrap();
    assert_eq!(props.topic_alias, Some(7));
    let empty = ParsedProperties::parse(&[], 0, 0).unwrap();
    assert!(empty.user_properties.is_empty());
}

#[test]
fn connack_parse_reads_flags_and_reason() {
    let data = [0x20, 0x03, 0x01, 0x00, 0x00];
    let connack = ParsedConnAck::parse(&data).unwrap();
    assert!(connack.session_present);
    assert_eq!(connack.reason_code, 0);
    assert!(ParsedConnAck::parse(&[0x30, 0x03, 0x01, 0x00, 0x00]).is_none());
    assert!(ParsedConnAck::parse(&[0x20, 0x01]).is_none());
}

#[test]
fn publish_parse_rejects_non_publish() {
    assert!(ParsedPublish::parse(&[0x20, 0x02, 0x00, 0x00]).is_none());
    let qos0 = [0x30, 0x06, 0x00, 0x01, b'x', 0x00, b'h', b'i'];
    let pkt = ParsedPublish::parse(&qos0).unwrap();
    assert_eq!(pkt.qos, 0);
    assert_eq!(pkt.packet_id, None);
    assert_eq!(pkt.topic, "x");
    assert_eq!(pkt.payload, b"hi");
}

#[test]
fn property_body_past_block_end_is_truncated() {
    let data = [0x03, 0x00, 0x02, b'a', b'b'];
    assert!(ParsedProperties::parse(&data, 0, 3).is_none());
    assert_eq!(
        ParsedProperties::parse(&data, 0, 5).unwrap().content_type,
        Some("ab".to_owned())
    );
    let pair = [0x26, 0x00, 0x01, b'k', 0x00, 0x01, b'v'];
    assert!(ParsedProperties::parse(&pair, 0, 6).is_none());
    let sub_id = [0x0B, 0x85, 0x01];
    assert!(ParsedProperties::parse(&sub_id, 0, 2).is_none());
    assert_eq!(ParsedProperties::parse(&sub_id, 0, 3).unwrap().subscription_identifiers, vec![133]);
}

#[test]
fn connack_with_receive_maximum_parses() {
    let data = [0x20, 0x06, 0x00, 0x00, 0x03, 0x21, 0x00, 0x0A];
    let c = ParsedConnAck::parse(&data).unwrap();
    assert!(!c.session_present);
    assert_eq!(c.reason_code, 0x00);
}

#[test]
fn defined_properties_are_skipped_by_length() {
    let data = [
        0x11, 0x00, 0x00, 0x00, 0x3C, // session expiry interval
        0x12, 0x00, 0x02, b'i', b'd', // assigned client identifier
        0x24, 0x01, // maximum QoS
        0x23, 0x00, 0x05, // topic alias, extracted
        0x1F, 0x00, 0x00, // empty reason string
    ];
    let props = ParsedProperties::parse(&data, 0, data.len()).unwrap();
    assert_eq!(props.topic_alias, Some(5));
    assert!(ParsedProperties::parse(&[0x21, 0x00], 0, 2).is_none());
    assert!(ParsedProperties::parse(&[0x1C, 0x00, 0x03, b'x'], 0, 4).is_none());
    assert!(ParsedProperties::parse(&[0x04, 0x00], 0, 2).is_none());
}
