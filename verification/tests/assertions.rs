use mqtt_lib::assertions::{expect_user_properties_subset, user_properties_contain};
use mqtt_lib::packet_parser::ParsedProperties;

#[test]
fn user_properties_subset_filters_injected() {
    let actual = vec![
        ("x-mqtt-sender".to_owned(), "alice".to_owned()),
        ("k".to_owned(), "v".to_owned()),
        ("x-mqtt-client-id".to_owned(), "client-1".to_owned()),
    ];
    let expected = vec![("k".to_owned(), "v".to_owned())];
    expect_user_properties_subset(
        &actual,
        &expected,
        &["x-mqtt-sender", "x-mqtt-client-id"],
        "MQTT-3.3.2-17",
    )
    .unwrap();
}

#[test]
#[should_panic(expected = "MQTT-3.3.2-17")]
fn user_properties_subset_panics_on_mismatch() {
    let actual = vec![("k".to_owned(), "wrong".to_owned())];
    let expected = vec![("k".to_owned(), "v".to_owned())];
    expect_user_properties_subset(&actual, &expected, &[], "MQTT-3.3.2-17").unwrap();
}

#[test]
fn user_properties_subset_reports_statement_and_keys() {
    let actual = vec![("a".to_owned(), "1".to_owned()), ("b".to_owned(), "2".to_owned())];
    let expected = vec![("b".to_owned(), "2".to_owned()), ("a".to_owned(), "1".to_owned())];
    let err = expect_user_properties_subset(&actual, &expected, &["x", "y"], "MQTT-1").unwrap_err();
    assert_eq!(err, "[MQTT-1] user properties (excluding injected [\"x\", \"y\"]) mismatch");
    let odd: [&str; 2] = ["a\"b", "c\\d\n"];
    let err = expect_user_properties_subset(&actual, &expected, &odd, "MQTT-2").unwrap_err();
    assert_eq!(err, format!("[MQTT-2] user properties (excluding injected {odd:?}) mismatch"));
    let shorter = vec![("a".to_owned(), "1".to_owned())];
    assert!(expect_user_properties_subset(&actual, &shorter, &[], "MQTT-1").is_err());
    assert!(expect_user_properties_subset(&shorter, &actual, &[], "MQTT-1").is_err());
    assert!(expect_user_properties_subset(&[], &[], &[], "MQTT-1").is_ok());
}

#[test]
fn user_properties_contain_finds_exact_pair() {
    let props = ParsedProperties::parse(
        &[0x26, 0x00, 0x01, b'k', 0x00, 0x01, b'v'],
        0,
        7,
    )
    .unwrap();
    assert!(user_properties_contain(&props, "k", "v"));
    assert!(!user_properties_contain(&props, "k", "w"));
    assert!(!user_properties_contain(&props, "v", "k"));
}
