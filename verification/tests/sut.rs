use mqtt_lib::sut::{inprocess_capabilities, socket_addr_text, strip_scheme, strip_ws_path, SutDescriptor, SutHandle};

#[test]
fn strip_ws_path_removes_suffix() {
    assert_eq!(strip_ws_path("127.0.0.1:8083/mqtt"), "127.0.0.1:8083");
    assert_eq!(strip_ws_path("127.0.0.1:8083"), "127.0.0.1:8083");
}

#[test]
fn strip_scheme_removes_known_prefixes() {
    assert_eq!(strip_scheme("mqtt://127.0.0.1:1883"), "127.0.0.1:1883");
    assert_eq!(strip_scheme("ws://127.0.0.1:8083/mqtt"), "127.0.0.1:8083/mqtt");
    assert_eq!(strip_scheme("127.0.0.1:1883"), "127.0.0.1:1883");
}

#[test]
fn socket_addr_text_skips_empty_values() {
    assert_eq!(socket_addr_text(""), None);
    assert_eq!(socket_addr_text("mqtt://127.0.0.1:1883"), Some("127.0.0.1:1883"));
    assert_eq!(socket_addr_text("ws://127.0.0.1:8083/mqtt"), Some("127.0.0.1:8083"));
}

#[test]
fn descriptor_default_is_unnamed() {
    let d = SutDescriptor::default();
    assert_eq!(d.name, "unnamed-sut");
    assert!(d.address.is_empty());
    let handle = SutHandle::External(Box::new(d));
    assert_eq!(handle.capabilities().max_qos, 2);
}

#[test]
fn inprocess_capabilities_reflect_websocket() {
    assert!(inprocess_capabilities(true).transports.websocket);
    assert!(!inprocess_capabilities(false).transports.websocket);
    assert!(inprocess_capabilities(false).transports.tcp);
}
