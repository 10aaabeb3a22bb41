use mqtt_lib::config::{WasiBrokerConfig, WasiClientConfig};
use std::time::Duration;

#[test]
fn broker_config_defaults() {
    let c = WasiBrokerConfig::default();
    assert!(c.allow_anonymous);
    assert_eq!(c.max_clients, 1000);
}

#[test]
fn client_config_builders() {
    let c = WasiClientConfig::new("dev-1");
    assert_eq!(c.client_id, "dev-1");
    assert_eq!(c.protocol_version, 5);
    assert_eq!(c.keep_alive, Duration::from_secs(60));
    assert!(c.clean_start);
    assert!(c.username.is_none() && c.password.is_none());
    let c = c
        .with_protocol_version(4)
        .with_keep_alive(Duration::ZERO)
        .with_clean_start(false)
        .with_credentials("user", b"secret");
    assert_eq!(c.protocol_version, 4);
    assert_eq!(c.keep_alive, Duration::ZERO);
    assert!(!c.clean_start);
    assert_eq!(c.username.as_deref(), Some("user"));
    assert_eq!(c.password.as_deref(), Some(&b"secret"[..]));
    let copy = c.clone();
    assert_eq!(copy.client_id, "dev-1");
    assert_eq!(copy.password, c.password);
    assert_eq!(WasiClientConfig::default().client_id, "");
}
