//! Configuration of the standalone WASI broker and client.
use std::time::Duration;
use vstd::prelude::*;

verus! {

/// Configuration for the standalone WASI MQTT broker: the options that are
/// meaningful without TLS, persistent storage or clustering.
#[derive(Debug, Clone)]
pub struct WasiBrokerConfig {
    /// Allow clients to connect without authentication.
    pub allow_anonymous: bool,
    /// Maximum number of concurrent connected clients.
    pub max_clients: usize,
}

impl Default for WasiBrokerConfig {
    fn default() -> (r: Self)
        ensures
            r.allow_anonymous,
            r.max_clients == 1000,
    {
        WasiBrokerConfig { allow_anonymous: true, max_clients: 1000 }
    }
}

/// The span of `secs` whole seconds, as `std::time::Duration::from_secs`
/// builds it.
pub uninterp spec fn secs_duration(secs: u64) -> Duration;

/// A span of `secs` whole seconds.
///
/// Calls `std::time::Duration::from_secs`, which builds its result from
/// `secs` alone. Verus sees a `Duration` as an opaque value, so the contract
/// names the result rather than describing it: that it lasts `secs` seconds
/// is what the standard library documents and is not stated here.
#[verifier::external_body]
fn duration_from_secs(secs: u64) -> (d: Duration)
    ensures
        d == secs_duration(secs),
{
    Duration::from_secs(secs)
}

/// Configuration for the standalone WASI MQTT client.
#[derive(Debug)]
pub struct WasiClientConfig {
    /// Client identifier sent in CONNECT. Empty requests a server-assigned
    /// id (v5 only).
    pub client_id: String,
    /// MQTT protocol version: `4` for v3.1.1, `5` for v5.0.
    pub protocol_version: u8,
    /// Keep-alive interval. A zero duration disables keep-alive.
    pub keep_alive: Duration,
    /// Clean-start flag (v5) / clean-session flag (v3.1.1).
    pub clean_start: bool,
    /// Optional username for authentication.
    pub username: Option<String>,
    /// Optional password for authentication.
    pub password: Option<Vec<u8>>,
}

impl Default for WasiClientConfig {
    /// An empty client id, protocol v5, a keep-alive of 60 seconds, clean
    /// start and no credentials.
    fn default() -> (r: Self)
        ensures
            r.client_id@ == Seq::<char>::empty(),
            r.protocol_version == 5,
            r.keep_alive == secs_duration(60),
            r.clean_start,
            r.username is None,
            r.password is None,
    {
        WasiClientConfig {
            client_id: String::new(),
            protocol_version: 5,
            keep_alive: duration_from_secs(60),
            clean_start: true,
            username: None,
            password: None,
        }
    }
}

impl Clone for WasiClientConfig {
    fn clone(&self) -> (r: Self)
        ensures
            r.client_id == self.client_id,
            r.protocol_version == self.protocol_version,
            r.keep_alive == self.keep_alive,
            r.clean_start == self.clean_start,
            r.username == self.username,
            r.password.deep_view() == self.password.deep_view(),
    {
        let username = match &self.username {
            Some(u) => Some(u.clone()),
            None => None,
        };
        let password = match &self.password {
            Some(p) => Some(vstd::slice::slice_to_vec(p.as_slice())),
            None => None,
        };
        WasiClientConfig {
            client_id: self.client_id.clone(),
            protocol_version: self.protocol_version,
            keep_alive: self.keep_alive,
            clean_start: self.clean_start,
            username,
            password,
        }
    }
}

impl WasiClientConfig {
    /// The default configuration with the client id `client_id`.
    pub fn new(client_id: &str) -> (r: Self)
        ensures
            r.client_id@ == client_id@,
            r.protocol_version == 5,
            r.keep_alive == secs_duration(60),
            r.clean_start,
            r.username is None,
            r.password is None,
    {
        let mut r = Self::default();
        r.client_id = client_id.to_string();
        r
    }

    /// The configuration with the protocol version `version`.
    pub fn with_protocol_version(self, version: u8) -> (r: Self)
        ensures
            r == (WasiClientConfig { protocol_version: version, ..self }),
    {
        let mut r = self;
        r.protocol_version = version;
        r
    }

    /// The configuration with the keep-alive interval `keep_alive`.
    pub fn with_keep_alive(self, keep_alive: Duration) -> (r: Self)
        ensures
            r == (WasiClientConfig { keep_alive, ..self }),
    {
        let mut r = self;
        r.keep_alive = keep_alive;
        r
    }

    /// The configuration with the clean-start flag `clean_start`.
    pub fn with_clean_start(self, clean_start: bool) -> (r: Self)
        ensures
            r == (WasiClientConfig { clean_start, ..self }),
    {
        let mut r = self;
        r.clean_start = clean_start;
        r
    }

    /// The configuration with the credentials `username` and `password`.
    pub fn with_credentials(self, username: &str, password: &[u8]) -> (r: Self)
        ensures
            r.client_id == self.client_id,
            r.protocol_version == self.protocol_version,
            r.keep_alive == self.keep_alive,
            r.clean_start == self.clean_start,
            r.username matches Some(u) && u@ == username@,
            r.password matches Some(p) && p@ == password@,
    {
        let mut r = self;
        r.username = Some(username.to_string());
        r.password = Some(vstd::slice::slice_to_vec(password));
        r
    }
}

} // verus!
