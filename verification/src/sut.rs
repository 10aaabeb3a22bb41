//! System Under Test abstraction.
//!
//! A System Under Test (SUT) is any MQTT v5 broker the conformance suite is
//! configured to validate. Operators describe their broker with a
//! [`SutDescriptor`]; tests interact with it through a [`SutHandle`].
use crate::capabilities::{Capabilities, HookSupport, TransportSupport};
use crate::text::{spec_starts_with, str_strip_prefix};
use vstd::prelude::*;

verus! {

/// Harness-invocable hooks exposed by the operator. An empty command means
/// the hook is unsupported.
#[derive(Debug, Clone)]
pub struct SutHooks {
    pub restart_command: String,
    pub cleanup_command: String,
}

impl Default for SutHooks {
    fn default() -> (r: Self)
        ensures
            r.restart_command@.len() == 0,
            r.cleanup_command@.len() == 0,
    {
        SutHooks { restart_command: String::new(), cleanup_command: String::new() }
    }
}

/// A fully-parsed SUT descriptor: how to reach the broker (addresses), what
/// it claims to support (capabilities), and how to manage its lifecycle
/// (hooks).
#[derive(Debug, Clone)]
pub struct SutDescriptor {
    pub name: String,
    pub address: String,
    pub tls_address: String,
    pub ws_address: String,
    pub capabilities: Capabilities,
    pub hooks: SutHooks,
}

impl Default for SutDescriptor {
    fn default() -> (r: Self)
        ensures
            r.name@ == "unnamed-sut"@,
            r.address@.len() == 0,
            r.tls_address@.len() == 0,
            r.ws_address@.len() == 0,
            r.capabilities.is_default(),
            r.hooks.restart_command@.len() == 0,
            r.hooks.cleanup_command@.len() == 0,
    {
        SutDescriptor {
            name: String::from_str("unnamed-sut"),
            address: String::new(),
            tls_address: String::new(),
            ws_address: String::new(),
            capabilities: Capabilities::default(),
            hooks: SutHooks::default(),
        }
    }
}

impl SutDescriptor {
    /// Completes a descriptor just read from its text: a declared restart
    /// or cleanup command makes the matching hook capability available.
    pub fn with_declared_hooks(self) -> (r: Self)
        ensures
            r.name == self.name,
            r.address == self.address,
            r.tls_address == self.tls_address,
            r.ws_address == self.ws_address,
            r.hooks == self.hooks,
            r.capabilities == (Capabilities {
                hooks: HookSupport {
                    restart: self.capabilities.hooks.restart
                        || self.hooks.restart_command@.len() > 0,
                    cleanup: self.capabilities.hooks.cleanup
                        || self.hooks.cleanup_command@.len() > 0,
                },
                ..self.capabilities
            }),
    {
        let mut descriptor = self;
        if !descriptor.hooks.restart_command.as_str().is_empty() {
            descriptor.capabilities.hooks.restart = true;
        }
        if !descriptor.hooks.cleanup_command.as_str().is_empty() {
            descriptor.capabilities.hooks.cleanup = true;
        }
        descriptor
    }
}

/// The schemes that an address may carry, tried in this order.
pub open spec fn spec_schemes() -> Seq<Seq<char>> {
    seq!["mqtts://"@, "mqtt://"@, "wss://"@, "ws://"@]
}

/// `addr` without the first scheme of `spec_schemes()` that begins it.
pub open spec fn spec_strip_scheme(addr: Seq<char>) -> Seq<char> {
    if spec_starts_with(addr, "mqtts://"@) {
        addr.subrange("mqtts://"@.len() as int, addr.len() as int)
    } else if spec_starts_with(addr, "mqtt://"@) {
        addr.subrange("mqtt://"@.len() as int, addr.len() as int)
    } else if spec_starts_with(addr, "wss://"@) {
        addr.subrange("wss://"@.len() as int, addr.len() as int)
    } else if spec_starts_with(addr, "ws://"@) {
        addr.subrange("ws://"@.len() as int, addr.len() as int)
    } else {
        addr
    }
}

/// The index of the first `/` in `s`, or its length when there is none.
pub open spec fn first_slash(s: Seq<char>) -> int {
    if exists|i: int| 0 <= i < s.len() && s[i] == '/' {
        choose|i: int| 0 <= i < s.len() && s[i] == '/' && forall|j: int| 0 <= j < i ==> s[j] != '/'
    } else {
        s.len() as int
    }
}

/// `addr` up to (not including) its first `/`.
pub open spec fn spec_strip_ws_path(addr: Seq<char>) -> Seq<char> {
    addr.subrange(0, first_slash(addr))
}

/// Removes a leading `mqtts://`, `mqtt://`, `wss://` or `ws://`.
pub fn strip_scheme(addr: &str) -> (r: &str)
    ensures
        r@ == spec_strip_scheme(addr@),
{
    if let Some(rest) = str_strip_prefix(addr, "mqtts://") {
        return rest;
    }
    if let Some(rest) = str_strip_prefix(addr, "mqtt://") {
        return rest;
    }
    if let Some(rest) = str_strip_prefix(addr, "wss://") {
        return rest;
    }
    if let Some(rest) = str_strip_prefix(addr, "ws://") {
        return rest;
    }
    addr
}

/// Removes everything from the first `/` on (a WebSocket path).
pub fn strip_ws_path(addr: &str) -> (r: &str)
    ensures
        r@ == spec_strip_ws_path(addr@),
{
    let n = addr.unicode_len();
    let mut i: usize = 0;
    while i < n && addr.get_char(i) != '/'
        invariant
            n == addr@.len(),
            i <= n,
            forall|j: int| 0 <= j < i ==> addr@[j] != '/',
        decreases n - i,
    {
        i = i + 1;
    }
    proof {
        let s = addr@;
        if i < n {
            assert(s[i as int] == '/');
            let k = choose|k: int|
                0 <= k < s.len() && s[k] == '/' && forall|j: int| 0 <= j < k ==> s[j] != '/';
            assert(k == i) by {
                if k < i {
                } else if k > i {
                }
            }
        } else {
            assert(!exists|k: int| 0 <= k < s.len() && s[k] == '/');
        }
    }
    addr.substring_char(0, i)
}

/// The text of an optional address, ready to be read as `host:port`: `None`
/// when the address is empty, otherwise the address without its scheme and
/// without a WebSocket path.
pub fn socket_addr_text(value: &str) -> (r: Option<&str>)
    ensures
        value@.len() == 0 ==> r is None,
        value@.len() > 0 ==> (r matches Some(t) && t@ == spec_strip_ws_path(
            spec_strip_scheme(value@),
        )),
{
    if value.is_empty() {
        return None;
    }
    Some(strip_ws_path(strip_scheme(value)))
}

/// A live handle to a running System Under Test.
pub enum SutHandle {
    External(Box<SutDescriptor>),
}

impl SutHandle {
    /// Returns the capability matrix of the underlying SUT.
    pub fn capabilities(&self) -> (c: &Capabilities)
        ensures
            match self {
                SutHandle::External(d) => *c == d.capabilities,
            },
    {
        match self {
            SutHandle::External(descriptor) => &descriptor.capabilities,
        }
    }
}

/// The capabilities of the broker run inside the test process: the
/// defaults, over TCP and (when enabled) WebSocket, with the sender and
/// client id injected as user properties into every PUBLISH.
pub fn inprocess_capabilities(websocket: bool) -> (c: Capabilities)
    ensures
        c.transports.tcp && !c.transports.tls && c.transports.websocket == websocket
            && !c.transports.quic,
        c.injected_user_properties@.len() == 2,
        c.injected_user_properties@[0]@ == "x-mqtt-sender"@,
        c.injected_user_properties@[1]@ == "x-mqtt-client-id"@,
        c.has_default_policy(),
{
    let mut c = Capabilities::default();
    c.transports = TransportSupport { tcp: true, tls: false, websocket, quic: false };
    let mut injected: Vec<String> = Vec::new();
    injected.push(String::from_str("x-mqtt-sender"));
    injected.push(String::from_str("x-mqtt-client-id"));
    c.injected_user_properties = injected;
    c
}

} // verus!
