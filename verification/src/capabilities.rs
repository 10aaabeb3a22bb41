//! Vendor-neutral capability matrix for a System Under Test.
//!
//! Different brokers advertise different capabilities (spec-advertised values
//! on CONNACK), impose different resource limits, and behave differently
//! within the space the specification leaves open. [`Requirement`] expresses
//! a capability precondition for a single conformance test;
//! [`Requirement::matches`] checks it against a [`Capabilities`] record.
use crate::text::{spec_starts_with, str_eq, str_strip_prefix};
use vstd::prelude::*;

verus! {

/// Full capability matrix for a System Under Test.
///
/// All fields have permissive defaults, so a partial description only needs
/// the values that deviate from them.
#[derive(Debug, Clone)]
pub struct Capabilities {
    pub max_qos: u8,
    pub retain_available: bool,
    pub wildcard_subscription_available: bool,
    pub subscription_identifier_available: bool,
    pub shared_subscription_available: bool,
    pub topic_alias_maximum: u16,
    pub server_keep_alive: u16,
    pub server_receive_maximum: u16,
    pub maximum_packet_size: u32,
    pub assigned_client_id_supported: bool,
    pub max_clients: u32,
    pub max_subscriptions_per_client: u32,
    pub session_expiry_interval_max_secs: u32,
    pub enforces_inbound_receive_maximum: bool,
    pub injected_user_properties: Vec<String>,
    pub auth_failure_uses_disconnect: bool,
    pub unsupported_property_behavior: String,
    pub shared_subscription_distribution: String,
    pub strict_client_id_charset: bool,
    pub dollar_sys_publish: bool,
    pub transports: TransportSupport,
    pub enhanced_auth: EnhancedAuthSupport,
    pub acl: bool,
    pub hooks: HookSupport,
}

/// Transport protocol support matrix.
#[derive(Debug, Clone)]
pub struct TransportSupport {
    pub tcp: bool,
    pub tls: bool,
    pub websocket: bool,
    pub quic: bool,
}

/// Enhanced authentication support declared by the SUT.
#[derive(Debug, Clone)]
pub struct EnhancedAuthSupport {
    pub methods: Vec<String>,
}

/// Harness hook support declared by the SUT.
#[derive(Debug, Clone)]
pub struct HookSupport {
    pub restart: bool,
    pub cleanup: bool,
}

impl Default for TransportSupport {
    fn default() -> (r: Self)
        ensures
            r.tcp && !r.tls && !r.websocket && !r.quic,
    {
        TransportSupport { tcp: true, tls: false, websocket: false, quic: false }
    }
}

impl Default for EnhancedAuthSupport {
    fn default() -> (r: Self)
        ensures
            r.methods@.len() == 0,
    {
        EnhancedAuthSupport { methods: Vec::new() }
    }
}

impl Default for HookSupport {
    fn default() -> (r: Self)
        ensures
            !r.restart && !r.cleanup,
    {
        HookSupport { restart: false, cleanup: false }
    }
}

impl Capabilities {
    /// The permissive defaults apart from transports and injected user
    /// properties: every optional MQTT v5 feature available, QoS 2, the
    /// protocol maxima for aliases, receive maximum and packet size, no
    /// broker limits, no enhanced authentication, no ACL and no hooks.
    pub open spec fn has_default_policy(&self) -> bool {
        &&& self.max_qos == 2
        &&& self.retain_available
        &&& self.wildcard_subscription_available
        &&& self.subscription_identifier_available
        &&& self.shared_subscription_available
        &&& self.topic_alias_maximum == 65535
        &&& self.server_keep_alive == 0
        &&& self.server_receive_maximum == 65535
        &&& self.maximum_packet_size == 268_435_456
        &&& self.assigned_client_id_supported
        &&& self.max_clients == 0
        &&& self.max_subscriptions_per_client == 0
        &&& self.session_expiry_interval_max_secs == u32::MAX
        &&& self.enforces_inbound_receive_maximum
        &&& !self.auth_failure_uses_disconnect
        &&& self.unsupported_property_behavior@ == "DisconnectMalformed"@
        &&& self.shared_subscription_distribution@ == "RoundRobin"@
        &&& !self.strict_client_id_charset
        &&& !self.dollar_sys_publish
        &&& self.enhanced_auth.methods@.len() == 0
        &&& !self.acl
        &&& !self.hooks.restart && !self.hooks.cleanup
    }

    /// The permissive defaults: the default policy, only TCP, and no
    /// injected user properties.
    pub open spec fn is_default(&self) -> bool {
        &&& self.has_default_policy()
        &&& self.transports.tcp && !self.transports.tls && !self.transports.websocket
            && !self.transports.quic
        &&& self.injected_user_properties@.len() == 0
    }
}

impl Default for Capabilities {
    fn default() -> (r: Self)
        ensures
            r.is_default(),
    {
        Capabilities {
            max_qos: 2,
            retain_available: true,
            wildcard_subscription_available: true,
            subscription_identifier_available: true,
            shared_subscription_available: true,
            topic_alias_maximum: 65535,
            server_keep_alive: 0,
            server_receive_maximum: 65535,
            maximum_packet_size: 268_435_456,
            assigned_client_id_supported: true,
            max_clients: 0,
            max_subscriptions_per_client: 0,
            session_expiry_interval_max_secs: u32::MAX,
            enforces_inbound_receive_maximum: true,
            injected_user_properties: Vec::new(),
            auth_failure_uses_disconnect: false,
            unsupported_property_behavior: String::from_str("DisconnectMalformed"),
            shared_subscription_distribution: String::from_str("RoundRobin"),
            strict_client_id_charset: false,
            dollar_sys_publish: false,
            transports: TransportSupport::default(),
            enhanced_auth: EnhancedAuthSupport::default(),
            acl: false,
            hooks: HookSupport::default(),
        }
    }
}

/// A single capability precondition for a conformance test.
#[derive(Debug, Clone, Copy, PartialEq, Eq)]
pub enum Requirement {
    TransportTcp,
    TransportTls,
    TransportWebSocket,
    TransportQuic,
    MinQos(u8),
    RetainAvailable,
    WildcardSubscriptionAvailable,
    SubscriptionIdentifierAvailable,
    SharedSubscriptionAvailable,
    EnhancedAuthMethod(&'static str),
    HookRestart,
    HookCleanup,
    Acl,
    StrictClientIdCharset,
    DollarSysPublish,
}

/// A requirement with its authentication method taken by its characters.
pub enum RequirementView {
    TransportTcp,
    TransportTls,
    TransportWebSocket,
    TransportQuic,
    MinQos(u8),
    RetainAvailable,
    WildcardSubscriptionAvailable,
    SubscriptionIdentifierAvailable,
    SharedSubscriptionAvailable,
    EnhancedAuthMethod(Seq<char>),
    HookRestart,
    HookCleanup,
    Acl,
    StrictClientIdCharset,
    DollarSysPublish,
}

impl View for Requirement {
    type V = RequirementView;

    open spec fn view(&self) -> RequirementView {
        match self {
            Requirement::TransportTcp => RequirementView::TransportTcp,
            Requirement::TransportTls => RequirementView::TransportTls,
            Requirement::TransportWebSocket => RequirementView::TransportWebSocket,
            Requirement::TransportQuic => RequirementView::TransportQuic,
            Requirement::MinQos(q) => RequirementView::MinQos(*q),
            Requirement::RetainAvailable => RequirementView::RetainAvailable,
            Requirement::WildcardSubscriptionAvailable =>
                RequirementView::WildcardSubscriptionAvailable,
            Requirement::SubscriptionIdentifierAvailable =>
                RequirementView::SubscriptionIdentifierAvailable,
            Requirement::SharedSubscriptionAvailable => RequirementView::SharedSubscriptionAvailable,
            Requirement::EnhancedAuthMethod(m) => RequirementView::EnhancedAuthMethod(m@),
            Requirement::HookRestart => RequirementView::HookRestart,
            Requirement::HookCleanup => RequirementView::HookCleanup,
            Requirement::Acl => RequirementView::Acl,
            Requirement::StrictClientIdCharset => RequirementView::StrictClientIdCharset,
            Requirement::DollarSysPublish => RequirementView::DollarSysPublish,
        }
    }
}

/// Whether the declared method list holds `method`.
pub open spec fn has_method(methods: Seq<String>, method: Seq<char>) -> bool {
    exists|i: int| 0 <= i < methods.len() && #[trigger] methods[i]@ == method
}

/// Whether `caps` satisfies the requirement `r`.
pub open spec fn spec_matches(r: RequirementView, caps: Capabilities) -> bool {
    match r {
        RequirementView::TransportTcp => caps.transports.tcp,
        RequirementView::TransportTls => caps.transports.tls,
        RequirementView::TransportWebSocket => caps.transports.websocket,
        RequirementView::TransportQuic => caps.transports.quic,
        RequirementView::MinQos(q) => caps.max_qos >= q,
        RequirementView::RetainAvailable => caps.retain_available,
        RequirementView::WildcardSubscriptionAvailable => caps.wildcard_subscription_available,
        RequirementView::SubscriptionIdentifierAvailable => caps.subscription_identifier_available,
        RequirementView::SharedSubscriptionAvailable => caps.shared_subscription_available,
        RequirementView::EnhancedAuthMethod(m) => has_method(caps.enhanced_auth.methods@, m),
        RequirementView::HookRestart => caps.hooks.restart,
        RequirementView::HookCleanup => caps.hooks.cleanup,
        RequirementView::Acl => caps.acl,
        RequirementView::StrictClientIdCharset => caps.strict_client_id_charset,
        RequirementView::DollarSysPublish => caps.dollar_sys_publish,
    }
}

/// The character of a decimal digit.
pub open spec fn digit_char(d: nat) -> char {
    if d == 0 {
        '0'
    } else if d == 1 {
        '1'
    } else if d == 2 {
        '2'
    } else if d == 3 {
        '3'
    } else if d == 4 {
        '4'
    } else if d == 5 {
        '5'
    } else if d == 6 {
        '6'
    } else if d == 7 {
        '7'
    } else if d == 8 {
        '8'
    } else {
        '9'
    }
}

/// The decimal digits of `n`, most significant first.
pub open spec fn decimal(n: nat) -> Seq<char>
    decreases n,
{
    if n < 10 {
        seq![digit_char(n)]
    } else {
        decimal(n / 10).push(digit_char(n % 10))
    }
}

/// The label of a requirement, as used in skip reasons.
pub open spec fn spec_label(r: RequirementView) -> Seq<char> {
    match r {
        RequirementView::TransportTcp => "transport.tcp"@,
        RequirementView::TransportTls => "transport.tls"@,
        RequirementView::TransportWebSocket => "transport.websocket"@,
        RequirementView::TransportQuic => "transport.quic"@,
        RequirementView::MinQos(q) => "max_qos >= "@ + decimal(q as nat),
        RequirementView::RetainAvailable => "retain_available"@,
        RequirementView::WildcardSubscriptionAvailable => "wildcard_subscription_available"@,
        RequirementView::SubscriptionIdentifierAvailable => "subscription_identifier_available"@,
        RequirementView::SharedSubscriptionAvailable => "shared_subscription_available"@,
        RequirementView::EnhancedAuthMethod(m) => "enhanced_auth."@ + m,
        RequirementView::HookRestart => "hooks.restart"@,
        RequirementView::HookCleanup => "hooks.cleanup"@,
        RequirementView::Acl => "acl"@,
        RequirementView::StrictClientIdCharset => "strict_client_id_charset"@,
        RequirementView::DollarSysPublish => "dollar_sys_publish"@,
    }
}

/// The requirement that a spec string names: `max_qos>=N` for N of 0, 1
/// or 2, `enhanced_auth.<METHOD>` for any method, or one of the fixed
/// names; anything else names none.
pub open spec fn spec_from_spec(s: Seq<char>) -> Option<RequirementView> {
    if spec_starts_with(s, "max_qos>="@) {
        let rest = s.subrange("max_qos>="@.len() as int, s.len() as int);
        if rest == "0"@ {
            Some(RequirementView::MinQos(0))
        } else if rest == "1"@ {
            Some(RequirementView::MinQos(1))
        } else if rest == "2"@ {
            Some(RequirementView::MinQos(2))
        } else {
            None
        }
    } else if spec_starts_with(s, "enhanced_auth."@) {
        Some(
            RequirementView::EnhancedAuthMethod(
                s.subrange("enhanced_auth."@.len() as int, s.len() as int),
            ),
        )
    } else if s == "transport.tcp"@ {
        Some(RequirementView::TransportTcp)
    } else if s == "transport.tls"@ {
        Some(RequirementView::TransportTls)
    } else if s == "transport.websocket"@ {
        Some(RequirementView::TransportWebSocket)
    } else if s == "transport.quic"@ {
        Some(RequirementView::TransportQuic)
    } else if s == "retain_available"@ {
        Some(RequirementView::RetainAvailable)
    } else if s == "wildcard_subscription_available"@ {
        Some(RequirementView::WildcardSubscriptionAvailable)
    } else if s == "subscription_identifier_available"@ {
        Some(RequirementView::SubscriptionIdentifierAvailable)
    } else if s == "shared_subscription_available"@ {
        Some(RequirementView::SharedSubscriptionAvailable)
    } else if s == "hooks.restart"@ {
        Some(RequirementView::HookRestart)
    } else if s == "hooks.cleanup"@ {
        Some(RequirementView::HookCleanup)
    } else if s == "acl"@ {
        Some(RequirementView::Acl)
    } else if s == "strict_client_id_charset"@ {
        Some(RequirementView::StrictClientIdCharset)
    } else if s == "dollar_sys_publish"@ {
        Some(RequirementView::DollarSysPublish)
    } else {
        None
    }
}

/// The one-character string of a decimal digit.
fn digit_str(d: u8) -> (c: &'static str)
    requires
        d < 10,
    ensures
        c@ == seq![digit_char(d as nat)],
{
    proof {
        reveal_strlit("0");
        reveal_strlit("1");
        reveal_strlit("2");
        reveal_strlit("3");
        reveal_strlit("4");
        reveal_strlit("5");
        reveal_strlit("6");
        reveal_strlit("7");
        reveal_strlit("8");
        reveal_strlit("9");
    }
    if d == 0 {
        "0"
    } else if d == 1 {
        "1"
    } else if d == 2 {
        "2"
    } else if d == 3 {
        "3"
    } else if d == 4 {
        "4"
    } else if d == 5 {
        "5"
    } else if d == 6 {
        "6"
    } else if d == 7 {
        "7"
    } else if d == 8 {
        "8"
    } else {
        "9"
    }
}

/// The decimal digits of `n`.
pub fn u8_to_decimal(n: u8) -> (s: String)
    ensures
        s@ == decimal(n as nat),
{
    let mut s = String::new();
    if n >= 100 {
        s.append(digit_str(n / 100));
    }
    if n >= 10 {
        s.append(digit_str((n / 10) % 10));
    }
    s.append(digit_str(n % 10));
    proof {
        reveal_with_fuel(decimal, 3);
        if n >= 100 {
            assert(decimal((n / 10) as nat) =~= decimal((n / 100) as nat).push(
                digit_char(((n / 10) % 10) as nat),
            ));
        }
        assert(s@ =~= decimal(n as nat));
    }
    s
}

/// The decimal digits of `n`.
pub fn u32_to_decimal(n: u32) -> (s: String)
    ensures
        s@ == decimal(n as nat),
    decreases n,
{
    if n < 10 {
        let mut s = String::new();
        s.append(digit_str(n as u8));
        s
    } else {
        let mut s = u32_to_decimal(n / 10);
        s.append(digit_str((n % 10) as u8));
        s
    }
}

impl Requirement {
    /// Returns `true` if `capabilities` satisfies this requirement.
    pub fn matches(self, capabilities: &Capabilities) -> (r: bool)
        ensures
            r == spec_matches(self@, *capabilities),
            self is TransportTcp ==> r == capabilities.transports.tcp,
            self is TransportTls ==> r == capabilities.transports.tls,
            self is TransportWebSocket ==> r == capabilities.transports.websocket,
            self is TransportQuic ==> r == capabilities.transports.quic,
            self is MinQos ==> (r <==> capabilities.max_qos >= self->MinQos_0),
            self is RetainAvailable ==> r == capabilities.retain_available,
            self is WildcardSubscriptionAvailable ==> r
                == capabilities.wildcard_subscription_available,
            self is SubscriptionIdentifierAvailable ==> r
                == capabilities.subscription_identifier_available,
            self is SharedSubscriptionAvailable ==> r
                == capabilities.shared_subscription_available,
            self is EnhancedAuthMethod ==> (r <==> exists|i: int|
                0 <= i < capabilities.enhanced_auth.methods@.len()
                    && #[trigger] capabilities.enhanced_auth.methods@[i]@
                    == self->EnhancedAuthMethod_0@),
            self is HookRestart ==> r == capabilities.hooks.restart,
            self is HookCleanup ==> r == capabilities.hooks.cleanup,
            self is Acl ==> r == capabilities.acl,
            self is StrictClientIdCharset ==> r == capabilities.strict_client_id_charset,
            self is DollarSysPublish ==> r == capabilities.dollar_sys_publish,
    {
        match self {
            Requirement::TransportTcp => capabilities.transports.tcp,
            Requirement::TransportTls => capabilities.transports.tls,
            Requirement::TransportWebSocket => capabilities.transports.websocket,
            Requirement::TransportQuic => capabilities.transports.quic,
            Requirement::MinQos(q) => capabilities.max_qos >= q,
            Requirement::RetainAvailable => capabilities.retain_available,
            Requirement::WildcardSubscriptionAvailable =>
                capabilities.wildcard_subscription_available,
            Requirement::SubscriptionIdentifierAvailable =>
                capabilities.subscription_identifier_available,
            Requirement::SharedSubscriptionAvailable => capabilities.shared_subscription_available,
            Requirement::EnhancedAuthMethod(method) => {
                let methods = &capabilities.enhanced_auth.methods;
                let mut i: usize = 0;
                while i < methods.len()
                    invariant
                        methods@ == capabilities.enhanced_auth.methods@,
                        self@ == RequirementView::EnhancedAuthMethod(method@),
                        i <= methods@.len(),
                        forall|j: int| 0 <= j < i ==> #[trigger] methods@[j]@ != method@,
                    decreases methods@.len() - i,
                {
                    if str_eq(methods[i].as_str(), method) {
                        assert(capabilities.enhanced_auth.methods@[i as int]@ == method@);
                        assert(has_method(capabilities.enhanced_auth.methods@, method@));
                        return true;
                    }
                    i = i + 1;
                }
                false
            },
            Requirement::HookRestart => capabilities.hooks.restart,
            Requirement::HookCleanup => capabilities.hooks.cleanup,
            Requirement::Acl => capabilities.acl,
            Requirement::StrictClientIdCharset => capabilities.strict_client_id_charset,
            Requirement::DollarSysPublish => capabilities.dollar_sys_publish,
        }
    }

    /// Returns a human-readable label for skip reasons.
    pub fn label(self) -> (s: String)
        ensures
            s@ == spec_label(self@),
    {
        match self {
            Requirement::TransportTcp => String::from_str("transport.tcp"),
            Requirement::TransportTls => String::from_str("transport.tls"),
            Requirement::TransportWebSocket => String::from_str("transport.websocket"),
            Requirement::TransportQuic => String::from_str("transport.quic"),
            Requirement::MinQos(q) => {
                let mut s = String::from_str("max_qos >= ");
                let digits = u8_to_decimal(q);
                s.append(digits.as_str());
                s
            },
            Requirement::RetainAvailable => String::from_str("retain_available"),
            Requirement::WildcardSubscriptionAvailable => String::from_str(
                "wildcard_subscription_available",
            ),
            Requirement::SubscriptionIdentifierAvailable => String::from_str(
                "subscription_identifier_available",
            ),
            Requirement::SharedSubscriptionAvailable => String::from_str(
                "shared_subscription_available",
            ),
            Requirement::EnhancedAuthMethod(method) => {
                let mut s = String::from_str("enhanced_auth.");
                s.append(method);
                s
            },
            Requirement::HookRestart => String::from_str("hooks.restart"),
            Requirement::HookCleanup => String::from_str("hooks.cleanup"),
            Requirement::Acl => String::from_str("acl"),
            Requirement::StrictClientIdCharset => String::from_str("strict_client_id_charset"),
            Requirement::DollarSysPublish => String::from_str("dollar_sys_publish"),
        }
    }

    /// Parses a string DSL form (as used in `#[conformance_test(requires = [...])]`)
    /// into a [`Requirement`]; the unrecognised spec string is the error.
    pub fn from_spec(spec: &'static str) -> (r: Result<Self, &'static str>)
        ensures
            match r {
                Ok(req) => spec_from_spec(spec@) == Some(req@),
                Err(e) => spec_from_spec(spec@) is None && e@ == spec@,
            },
    {
        if let Some(rest) = str_strip_prefix(spec, "max_qos>=") {
            if str_eq(rest, "0") {
                return Ok(Requirement::MinQos(0));
            } else if str_eq(rest, "1") {
                return Ok(Requirement::MinQos(1));
            } else if str_eq(rest, "2") {
                return Ok(Requirement::MinQos(2));
            } else {
                return Err(spec);
            }
        }
        if let Some(method) = str_strip_prefix(spec, "enhanced_auth.") {
            return Ok(Requirement::EnhancedAuthMethod(method));
        }
        if str_eq(spec, "transport.tcp") {
            Ok(Requirement::TransportTcp)
        } else if str_eq(spec, "transport.tls") {
            Ok(Requirement::TransportTls)
        } else if str_eq(spec, "transport.websocket") {
            Ok(Requirement::TransportWebSocket)
        } else if str_eq(spec, "transport.quic") {
            Ok(Requirement::TransportQuic)
        } else if str_eq(spec, "retain_available") {
            Ok(Requirement::RetainAvailable)
        } else if str_eq(spec, "wildcard_subscription_available") {
            Ok(Requirement::WildcardSubscriptionAvailable)
        } else if str_eq(spec, "subscription_identifier_available") {
            Ok(Requirement::SubscriptionIdentifierAvailable)
        } else if str_eq(spec, "shared_subscription_available") {
            Ok(Requirement::SharedSubscriptionAvailable)
        } else if str_eq(spec, "hooks.restart") {
            Ok(Requirement::HookRestart)
        } else if str_eq(spec, "hooks.cleanup") {
            Ok(Requirement::HookCleanup)
        } else if str_eq(spec, "acl") {
            Ok(Requirement::Acl)
        } else if str_eq(spec, "strict_client_id_charset") {
            Ok(Requirement::StrictClientIdCharset)
        } else if str_eq(spec, "dollar_sys_publish") {
            Ok(Requirement::DollarSysPublish)
        } else {
            Err(spec)
        }
    }
}

/// The label of every requirement other than a minimum QoS is a spec string
/// that names that same requirement. (A minimum-QoS label, `max_qos >= N`,
/// is spaced for reading and names none.)
#[verifier::spinoff_prover]
pub proof fn law_label_names_requirement(r: RequirementView)
    requires
        !(r is MinQos),
    ensures
        spec_from_spec(spec_label(r)) == Some(r),
{
    reveal_strlit("max_qos>=");
    reveal_strlit("enhanced_auth.");
    reveal_strlit("transport.tcp");
    reveal_strlit("transport.tls");
    reveal_strlit("transport.websocket");
    reveal_strlit("transport.quic");
    reveal_strlit("retain_available");
    reveal_strlit("wildcard_subscription_available");
    reveal_strlit("subscription_identifier_available");
    reveal_strlit("shared_subscription_available");
    reveal_strlit("hooks.restart");
    reveal_strlit("hooks.cleanup");
    reveal_strlit("acl");
    reveal_strlit("strict_client_id_charset");
    reveal_strlit("dollar_sys_publish");
    let l = spec_label(r);
    match r {
        RequirementView::EnhancedAuthMethod(m) => {
            assert(l.subrange(0, 14) =~= "enhanced_auth."@);
            assert(!spec_starts_with(l, "max_qos>="@)) by {
                assert(l.subrange(0, 9)[0] == l[0]);
            }
            assert(l.subrange("enhanced_auth."@.len() as int, l.len() as int) =~= m);
        },
        _ => {
            assert(!spec_starts_with(l, "max_qos>="@)) by {
                if l.len() >= 9 {
                    assert(l.subrange(0, 9)[0] == l[0]);
                }
            }
            assert(!spec_starts_with(l, "enhanced_auth."@)) by {
                if l.len() >= 14 {
                    assert(l.subrange(0, 14)[0] == l[0]);
                    assert(l.subrange(0, 14)[1] == l[1]);
                }
            }
            if r is TransportTls {
                assert(l[11] != "transport.tcp"@[11]);
            }
            if r is HookRestart || r is HookCleanup {
                assert(l[0] != "transport.tcp"@[0]);
                assert(l[0] != "transport.tls"@[0]);
            }
            if r is HookCleanup {
                assert(l[6] != "hooks.restart"@[6]);
            }
        },
    }
}

/// Distinct digits have distinct characters.
proof fn lemma_digit_char_injective(a: nat, b: nat)
    requires
        a < 10,
        b < 10,
        digit_char(a) == digit_char(b),
    ensures
        a == b,
{
}

/// Distinct numbers have distinct decimal digits.
proof fn lemma_decimal_injective(a: nat, b: nat)
    requires
        decimal(a) == decimal(b),
    ensures
        a == b,
    decreases a,
{
    lemma_decimal_len(a / 10);
    lemma_decimal_len(b / 10);
    if a < 10 && b < 10 {
        assert(decimal(a)[0] == digit_char(a));
        assert(decimal(b)[0] == digit_char(b));
        lemma_digit_char_injective(a, b);
    } else if a >= 10 && b >= 10 {
        let da = decimal(a);
        assert(da.last() == digit_char(a % 10));
        assert(decimal(b).last() == digit_char(b % 10));
        lemma_digit_char_injective(a % 10, b % 10);
        assert(decimal(a / 10) =~= da.drop_last());
        assert(decimal(b / 10) =~= decimal(b).drop_last());
        lemma_decimal_injective(a / 10, b / 10);
    } else if a < 10 {
        assert(decimal(a).len() == 1);
        assert(decimal(b) == decimal(b / 10).push(digit_char(b % 10)));
    } else {
        assert(decimal(b).len() == 1);
        assert(decimal(a) == decimal(a / 10).push(digit_char(a % 10)));
    }
}

/// Decimal digits are never empty.
proof fn lemma_decimal_len(n: nat)
    ensures
        decimal(n).len() >= 1,
    decreases n,
{
    if n >= 10 {
        lemma_decimal_len(n / 10);
    }
}

/// A minimum-QoS label is no spec string.
proof fn lemma_min_qos_label_unparsable(q: u8)
    ensures
        spec_from_spec(spec_label(RequirementView::MinQos(q))) is None,
{
    reveal_strlit("max_qos >= ");
    reveal_strlit("max_qos>=");
    reveal_strlit("enhanced_auth.");
    reveal_strlit("transport.tcp");
    reveal_strlit("transport.tls");
    reveal_strlit("transport.websocket");
    reveal_strlit("transport.quic");
    reveal_strlit("retain_available");
    reveal_strlit("wildcard_subscription_available");
    reveal_strlit("subscription_identifier_available");
    reveal_strlit("shared_subscription_available");
    reveal_strlit("hooks.restart");
    reveal_strlit("hooks.cleanup");
    reveal_strlit("acl");
    reveal_strlit("strict_client_id_charset");
    reveal_strlit("dollar_sys_publish");
    lemma_decimal_len(q as nat);
    let l = spec_label(RequirementView::MinQos(q));
    assert(l[0] == 'm');
    assert(l[7] == ' ');
    assert(!spec_starts_with(l, "max_qos>="@)) by {
        assert(l.subrange(0, 9)[7] == l[7]);
    }
    assert(!spec_starts_with(l, "enhanced_auth."@)) by {
        if l.len() >= 14 {
            assert(l.subrange(0, 14)[0] == l[0]);
        }
    }
}

/// Distinct requirements have distinct labels, so skip reports never merge
/// two requirements under one label.
pub proof fn law_labels_distinct(r1: RequirementView, r2: RequirementView)
    requires
        r1 != r2,
    ensures
        spec_label(r1) != spec_label(r2),
{
    if spec_label(r1) == spec_label(r2) {
        match (r1, r2) {
            (RequirementView::MinQos(a), RequirementView::MinQos(b)) => {
                reveal_strlit("max_qos >= ");
                let n = "max_qos >= "@.len() as int;
                let l = spec_label(r1);
                assert(decimal(a as nat) =~= l.subrange(n, l.len() as int));
                assert(decimal(b as nat) =~= spec_label(r2).subrange(n, l.len() as int));
                lemma_decimal_injective(a as nat, b as nat);
            },
            (RequirementView::MinQos(a), _) => {
                lemma_min_qos_label_unparsable(a);
                law_label_names_requirement(r2);
            },
            (_, RequirementView::MinQos(b)) => {
                lemma_min_qos_label_unparsable(b);
                law_label_names_requirement(r1);
            },
            _ => {
                law_label_names_requirement(r1);
                law_label_names_requirement(r2);
            },
        }
    }
}

/// Each requirement holds exactly when the capability it names is declared:
/// a transport, hook or feature requirement is its flag, a minimum QoS holds
/// when the declared maximum reaches it, and an authentication method holds
/// when it is among the declared methods.
pub proof fn law_requirement_matches_its_capability(caps: Capabilities, q: u8, m: Seq<char>)
    ensures
        spec_matches(RequirementView::TransportTcp, caps) == caps.transports.tcp,
        spec_matches(RequirementView::TransportTls, caps) == caps.transports.tls,
        spec_matches(RequirementView::TransportWebSocket, caps) == caps.transports.websocket,
        spec_matches(RequirementView::TransportQuic, caps) == caps.transports.quic,
        spec_matches(RequirementView::MinQos(q), caps) <==> q <= caps.max_qos,
        spec_matches(RequirementView::RetainAvailable, caps) == caps.retain_available,
        spec_matches(RequirementView::WildcardSubscriptionAvailable, caps)
            == caps.wildcard_subscription_available,
        spec_matches(RequirementView::SubscriptionIdentifierAvailable, caps)
            == caps.subscription_identifier_available,
        spec_matches(RequirementView::SharedSubscriptionAvailable, caps)
            == caps.shared_subscription_available,
        spec_matches(RequirementView::EnhancedAuthMethod(m), caps) <==> exists|i: int|
            0 <= i < caps.enhanced_auth.methods@.len() && #[trigger] caps.enhanced_auth.methods@[i]@
                == m,
        spec_matches(RequirementView::HookRestart, caps) == caps.hooks.restart,
        spec_matches(RequirementView::HookCleanup, caps) == caps.hooks.cleanup,
        spec_matches(RequirementView::Acl, caps) == caps.acl,
        spec_matches(RequirementView::StrictClientIdCharset, caps) == caps.strict_client_id_charset,
        spec_matches(RequirementView::DollarSysPublish, caps) == caps.dollar_sys_publish,
{
}

} // verus!
