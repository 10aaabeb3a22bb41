//! The decisions the WASI broker makes for one connected client: which
//! CONNECT, PUBLISH, SUBSCRIBE and AUTH packets it accepts and what it
//! answers, and the QoS state it keeps between packets (publishes held for
//! PUBREL, publishes forwarded and not yet acknowledged, packet identifier
//! allocation).
//!
//! The broker's routing, storage and authentication services, and the
//! connection itself, stay with the caller: each function takes what they
//! reported and says what to do next.
use crate::capabilities::{decimal, u32_to_decimal};
use crate::error_classification::{MqttError, ReasonCode};
use crate::qos::{next_id, next_packet_id_after, success_ack, Ack, AckKind, QoS};
use crate::text::{spec_contains, spec_starts_with, str_contains, str_eq, str_starts_with};
use std::collections::{HashMap, HashSet};
use vstd::prelude::*;

verus! {

broadcast use vstd::std_specs::hash::group_hash_axioms;

// ---------------------------------------------------------------------------
// CONNECT
// ---------------------------------------------------------------------------
/// A refused CONNECT: the reason code of the CONNACK to send and the error
/// that ends the connection.
#[derive(Debug, Clone)]
pub struct ConnectRejection {
    pub reason_code: ReasonCode,
    pub error: MqttError,
    /// The server the client is sent to instead, for a redirect.
    pub server_reference: Option<String>,
}

/// `e` is the protocol error with message `m`.
pub open spec fn is_protocol_error(e: MqttError, m: Seq<char>) -> bool {
    e matches MqttError::ProtocolError(s) && s@ == m
}

/// `rej` refuses the CONNECT with a CONNACK carrying `code` and the
/// protocol error with message `m`.
pub open spec fn is_connect_rejection(rej: ConnectRejection, code: ReasonCode, m: Seq<char>) -> bool {
    rej.reason_code == code && is_protocol_error(rej.error, m) && rej.server_reference is None
}

/// The protocol versions the broker serves: 4 (v3.1.1) and 5 (v5.0).
pub fn check_connect_version(protocol_version: u8) -> (r: Result<(), ConnectRejection>)
    ensures
        r is Ok <==> (protocol_version == 4 || protocol_version == 5),
        r matches Err(rej) ==> is_connect_rejection(
            rej,
            ReasonCode::UnsupportedProtocolVersion,
            "Unsupported protocol version"@,
        ),
{
    if protocol_version == 4 || protocol_version == 5 {
        Ok(())
    } else {
        Err(
            ConnectRejection {
                reason_code: ReasonCode::UnsupportedProtocolVersion,
                error: MqttError::ProtocolError(String::from_str("Unsupported protocol version")),
                server_reference: None,
            },
        )
    }
}

/// The identifier the broker generates for the `counter`-th client that
/// connects with an empty client id.
pub open spec fn generated_client_id(counter: u32) -> Seq<char> {
    "wasi-auto-"@ + decimal(counter as nat)
}

/// The client id a connection proceeds with, and the id to report back as
/// assigned: an empty client id is replaced by a generated one.
pub fn assign_client_id(client_id: &str, counter: u32) -> (r: (String, Option<String>))
    ensures
        client_id@.len() == 0 ==> r.0@ == generated_client_id(counter) && (r.1 matches Some(a)
            && a@ == r.0@),
        client_id@.len() > 0 ==> r.0@ == client_id@ && r.1 is None,
{
    if client_id.unicode_len() == 0 {
        let mut id = String::from_str("wasi-auto-");
        let digits = u32_to_decimal(counter);
        id.append(digits.as_str());
        let assigned = id.clone();
        (id, Some(assigned))
    } else {
        (client_id.to_string(), None)
    }
}

/// The first checks on a CONNECT, in order: the protocol version, then the
/// backend a load balancer picked for the client, if any, to which the
/// client is redirected with "use another server".
pub fn check_connect_preflight(protocol_version: u8, redirect_backend: Option<&str>) -> (r: Result<
    (),
    ConnectRejection,
>)
    ensures
        !(protocol_version == 4 || protocol_version == 5) ==> (r matches Err(rej)
            && is_connect_rejection(
            rej,
            ReasonCode::UnsupportedProtocolVersion,
            "Unsupported protocol version"@,
        )),
        (protocol_version == 4 || protocol_version == 5) ==> match redirect_backend {
            None => r is Ok,
            Some(b) => r matches Err(rej) && rej.reason_code == ReasonCode::UseAnotherServer
                && rej.error is UseAnotherServer && (rej.server_reference matches Some(s) && s@
                == b@),
        },
{
    check_connect_version(protocol_version)?;
    match redirect_backend {
        None => Ok(()),
        Some(b) => Err(
            ConnectRejection {
                reason_code: ReasonCode::UseAnotherServer,
                error: MqttError::UseAnotherServer,
                server_reference: Some(b.to_string()),
            },
        ),
    }
}

/// How a CONNECT that passed its first checks is authenticated.
#[derive(Debug, Clone, Copy, PartialEq, Eq, Structural)]
pub enum AuthRoute {
    /// Enhanced authentication with the method the CONNECT names.
    Enhanced,
    /// Plain authentication of the CONNECT.
    Plain,
}

/// The next step for a CONNECT whose client id (after assignment) is
/// `client_id`: an id that is not safe to use as a path is refused with
/// "client identifier not valid"; a v5.0 CONNECT naming an authentication
/// method, to a broker that supports enhanced authentication, goes through
/// it; every other one is authenticated plainly.
pub fn route_connect_auth(
    protocol_version: u8,
    client_id: &str,
    client_id_path_safe: bool,
    auth_method_present: bool,
    supports_enhanced_auth: bool,
) -> (r: Result<AuthRoute, ConnectRejection>)
    ensures
        !client_id_path_safe ==> (r matches Err(rej) && rej.reason_code
            == ReasonCode::ClientIdentifierNotValid && rej.server_reference is None
            && (rej.error matches MqttError::InvalidClientId(id) && id@ == client_id@)),
        client_id_path_safe ==> r == Ok::<AuthRoute, ConnectRejection>(
            if protocol_version == 5 && auth_method_present && supports_enhanced_auth {
                AuthRoute::Enhanced
            } else {
                AuthRoute::Plain
            },
        ),
{
    if !client_id_path_safe {
        return Err(
            ConnectRejection {
                reason_code: ReasonCode::ClientIdentifierNotValid,
                error: MqttError::InvalidClientId(client_id.to_string()),
                server_reference: None,
            },
        );
    }
    if protocol_version == 5 && auth_method_present && supports_enhanced_auth {
        Ok(AuthRoute::Enhanced)
    } else {
        Ok(AuthRoute::Plain)
    }
}

/// What the broker reads of a CONNECT's will: its QoS and retain flag.
#[derive(Debug, Clone, Copy, PartialEq, Eq, Structural)]
pub struct WillSummary {
    pub qos: QoS,
    pub retain: bool,
}

/// Checks a will against what the broker supports: its QoS may not exceed
/// `maximum_qos`, and it may be retained only when retain is available.
pub fn validate_will_capabilities(
    will: Option<WillSummary>,
    maximum_qos: u8,
    retain_available: bool,
) -> (r: Result<(), ConnectRejection>)
    ensures
        match will {
            None => r is Ok,
            Some(w) => if w.qos.spec_level() > maximum_qos {
                r matches Err(rej) && is_connect_rejection(
                    rej,
                    ReasonCode::QoSNotSupported,
                    "Will QoS exceeds server maximum"@,
                )
            } else if w.retain && !retain_available {
                r matches Err(rej) && is_connect_rejection(
                    rej,
                    ReasonCode::RetainNotSupported,
                    "Retain not supported"@,
                )
            } else {
                r is Ok
            },
        },
{
    match will {
        None => Ok(()),
        Some(w) => {
            if w.qos.level() > maximum_qos {
                Err(
                    ConnectRejection {
                        reason_code: ReasonCode::QoSNotSupported,
                        error: MqttError::ProtocolError(
                            String::from_str("Will QoS exceeds server maximum"),
                        ),
                        server_reference: None,
                    },
                )
            } else if w.retain && !retain_available {
                Err(
                    ConnectRejection {
                        reason_code: ReasonCode::RetainNotSupported,
                        error: MqttError::ProtocolError(String::from_str("Retain not supported")),
                        server_reference: None,
                    },
                )
            } else {
                Ok(())
            }
        },
    }
}

/// The checks on a plainly authenticated CONNECT, in order: an
/// unauthenticated client is refused with the authenticator's reason code,
/// then the will is checked against what the broker supports.
pub fn check_plain_connect(
    authenticated: bool,
    auth_reason_code: ReasonCode,
    will: Option<WillSummary>,
    maximum_qos: u8,
    retain_available: bool,
) -> (r: Result<(), ConnectRejection>)
    ensures
        !authenticated ==> (r matches Err(rej) && rej.reason_code == auth_reason_code
            && rej.error is AuthenticationFailed && rej.server_reference is None),
        authenticated ==> match will {
            None => r is Ok,
            Some(w) => if w.qos.spec_level() > maximum_qos {
                r matches Err(rej) && is_connect_rejection(
                    rej,
                    ReasonCode::QoSNotSupported,
                    "Will QoS exceeds server maximum"@,
                )
            } else if w.retain && !retain_available {
                r matches Err(rej) && is_connect_rejection(
                    rej,
                    ReasonCode::RetainNotSupported,
                    "Retain not supported"@,
                )
            } else {
                r is Ok
            },
        },
{
    if !authenticated {
        return Err(
            ConnectRejection {
                reason_code: auth_reason_code,
                error: MqttError::AuthenticationFailed,
                server_reference: None,
            },
        );
    }
    validate_will_capabilities(will, maximum_qos, retain_available)
}

/// The broker limits that a CONNACK advertises.
#[derive(Debug, Clone, Copy, PartialEq, Eq, Structural)]
pub struct BrokerLimits {
    pub session_expiry_secs: u64,
    pub maximum_qos: u8,
    pub retain_available: bool,
    pub max_packet_size: usize,
    pub topic_alias_maximum: u16,
    pub wildcard_subscription_available: bool,
    pub subscription_identifier_available: bool,
    pub shared_subscription_available: bool,
}

/// The capability properties of a v5.0 CONNACK.
#[derive(Debug, Clone, Copy, PartialEq, Eq, Structural)]
pub struct ConnAckCapabilities {
    pub session_expiry_interval: u32,
    /// Present only when the broker supports less than QoS 2.
    pub maximum_qos: Option<u8>,
    pub retain_available: bool,
    pub maximum_packet_size: u32,
    pub topic_alias_maximum: u16,
    pub wildcard_subscription_available: bool,
    pub subscription_identifier_available: bool,
    pub shared_subscription_available: bool,
}

/// `v`, or `u32::MAX` when it does not fit in a `u32`.
pub open spec fn saturate_u32(v: int) -> u32 {
    if v > u32::MAX {
        u32::MAX
    } else {
        v as u32
    }
}

/// The capability properties the broker puts in a v5.0 CONNACK: its limits,
/// with the intervals and sizes saturated to 32 bits and the maximum QoS
/// given only when it is below 2.
pub fn server_capability_properties(limits: &BrokerLimits) -> (c: ConnAckCapabilities)
    ensures
        c == (ConnAckCapabilities {
            session_expiry_interval: saturate_u32(limits.session_expiry_secs as int),
            maximum_qos: if limits.maximum_qos < 2 {
                Some(limits.maximum_qos)
            } else {
                None
            },
            retain_available: limits.retain_available,
            maximum_packet_size: saturate_u32(limits.max_packet_size as int),
            topic_alias_maximum: limits.topic_alias_maximum,
            wildcard_subscription_available: limits.wildcard_subscription_available,
            subscription_identifier_available: limits.subscription_identifier_available,
            shared_subscription_available: limits.shared_subscription_available,
        }),
{
    let session_expiry_interval: u32 = if limits.session_expiry_secs > 4294967295u64 {
        4294967295u32
    } else {
        limits.session_expiry_secs as u32
    };
    let maximum_packet_size: u32 = if limits.max_packet_size as u64 > 4294967295u64 {
        4294967295u32
    } else {
        limits.max_packet_size as u32
    };
    ConnAckCapabilities {
        session_expiry_interval,
        maximum_qos: if limits.maximum_qos < 2 {
            Some(limits.maximum_qos)
        } else {
            None
        },
        retain_available: limits.retain_available,
        maximum_packet_size,
        topic_alias_maximum: limits.topic_alias_maximum,
        wildcard_subscription_available: limits.wildcard_subscription_available,
        subscription_identifier_available: limits.subscription_identifier_available,
        shared_subscription_available: limits.shared_subscription_available,
    }
}

/// Whether a DISCONNECT with reason `reason_code` is a normal one, after
/// which the will is discarded: every reason but "disconnect with will
/// message" is.
pub fn is_normal_disconnect(reason_code: ReasonCode) -> (r: bool)
    ensures
        r == (reason_code != ReasonCode::DisconnectWithWillMessage),
{
    reason_code != ReasonCode::DisconnectWithWillMessage
}

/// How the session of an accepted CONNECT is set up.
#[derive(Debug, Clone, Copy, PartialEq, Eq, Structural)]
pub enum SessionPlan {
    /// Clean start: drop any stored session, its queued and in-flight
    /// messages, and start a new one.
    DiscardAndCreate,
    /// No stored session to resume: start a new one.
    Create,
    /// Resume the stored session.
    Resume,
}

/// The session set-up for a CONNECT with clean-start flag `clean_start`,
/// given whether a session is stored for its client id. The CONNACK's
/// session-present flag is set exactly when the session is resumed.
pub fn plan_session(clean_start: bool, stored_session_exists: bool) -> (r: SessionPlan)
    ensures
        r == if clean_start {
            SessionPlan::DiscardAndCreate
        } else if stored_session_exists {
            SessionPlan::Resume
        } else {
            SessionPlan::Create
        },
{
    if clean_start {
        SessionPlan::DiscardAndCreate
    } else if stored_session_exists {
        SessionPlan::Resume
    } else {
        SessionPlan::Create
    }
}

/// Whether a new session outlives its connection: every session expiry
/// interval but an explicit 0 keeps it.
pub fn session_persists(session_expiry_interval: Option<u32>) -> (r: bool)
    ensures
        r == (session_expiry_interval != Some(0u32)),
{
    match session_expiry_interval {
        Some(0) => false,
        _ => true,
    }
}

/// Checks that a stored session is resumed by the user who owns it; a
/// different user is refused as not authorized.
pub fn check_session_owner(stored_user: Option<&str>, current_user: Option<&str>) -> (r: Result<
    (),
    ConnectRejection,
>)
    ensures
        r is Ok <==> match (stored_user, current_user) {
            (None, None) => true,
            (Some(a), Some(b)) => a@ == b@,
            _ => false,
        },
        r matches Err(rej) ==> rej.reason_code == ReasonCode::NotAuthorized
            && rej.error is AuthenticationFailed && rej.server_reference is None,
{
    let same = match (stored_user, current_user) {
        (None, None) => true,
        (Some(a), Some(b)) => str_eq(a, b),
        _ => false,
    };
    if same {
        Ok(())
    } else {
        Err(
            ConnectRejection {
                reason_code: ReasonCode::NotAuthorized,
                error: MqttError::AuthenticationFailed,
                server_reference: None,
            },
        )
    }
}

/// When the will of a client that went away without a normal DISCONNECT is
/// published.
#[derive(Debug, Clone, Copy, PartialEq, Eq, Structural)]
pub enum WillTiming {
    /// At once.
    Immediate,
    /// After this many seconds.
    Delayed(u32),
}

/// The timing of a will with delay interval `delay`: a positive delay
/// postpones it, none or 0 publishes it at once.
pub fn will_timing(delay: Option<u32>) -> (r: WillTiming)
    ensures
        r == match delay {
            Some(d) => if d > 0 {
                WillTiming::Delayed(d)
            } else {
                WillTiming::Immediate
            },
            None => WillTiming::Immediate,
        },
{
    match delay {
        Some(d) => {
            if d > 0 {
                WillTiming::Delayed(d)
            } else {
                WillTiming::Immediate
            }
        },
        None => WillTiming::Immediate,
    }
}

// ---------------------------------------------------------------------------
// Enhanced authentication
// ---------------------------------------------------------------------------
/// Where a connection stands in enhanced authentication.
#[derive(Debug, Clone, Copy, PartialEq, Eq, Structural)]
pub enum AuthState {
    NotStarted,
    InProgress,
    Completed,
}

/// The verdict of one step of enhanced authentication.
#[derive(Debug, Clone, Copy, PartialEq, Eq, Structural)]
pub enum EnhancedAuthStatus {
    Success,
    Continue,
    Failed,
}

/// A refused AUTH packet: whether to send a DISCONNECT with reason
/// "protocol error" first, and the error that ends the connection.
#[derive(Debug, Clone)]
pub struct AuthRejection {
    pub send_protocol_error_disconnect: bool,
    pub error: MqttError,
}

/// `rej` ends the connection with the protocol error with message `m`,
/// after a DISCONNECT when `disconnect` holds.
pub open spec fn is_auth_rejection(rej: AuthRejection, disconnect: bool, m: Seq<char>) -> bool {
    rej.send_protocol_error_disconnect == disconnect && is_protocol_error(rej.error, m)
}

/// Checks an AUTH packet that continues authentication: the connection must
/// be in the middle of enhanced authentication, with a method chosen, and
/// the packet must name the same method (a packet without a method names
/// the empty one).
pub fn check_continue_auth(
    state: AuthState,
    auth_method: Option<&str>,
    packet_method: Option<&str>,
) -> (r: Result<(), AuthRejection>)
    ensures
        state != AuthState::InProgress ==> (r matches Err(rej) && is_auth_rejection(
            rej,
            true,
            "AUTH received outside of auth flow"@,
        )),
        state == AuthState::InProgress && auth_method is None ==> (r matches Err(rej)
            && is_auth_rejection(rej, false, "No auth method set"@)),
        state == AuthState::InProgress && auth_method is Some ==> ({
            let expected = auth_method->0@;
            let given = match packet_method {
                Some(p) => p@,
                None => Seq::<char>::empty(),
            };
            if given == expected {
                r is Ok
            } else {
                r matches Err(rej) && is_auth_rejection(rej, true, "AUTH method mismatch"@)
            }
        }),
{
    if state != AuthState::InProgress {
        return Err(
            AuthRejection {
                send_protocol_error_disconnect: true,
                error: MqttError::ProtocolError(
                    String::from_str("AUTH received outside of auth flow"),
                ),
            },
        );
    }
    let expected = match auth_method {
        Some(m) => m,
        None => {
            return Err(
                AuthRejection {
                    send_protocol_error_disconnect: false,
                    error: MqttError::ProtocolError(String::from_str("No auth method set")),
                },
            );
        },
    };
    let given = match packet_method {
        Some(p) => p,
        None => "",
    };
    proof {
        reveal_strlit("");
        assert(""@ =~= Seq::<char>::empty());
    }
    if str_eq(given, expected) {
        Ok(())
    } else {
        Err(
            AuthRejection {
                send_protocol_error_disconnect: true,
                error: MqttError::ProtocolError(String::from_str("AUTH method mismatch")),
            },
        )
    }
}

/// Checks an AUTH packet that asks for re-authentication: the first
/// authentication must be complete and the packet must name a method.
pub fn check_reauth(state: AuthState, packet_method: Option<&str>) -> (r: Result<(), AuthRejection>)
    ensures
        state != AuthState::Completed ==> (r matches Err(rej) && is_auth_rejection(
            rej,
            true,
            "Re-auth before initial auth"@,
        )),
        state == AuthState::Completed && packet_method is None ==> (r matches Err(rej)
            && is_auth_rejection(rej, true, "Re-auth missing method"@)),
        state == AuthState::Completed && packet_method is Some ==> r is Ok,
{
    if state != AuthState::Completed {
        Err(
            AuthRejection {
                send_protocol_error_disconnect: true,
                error: MqttError::ProtocolError(String::from_str("Re-auth before initial auth")),
            },
        )
    } else if packet_method.is_none() {
        Err(
            AuthRejection {
                send_protocol_error_disconnect: true,
                error: MqttError::ProtocolError(String::from_str("Re-auth missing method")),
            },
        )
    } else {
        Ok(())
    }
}

/// The packet the broker answers an enhanced-authentication step of a
/// CONNECT with.
#[derive(Debug, Clone, Copy, PartialEq, Eq, Structural)]
pub enum AuthReply {
    /// A CONNACK with this reason code.
    ConnAck(ReasonCode),
    /// An AUTH packet with this reason code.
    Auth(ReasonCode),
    /// A DISCONNECT with this reason code.
    Disconnect(ReasonCode),
}

/// The authentication state after a step of the CONNECT's enhanced
/// authentication ended with `status`, and the packet to answer with:
/// success completes it with a successful CONNACK, continue asks for the
/// next step with AUTH, and failure restarts it and refuses the CONNECT
/// with the reason `failure_reason`.
pub fn connect_auth_step(status: EnhancedAuthStatus, state: AuthState, failure_reason: ReasonCode)
    -> (r: (AuthState, AuthReply))
    ensures
        r == match status {
            EnhancedAuthStatus::Success => (AuthState::Completed, AuthReply::ConnAck(ReasonCode::Success)),
            EnhancedAuthStatus::Continue => (
                state,
                AuthReply::Auth(ReasonCode::ContinueAuthentication),
            ),
            EnhancedAuthStatus::Failed => (AuthState::NotStarted, AuthReply::ConnAck(failure_reason)),
        },
{
    match status {
        EnhancedAuthStatus::Success => (AuthState::Completed, AuthReply::ConnAck(ReasonCode::Success)),
        EnhancedAuthStatus::Continue => (state, AuthReply::Auth(ReasonCode::ContinueAuthentication)),
        EnhancedAuthStatus::Failed => (AuthState::NotStarted, AuthReply::ConnAck(failure_reason)),
    }
}

/// The packet the broker answers a re-authentication step that ended with
/// `status`: AUTH with success or continue, or a DISCONNECT with the reason
/// `failure_reason`.
pub fn reauth_reply(status: EnhancedAuthStatus, failure_reason: ReasonCode) -> (r: AuthReply)
    ensures
        r == match status {
            EnhancedAuthStatus::Success => AuthReply::Auth(ReasonCode::Success),
            EnhancedAuthStatus::Continue => AuthReply::Auth(ReasonCode::ContinueAuthentication),
            EnhancedAuthStatus::Failed => AuthReply::Disconnect(failure_reason),
        },
{
    match status {
        EnhancedAuthStatus::Success => AuthReply::Auth(ReasonCode::Success),
        EnhancedAuthStatus::Continue => AuthReply::Auth(ReasonCode::ContinueAuthentication),
        EnhancedAuthStatus::Failed => AuthReply::Disconnect(failure_reason),
    }
}

// ---------------------------------------------------------------------------
// PUBLISH
// ---------------------------------------------------------------------------
/// Why an inbound PUBLISH is refused before its quota is checked: the client
/// is not allowed to publish to its topic, or its QoS exceeds the broker's
/// maximum.
pub fn publish_rejection(authorized: bool, qos: QoS, maximum_qos: u8) -> (r: Option<ReasonCode>)
    ensures
        r == if !authorized {
            Some(ReasonCode::NotAuthorized)
        } else if qos.spec_level() > maximum_qos {
            Some(ReasonCode::QoSNotSupported)
        } else {
            None
        },
{
    if !authorized {
        Some(ReasonCode::NotAuthorized)
    } else if qos.level() > maximum_qos {
        Some(ReasonCode::QoSNotSupported)
    } else {
        None
    }
}

/// The answer to a refused PUBLISH: PUBACK (QoS 1) or PUBREC (QoS 2) for its
/// identifier, carrying the reason; a QoS 0 publish, or one without an
/// identifier, gets no answer.
pub open spec fn spec_reject_reply(qos: QoS, packet_id: Option<u16>, reason_code: ReasonCode) -> Option<Ack> {
    match packet_id {
        None => None,
        Some(id) => match qos {
            QoS::AtMostOnce => None,
            QoS::AtLeastOnce => Some(Ack { kind: AckKind::PubAck, packet_id: id, reason_code }),
            QoS::ExactlyOnce => Some(Ack { kind: AckKind::PubRec, packet_id: id, reason_code }),
        },
    }
}

/// The answer to a refused PUBLISH.
pub fn reject_publish_reply(qos: QoS, packet_id: Option<u16>, reason_code: ReasonCode) -> (r:
    Option<Ack>)
    ensures
        r == spec_reject_reply(qos, packet_id, reason_code),
{
    match packet_id {
        None => None,
        Some(id) => match qos {
            QoS::AtMostOnce => None,
            QoS::AtLeastOnce => Some(Ack { kind: AckKind::PubAck, packet_id: id, reason_code }),
            QoS::ExactlyOnce => Some(Ack { kind: AckKind::PubRec, packet_id: id, reason_code }),
        },
    }
}

// ---------------------------------------------------------------------------
// SUBSCRIBE / UNSUBSCRIBE
// ---------------------------------------------------------------------------
/// The QoS granted for a subscription requesting `requested` from a broker
/// whose maximum is `maximum_qos`.
pub open spec fn spec_granted_qos(requested: QoS, maximum_qos: u8) -> QoS {
    if requested.spec_level() > maximum_qos {
        if maximum_qos == 0 {
            QoS::AtMostOnce
        } else {
            QoS::AtLeastOnce
        }
    } else {
        requested
    }
}

/// The QoS granted for a subscription: the requested one, lowered to the
/// broker's maximum.
pub fn resolve_granted_qos(requested: QoS, maximum_qos: u8) -> (r: QoS)
    ensures
        r.spec_level() == if requested.spec_level() > maximum_qos {
            maximum_qos
        } else {
            requested.spec_level()
        },
        r == spec_granted_qos(requested, maximum_qos),
{
    if requested.level() > maximum_qos {
        if maximum_qos == 0 {
            QoS::AtMostOnce
        } else {
            QoS::AtLeastOnce
        }
    } else {
        requested
    }
}

/// The SUBACK reason code for one topic filter.
#[derive(Debug, Clone, Copy, PartialEq, Eq, Structural)]
pub enum SubAckCode {
    GrantedQoS0,
    GrantedQoS1,
    GrantedQoS2,
    NotAuthorized,
    TopicFilterInvalid,
}

impl SubAckCode {
    /// The QoS the code grants, if it grants one.
    pub open spec fn spec_granted_qos(self) -> Option<QoS> {
        match self {
            SubAckCode::GrantedQoS0 => Some(QoS::AtMostOnce),
            SubAckCode::GrantedQoS1 => Some(QoS::AtLeastOnce),
            SubAckCode::GrantedQoS2 => Some(QoS::ExactlyOnce),
            _ => None,
        }
    }

    /// The QoS the code grants, if it grants one.
    pub fn granted_qos(self) -> (r: Option<QoS>)
        ensures
            r == self.spec_granted_qos(),
    {
        match self {
            SubAckCode::GrantedQoS0 => Some(QoS::AtMostOnce),
            SubAckCode::GrantedQoS1 => Some(QoS::AtLeastOnce),
            SubAckCode::GrantedQoS2 => Some(QoS::ExactlyOnce),
            _ => None,
        }
    }
}

/// The SUBACK code that grants `qos`.
pub open spec fn spec_suback_code(qos: QoS) -> SubAckCode {
    match qos {
        QoS::AtMostOnce => SubAckCode::GrantedQoS0,
        QoS::AtLeastOnce => SubAckCode::GrantedQoS1,
        QoS::ExactlyOnce => SubAckCode::GrantedQoS2,
    }
}

/// The SUBACK code that grants `qos`.
pub fn suback_code_for(qos: QoS) -> (c: SubAckCode)
    ensures
        c == spec_suback_code(qos),
        c == match qos {
            QoS::AtMostOnce => SubAckCode::GrantedQoS0,
            QoS::AtLeastOnce => SubAckCode::GrantedQoS1,
            QoS::ExactlyOnce => SubAckCode::GrantedQoS2,
        },
{
    match qos {
        QoS::AtMostOnce => SubAckCode::GrantedQoS0,
        QoS::AtLeastOnce => SubAckCode::GrantedQoS1,
        QoS::ExactlyOnce => SubAckCode::GrantedQoS2,
    }
}

/// The verdict on one topic filter of a SUBSCRIBE before authorization.
#[derive(Debug, Clone, Copy, PartialEq, Eq, Structural)]
pub enum FilterCheck {
    /// No Local on a shared subscription: a protocol error that ends the
    /// connection.
    ProtocolError,
    /// The filter is refused with "topic filter invalid".
    Invalid,
    /// The filter may be subscribed if the client is authorized.
    Proceed,
}

/// The verdict on a topic filter. `underlying_valid` says whether the
/// filter without its `$share/<group>/` prefix is a valid filter, and
/// `share_group` is the group named by that prefix, if it names one.
pub open spec fn spec_check_filter(
    filter: Seq<char>,
    no_local: bool,
    underlying_valid: bool,
    share_group: Option<Seq<char>>,
) -> FilterCheck {
    let shared = spec_starts_with(filter, "$share/"@);
    if no_local && shared {
        FilterCheck::ProtocolError
    } else if !underlying_valid {
        FilterCheck::Invalid
    } else if shared && (share_group is None || spec_contains(share_group->0, "+"@)
        || spec_contains(share_group->0, "#"@)) {
        FilterCheck::Invalid
    } else {
        FilterCheck::Proceed
    }
}

/// The verdict on one topic filter of a SUBSCRIBE.
pub fn check_subscribe_filter(
    filter: &str,
    no_local: bool,
    underlying_valid: bool,
    share_group: Option<&str>,
) -> (r: FilterCheck)
    ensures
        r == spec_check_filter(
            filter@,
            no_local,
            underlying_valid,
            match share_group {
                Some(g) => Some(g@),
                None => None,
            },
        ),
{
    let shared = str_starts_with(filter, "$share/");
    if no_local && shared {
        FilterCheck::ProtocolError
    } else if !underlying_valid {
        FilterCheck::Invalid
    } else if shared {
        match share_group {
            None => FilterCheck::Invalid,
            Some(group) => {
                if str_contains(group, "+") || str_contains(group, "#") {
                    FilterCheck::Invalid
                } else {
                    FilterCheck::Proceed
                }
            },
        }
    } else {
        FilterCheck::Proceed
    }
}

/// One topic filter of a SUBSCRIBE with what the broker's services reported
/// on it: whether the filter without its `$share/<group>/` prefix is valid,
/// the group that prefix names, and whether the client may subscribe to it
/// (read only for a filter that passes the other checks).
#[derive(Debug, Clone)]
pub struct FilterRequest {
    pub filter: String,
    pub no_local: bool,
    pub requested_qos: QoS,
    pub underlying_valid: bool,
    pub share_group: Option<String>,
    pub authorized: bool,
}

/// The SUBACK code for one filter, or `None` when the filter is a protocol
/// error that ends the connection.
pub open spec fn spec_filter_code(f: FilterRequest, maximum_qos: u8) -> Option<SubAckCode> {
    match spec_check_filter(
        f.filter@,
        f.no_local,
        f.underlying_valid,
        match f.share_group {
            Some(g) => Some(g@),
            None => None,
        },
    ) {
        FilterCheck::ProtocolError => None,
        FilterCheck::Invalid => Some(SubAckCode::TopicFilterInvalid),
        FilterCheck::Proceed => if f.authorized {
            Some(spec_suback_code(spec_granted_qos(f.requested_qos, maximum_qos)))
        } else {
            Some(SubAckCode::NotAuthorized)
        },
    }
}

/// The SUBACK reason codes for the filters of a SUBSCRIBE, one per filter
/// in order; a filter with No Local on a shared subscription instead ends
/// the connection with a protocol error.
pub fn subscribe_reason_codes(filters: &[FilterRequest], maximum_qos: u8) -> (r: Result<
    Vec<SubAckCode>,
    MqttError,
>)
    ensures
        r is Ok <==> forall|i: int|
            0 <= i < filters@.len() ==> #[trigger] spec_filter_code(filters@[i], maximum_qos) is Some,
        r matches Ok(codes) ==> codes@.len() == filters@.len() && forall|i: int|
            0 <= i < filters@.len() ==> Some(#[trigger] codes@[i]) == spec_filter_code(
                filters@[i],
                maximum_qos,
            ),
        r matches Err(e) ==> is_protocol_error(e, "NoLocal on shared subscription"@),
{
    let mut codes: Vec<SubAckCode> = Vec::new();
    let mut i: usize = 0;
    while i < filters.len()
        invariant
            i <= filters@.len(),
            codes@.len() == i,
            forall|j: int|
                0 <= j < i ==> Some(#[trigger] codes@[j]) == spec_filter_code(
                    filters@[j],
                    maximum_qos,
                ),
        decreases filters@.len() - i,
    {
        let f = &filters[i];
        let group = match &f.share_group {
            Some(g) => Some(g.as_str()),
            None => None,
        };
        let check = check_subscribe_filter(f.filter.as_str(), f.no_local, f.underlying_valid, group);
        let code = match check {
            FilterCheck::ProtocolError => {
                assert(spec_filter_code(filters@[i as int], maximum_qos) is None);
                return Err(MqttError::ProtocolError(String::from_str("NoLocal on shared subscription")));
            },
            FilterCheck::Invalid => SubAckCode::TopicFilterInvalid,
            FilterCheck::Proceed => {
                if f.authorized {
                    suback_code_for(resolve_granted_qos(f.requested_qos, maximum_qos))
                } else {
                    SubAckCode::NotAuthorized
                }
            },
        };
        codes.push(code);
        i = i + 1;
    }
    assert forall|j: int| 0 <= j < filters@.len() implies #[trigger] spec_filter_code(
        filters@[j],
        maximum_qos,
    ) is Some by {
        assert(Some(codes@[j]) == spec_filter_code(filters@[j], maximum_qos));
    }
    Ok(codes)
}

/// The UNSUBACK reason codes for the filters of an UNSUBSCRIBE, given
/// whether each one removed a subscription.
pub fn unsuback_reason_codes(removed: &[bool]) -> (r: Vec<ReasonCode>)
    ensures
        r@.len() == removed@.len(),
        forall|i: int|
            0 <= i < removed@.len() ==> #[trigger] r@[i] == if removed@[i] {
                ReasonCode::Success
            } else {
                ReasonCode::NoSubscriptionExisted
            },
{
    let mut r: Vec<ReasonCode> = Vec::new();
    let mut i: usize = 0;
    while i < removed.len()
        invariant
            i <= removed@.len(),
            r@.len() == i,
            forall|j: int|
                0 <= j < i ==> #[trigger] r@[j] == if removed@[j] {
                    ReasonCode::Success
                } else {
                    ReasonCode::NoSubscriptionExisted
                },
        decreases removed@.len() - i,
    {
        if removed[i] {
            r.push(ReasonCode::Success);
        } else {
            r.push(ReasonCode::NoSubscriptionExisted);
        }
        i = i + 1;
    }
    r
}

} // verus!
