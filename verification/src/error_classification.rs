//! Protocol errors and their classification into recoverable kinds, which
//! decide whether (and how slowly) a client retries a failed connection.
use crate::text::{spec_contains, str_contains};
use vstd::prelude::*;

verus! {

/// MQTT v5.0 reason codes (and the MQTT-over-QUIC extensions) that the
/// library reports or reacts to.
#[derive(Debug, Clone, Copy, PartialEq, Eq, Structural, Hash)]
pub enum ReasonCode {
    Success,
    NoSubscriptionExisted,
    ContinueAuthentication,
    ReAuthenticate,
    DisconnectWithWillMessage,
    UnspecifiedError,
    MalformedPacket,
    ProtocolError,
    ImplementationSpecificError,
    UnsupportedProtocolVersion,
    ClientIdentifierNotValid,
    BadUsernameOrPassword,
    NotAuthorized,
    ServerUnavailable,
    ServerBusy,
    Banned,
    ServerShuttingDown,
    BadAuthenticationMethod,
    KeepAliveTimeout,
    SessionTakenOver,
    TopicFilterInvalid,
    TopicNameInvalid,
    PacketIdentifierInUse,
    PacketIdentifierNotFound,
    ReceiveMaximumExceeded,
    TopicAliasInvalid,
    PacketTooLarge,
    MessageRateTooHigh,
    QuotaExceeded,
    AdministrativeAction,
    PayloadFormatInvalid,
    RetainNotSupported,
    QoSNotSupported,
    UseAnotherServer,
    ServerMoved,
    SharedSubscriptionsNotSupported,
    ConnectionRateExceeded,
    MaximumConnectTime,
    SubscriptionIdentifiersNotSupported,
    WildcardSubscriptionsNotSupported,
    MqoqNoFlowState,
    MqoqIncompletePacket,
    MqoqFlowOpenIdle,
    MqoqFlowCancelled,
    MqoqFlowPacketCancelled,
    MqoqFlowRefused,
}

/// Errors of the MQTT protocol layer.
#[derive(Debug, Clone)]
pub enum MqttError {
    ConnectionError(String),
    ConnectionRefused(ReasonCode),
    ConnectionClosedByPeer,
    ClientClosed,
    PacketIdExhausted,
    FlowControlExceeded,
    Timeout,
    ServerUnavailable,
    ServerBusy,
    QuotaExceeded,
    ServerShuttingDown,
    SessionExpired,
    NotConnected,
    AlreadyConnected,
    AuthenticationFailed,
    NotAuthorized,
    BadUsernameOrPassword,
    UseAnotherServer,
    InvalidClientId(String),
    ProtocolError(String),
    MalformedPacket(String),
    Io(String),
}

/// The kinds of failure after which a client may retry.
#[derive(Debug, Clone, Copy, PartialEq, Eq, Hash)]
pub enum RecoverableError {
    NetworkError,
    ServerUnavailable,
    QuotaExceeded,
    PacketIdExhausted,
    FlowControlLimited,
    SessionTakenOver,
    ServerShuttingDown,
    MqoqFlowRecoverable,
}

impl RecoverableError {
    /// How many times the base reconnect delay this kind of failure waits.
    pub open spec fn spec_base_delay_multiplier(self) -> u32 {
        match self {
            RecoverableError::QuotaExceeded => 10,
            RecoverableError::MqoqFlowRecoverable => 3,
            RecoverableError::FlowControlLimited => 2,
            _ => 1,
        }
    }

    /// The kinds that are retried unless configured otherwise.
    pub open spec fn spec_default_set() -> Seq<RecoverableError> {
        seq![
            RecoverableError::NetworkError,
            RecoverableError::ServerUnavailable,
            RecoverableError::QuotaExceeded,
            RecoverableError::PacketIdExhausted,
            RecoverableError::FlowControlLimited,
            RecoverableError::MqoqFlowRecoverable,
        ]
    }

    /// How many base delays to wait before retrying after this kind of failure.
    pub fn base_delay_multiplier(&self) -> (m: u32)
        ensures
            m == self.spec_base_delay_multiplier(),
    {
        match self {
            RecoverableError::QuotaExceeded => 10,
            RecoverableError::MqoqFlowRecoverable => 3,
            RecoverableError::FlowControlLimited => 2,
            _ => 1,
        }
    }

    /// The kinds of failure a client retries by default.
    pub fn default_set() -> (set: [Self; 6])
        ensures
            set@ == Self::spec_default_set(),
    {
        let set = [
            RecoverableError::NetworkError,
            RecoverableError::ServerUnavailable,
            RecoverableError::QuotaExceeded,
            RecoverableError::PacketIdExhausted,
            RecoverableError::FlowControlLimited,
            RecoverableError::MqoqFlowRecoverable,
        ];
        assert(set@ =~= Self::spec_default_set());
        set
    }
}

/// Messages that the AWS IoT service gives when it refuses a connection
/// for a per-account limit; such a failure must not be retried.
pub open spec fn spec_is_aws_iot_limit_error(msg: Seq<char>) -> bool {
    spec_contains(msg, "Connection reset by peer"@) || spec_contains(msg, "RST"@) || spec_contains(
        msg,
        "TCP RST"@,
    ) || spec_contains(msg, "reset by peer"@) || spec_contains(msg, "connection limit"@)
        || spec_contains(msg, "client limit"@)
}

/// Messages of transient network failures.
pub open spec fn spec_is_transient_network_message(msg: Seq<char>) -> bool {
    spec_contains(msg, "temporarily unavailable"@) || spec_contains(msg, "Connection refused"@)
        || spec_contains(msg, "Network is unreachable"@) || spec_contains(
        msg,
        "connection reset"@,
    ) || spec_contains(msg, "broken pipe"@) || spec_contains(msg, "timed out"@)
}

/// A connection error message is a network error when it names a transient
/// network failure and is not an AWS IoT limit.
pub open spec fn spec_classify_connection_error(msg: Seq<char>) -> Option<RecoverableError> {
    if spec_is_aws_iot_limit_error(msg) {
        None
    } else if spec_is_transient_network_message(msg) {
        Some(RecoverableError::NetworkError)
    } else {
        None
    }
}

/// The recoverable kind of a refused connection, by its reason code.
pub open spec fn spec_classify_connection_refused(reason: ReasonCode) -> Option<RecoverableError> {
    match reason {
        ReasonCode::ServerUnavailable | ReasonCode::ServerBusy => Some(
            RecoverableError::ServerUnavailable,
        ),
        ReasonCode::QuotaExceeded => Some(RecoverableError::QuotaExceeded),
        ReasonCode::SessionTakenOver => Some(RecoverableError::SessionTakenOver),
        ReasonCode::ServerShuttingDown => Some(RecoverableError::ServerShuttingDown),
        ReasonCode::MqoqIncompletePacket
        | ReasonCode::MqoqFlowOpenIdle
        | ReasonCode::MqoqFlowCancelled
        | ReasonCode::MqoqFlowPacketCancelled
        | ReasonCode::MqoqFlowRefused => Some(RecoverableError::MqoqFlowRecoverable),
        _ => None,
    }
}

impl MqttError {
    /// The recoverable kind of an error, or `None` when it must not be
    /// retried.
    pub open spec fn spec_classify(&self) -> Option<RecoverableError> {
        match self {
            MqttError::ConnectionError(msg) => spec_classify_connection_error(msg@),
            MqttError::ConnectionRefused(reason) => spec_classify_connection_refused(*reason),
            MqttError::PacketIdExhausted => Some(RecoverableError::PacketIdExhausted),
            MqttError::FlowControlExceeded => Some(RecoverableError::FlowControlLimited),
            MqttError::Timeout => Some(RecoverableError::NetworkError),
            MqttError::ServerUnavailable | MqttError::ServerBusy => Some(
                RecoverableError::ServerUnavailable,
            ),
            MqttError::QuotaExceeded => Some(RecoverableError::QuotaExceeded),
            MqttError::ServerShuttingDown => Some(RecoverableError::ServerShuttingDown),
            MqttError::SessionExpired => Some(RecoverableError::SessionTakenOver),
            _ => None,
        }
    }

    /// The recoverable kind of the error, or `None` when it must not be
    /// retried.
    pub fn classify(&self) -> (r: Option<RecoverableError>)
        ensures
            r == self.spec_classify(),
    {
        match self {
            MqttError::ConnectionError(msg) => classify_connection_error(msg.as_str()),
            MqttError::ConnectionRefused(reason) => classify_connection_refused(*reason),
            MqttError::PacketIdExhausted => Some(RecoverableError::PacketIdExhausted),
            MqttError::FlowControlExceeded => Some(RecoverableError::FlowControlLimited),
            MqttError::Timeout => Some(RecoverableError::NetworkError),
            MqttError::ServerUnavailable | MqttError::ServerBusy => Some(
                RecoverableError::ServerUnavailable,
            ),
            MqttError::QuotaExceeded => Some(RecoverableError::QuotaExceeded),
            MqttError::ServerShuttingDown => Some(RecoverableError::ServerShuttingDown),
            MqttError::SessionExpired => Some(RecoverableError::SessionTakenOver),
            _ => None,
        }
    }

    /// Whether this is a connection error that AWS IoT gives for a
    /// per-account limit.
    pub fn is_aws_iot_connection_limit(&self) -> (r: bool)
        ensures
            r == (match self {
                MqttError::ConnectionError(msg) => spec_is_aws_iot_limit_error(msg@),
                _ => false,
            }),
    {
        match self {
            MqttError::ConnectionError(msg) => is_aws_iot_limit_error(msg.as_str()),
            _ => false,
        }
    }
}

/// The recoverable kind of a connection error with message `msg`.
pub fn classify_connection_error(msg: &str) -> (r: Option<RecoverableError>)
    ensures
        r == spec_classify_connection_error(msg@),
        r is Some ==> r == Some(RecoverableError::NetworkError),
        r is Some <==> !(spec_contains(msg@, "Connection reset by peer"@) || spec_contains(
            msg@,
            "RST"@,
        ) || spec_contains(msg@, "TCP RST"@) || spec_contains(msg@, "reset by peer"@)
            || spec_contains(msg@, "connection limit"@) || spec_contains(msg@, "client limit"@))
            && (spec_contains(msg@, "temporarily unavailable"@) || spec_contains(
            msg@,
            "Connection refused"@,
        ) || spec_contains(msg@, "Network is unreachable"@) || spec_contains(
            msg@,
            "connection reset"@,
        ) || spec_contains(msg@, "broken pipe"@) || spec_contains(msg@, "timed out"@)),
{
    if is_aws_iot_limit_error(msg) {
        return None;
    }
    if str_contains(msg, "temporarily unavailable") || str_contains(msg, "Connection refused")
        || str_contains(msg, "Network is unreachable") || str_contains(msg, "connection reset")
        || str_contains(msg, "broken pipe") || str_contains(msg, "timed out") {
        return Some(RecoverableError::NetworkError);
    }
    None
}

/// Whether `msg` is one AWS IoT gives for a per-account limit.
pub fn is_aws_iot_limit_error(msg: &str) -> (r: bool)
    ensures
        r == spec_is_aws_iot_limit_error(msg@),
{
    str_contains(msg, "Connection reset by peer") || str_contains(msg, "RST") || str_contains(
        msg,
        "TCP RST",
    ) || str_contains(msg, "reset by peer") || str_contains(msg, "connection limit")
        || str_contains(msg, "client limit")
}

/// The recoverable kind of a connection refused with `reason`.
pub fn classify_connection_refused(reason: ReasonCode) -> (r: Option<RecoverableError>)
    ensures
        r == spec_classify_connection_refused(reason),
{
    match reason {
        ReasonCode::ServerUnavailable | ReasonCode::ServerBusy => Some(
            RecoverableError::ServerUnavailable,
        ),
        ReasonCode::QuotaExceeded => Some(RecoverableError::QuotaExceeded),
        ReasonCode::SessionTakenOver => Some(RecoverableError::SessionTakenOver),
        ReasonCode::ServerShuttingDown => Some(RecoverableError::ServerShuttingDown),
        ReasonCode::MqoqIncompletePacket
        | ReasonCode::MqoqFlowOpenIdle
        | ReasonCode::MqoqFlowCancelled
        | ReasonCode::MqoqFlowPacketCancelled
        | ReasonCode::MqoqFlowRefused => Some(RecoverableError::MqoqFlowRecoverable),
        _ => None,
    }
}

/// An error that AWS IoT gives for a per-account limit is never classified
/// as recoverable, whatever else its message says.
pub proof fn law_aws_iot_limit_not_recoverable(e: MqttError)
    ensures
        (match e {
            MqttError::ConnectionError(msg) => spec_is_aws_iot_limit_error(msg@),
            _ => false,
        }) ==> e.spec_classify() is None,
{
}

/// Every recoverable kind waits at least the base delay, and only quota,
/// flow-control and MQoQ failures wait longer.
pub proof fn law_delay_multiplier_at_least_one(k: RecoverableError)
    ensures
        k.spec_base_delay_multiplier() >= 1,
        k.spec_base_delay_multiplier() > 1 <==> (k == RecoverableError::QuotaExceeded || k
            == RecoverableError::MqoqFlowRecoverable || k == RecoverableError::FlowControlLimited),
{
}

/// The default retry set holds every kind except a session takeover and a
/// server shutdown.
pub proof fn law_default_set_members(k: RecoverableError)
    ensures
        RecoverableError::spec_default_set().contains(k) <==> !(k
            == RecoverableError::SessionTakenOver || k == RecoverableError::ServerShuttingDown),
{
    let s = RecoverableError::spec_default_set();
    if !(k == RecoverableError::SessionTakenOver || k == RecoverableError::ServerShuttingDown) {
        match k {
            RecoverableError::NetworkError => assert(s[0] == k),
            RecoverableError::ServerUnavailable => assert(s[1] == k),
            RecoverableError::QuotaExceeded => assert(s[2] == k),
            RecoverableError::PacketIdExhausted => assert(s[3] == k),
            RecoverableError::FlowControlLimited => assert(s[4] == k),
            RecoverableError::MqoqFlowRecoverable => assert(s[5] == k),
            _ => {},
        }
    }
}

/// A connection error is retried as a network error exactly when its
/// message names a transient network failure (temporarily unavailable,
/// refused, unreachable network, reset connection, broken pipe, timeout) and
/// is not one that AWS IoT gives for a per-account limit (a reset by peer, a
/// TCP RST, a connection or client limit); every other connection error is
/// not retried.
pub proof fn law_transient_connection_errors_are_retried(msg: String)
    ensures
        ({
            let aws_limit = spec_contains(msg@, "Connection reset by peer"@) || spec_contains(
                msg@,
                "RST"@,
            ) || spec_contains(msg@, "TCP RST"@) || spec_contains(msg@, "reset by peer"@)
                || spec_contains(msg@, "connection limit"@) || spec_contains(
                msg@,
                "client limit"@,
            );
            let transient = spec_contains(msg@, "temporarily unavailable"@) || spec_contains(
                msg@,
                "Connection refused"@,
            ) || spec_contains(msg@, "Network is unreachable"@) || spec_contains(
                msg@,
                "connection reset"@,
            ) || spec_contains(msg@, "broken pipe"@) || spec_contains(msg@, "timed out"@);
            &&& !aws_limit && transient ==> MqttError::ConnectionError(msg).spec_classify()
                == Some(RecoverableError::NetworkError)
            &&& aws_limit ==> MqttError::ConnectionError(msg).spec_classify() is None
            &&& !transient ==> MqttError::ConnectionError(msg).spec_classify() is None
        }),
{
}

} // verus!
