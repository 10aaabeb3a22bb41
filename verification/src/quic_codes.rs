//! Error codes of MQTT over QUIC, in two independent namespaces: codes that
//! close a whole connection and codes that reset a single stream.
use vstd::prelude::*;

verus! {

/// Connection-level error codes of MQTT over QUIC.
#[derive(Debug, Clone, Copy, PartialEq, Eq, Hash)]
pub enum QuicConnectionCode {
    NoError,
    TlsError,
    Unspecified,
    TooManyRecoverAttempts,
    ProtocolLevel0,
}

impl QuicConnectionCode {
    /// The wire value of each connection code.
    pub open spec fn spec_code(self) -> u32 {
        match self {
            QuicConnectionCode::NoError => 0x00,
            QuicConnectionCode::TlsError => 0xB1,
            QuicConnectionCode::Unspecified => 0xB2,
            QuicConnectionCode::TooManyRecoverAttempts => 0xB3,
            QuicConnectionCode::ProtocolLevel0 => 0xB4,
        }
    }

    /// The connection code with the wire value `value`, if there is one.
    pub open spec fn spec_from_code(value: u32) -> Option<QuicConnectionCode> {
        if value == 0x00 {
            Some(QuicConnectionCode::NoError)
        } else if value == 0xB1 {
            Some(QuicConnectionCode::TlsError)
        } else if value == 0xB2 {
            Some(QuicConnectionCode::Unspecified)
        } else if value == 0xB3 {
            Some(QuicConnectionCode::TooManyRecoverAttempts)
        } else if value == 0xB4 {
            Some(QuicConnectionCode::ProtocolLevel0)
        } else {
            None
        }
    }

    /// The name under which the code is displayed.
    pub open spec fn spec_name(self) -> Seq<char> {
        match self {
            QuicConnectionCode::NoError => "NO_ERROR"@,
            QuicConnectionCode::TlsError => "ERROR_TLS_ERROR"@,
            QuicConnectionCode::Unspecified => "ERROR_UNSPECIFIED"@,
            QuicConnectionCode::TooManyRecoverAttempts => "ERROR_TOO_MANY_RECOVER_ATTEMPTS"@,
            QuicConnectionCode::ProtocolLevel0 => "ERROR_PROTOCOL_L0"@,
        }
    }

    /// The code's numeric value on the wire.
    pub fn code(self) -> (c: u32)
        ensures
            c == self.spec_code(),
    {
        match self {
            QuicConnectionCode::NoError => 0x00,
            QuicConnectionCode::TlsError => 0xB1,
            QuicConnectionCode::Unspecified => 0xB2,
            QuicConnectionCode::TooManyRecoverAttempts => 0xB3,
            QuicConnectionCode::ProtocolLevel0 => 0xB4,
        }
    }

    /// The code with numeric value `value`, if there is one.
    pub fn from_code(value: u32) -> (r: Option<Self>)
        ensures
            r == Self::spec_from_code(value),
    {
        match value {
            0x00 => Some(QuicConnectionCode::NoError),
            0xB1 => Some(QuicConnectionCode::TlsError),
            0xB2 => Some(QuicConnectionCode::Unspecified),
            0xB3 => Some(QuicConnectionCode::TooManyRecoverAttempts),
            0xB4 => Some(QuicConnectionCode::ProtocolLevel0),
            _ => None,
        }
    }

    /// The display name of the code (`NO_ERROR`, `ERROR_TLS_ERROR`, ...).
    pub fn to_string(&self) -> (s: String)
        ensures
            s@ == self.spec_name(),
    {
        let name = match self {
            QuicConnectionCode::NoError => "NO_ERROR",
            QuicConnectionCode::TlsError => "ERROR_TLS_ERROR",
            QuicConnectionCode::Unspecified => "ERROR_UNSPECIFIED",
            QuicConnectionCode::TooManyRecoverAttempts => "ERROR_TOO_MANY_RECOVER_ATTEMPTS",
            QuicConnectionCode::ProtocolLevel0 => "ERROR_PROTOCOL_L0",
        };
        name.to_owned()
    }
}

/// Stream-level error codes of MQTT over QUIC.
#[derive(Debug, Clone, Copy, PartialEq, Eq, Hash)]
pub enum QuicStreamCode {
    NoError,
    NoFlowState,
    NotFlowOwner,
    StreamType,
    BadFlowId,
    PersistentTopic,
    PersistentSub,
    OptionalHeader,
    IncompletePacket,
    FlowOpenIdle,
    FlowCancelled,
    FlowPacketCancelled,
    FlowRefused,
    DiscardState,
    ServerPushNotWelcome,
    RecoveryFailed,
}

impl QuicStreamCode {
    /// The wire value of each stream code.
    pub open spec fn spec_code(self) -> u32 {
        match self {
            QuicStreamCode::NoError => 0x00,
            QuicStreamCode::NoFlowState => 0xB3,
            QuicStreamCode::NotFlowOwner => 0xB4,
            QuicStreamCode::StreamType => 0xB5,
            QuicStreamCode::BadFlowId => 0xB6,
            QuicStreamCode::PersistentTopic => 0xB7,
            QuicStreamCode::PersistentSub => 0xB8,
            QuicStreamCode::OptionalHeader => 0xB9,
            QuicStreamCode::IncompletePacket => 0xBA,
            QuicStreamCode::FlowOpenIdle => 0xBB,
            QuicStreamCode::FlowCancelled => 0xBC,
            QuicStreamCode::FlowPacketCancelled => 0xBD,
            QuicStreamCode::FlowRefused => 0xBE,
            QuicStreamCode::DiscardState => 0xBF,
            QuicStreamCode::ServerPushNotWelcome => 0xC0,
            QuicStreamCode::RecoveryFailed => 0xC1,
        }
    }

    /// The stream code with the wire value `value`, if there is one.
    pub open spec fn spec_from_code(value: u32) -> Option<QuicStreamCode> {
        if value == 0x00 {
            Some(QuicStreamCode::NoError)
        } else if value == 0xB3 {
            Some(QuicStreamCode::NoFlowState)
        } else if value == 0xB4 {
            Some(QuicStreamCode::NotFlowOwner)
        } else if value == 0xB5 {
            Some(QuicStreamCode::StreamType)
        } else if value == 0xB6 {
            Some(QuicStreamCode::BadFlowId)
        } else if value == 0xB7 {
            Some(QuicStreamCode::PersistentTopic)
        } else if value == 0xB8 {
            Some(QuicStreamCode::PersistentSub)
        } else if value == 0xB9 {
            Some(QuicStreamCode::OptionalHeader)
        } else if value == 0xBA {
            Some(QuicStreamCode::IncompletePacket)
        } else if value == 0xBB {
            Some(QuicStreamCode::FlowOpenIdle)
        } else if value == 0xBC {
            Some(QuicStreamCode::FlowCancelled)
        } else if value == 0xBD {
            Some(QuicStreamCode::FlowPacketCancelled)
        } else if value == 0xBE {
            Some(QuicStreamCode::FlowRefused)
        } else if value == 0xBF {
            Some(QuicStreamCode::DiscardState)
        } else if value == 0xC0 {
            Some(QuicStreamCode::ServerPushNotWelcome)
        } else if value == 0xC1 {
            Some(QuicStreamCode::RecoveryFailed)
        } else {
            None
        }
    }

    /// The recovery level of a stream error: 0 for flow-ownership errors,
    /// 1 for errors about the stream or flow setup, 2 for interrupted flows,
    /// and none for `NoError`.
    pub open spec fn spec_error_level(self) -> Option<u8> {
        match self {
            QuicStreamCode::NoError => None,
            QuicStreamCode::NoFlowState | QuicStreamCode::NotFlowOwner => Some(0),
            QuicStreamCode::StreamType
            | QuicStreamCode::BadFlowId
            | QuicStreamCode::PersistentTopic
            | QuicStreamCode::PersistentSub
            | QuicStreamCode::OptionalHeader
            | QuicStreamCode::DiscardState
            | QuicStreamCode::ServerPushNotWelcome
            | QuicStreamCode::RecoveryFailed => Some(1),
            QuicStreamCode::IncompletePacket
            | QuicStreamCode::FlowOpenIdle
            | QuicStreamCode::FlowCancelled
            | QuicStreamCode::FlowPacketCancelled
            | QuicStreamCode::FlowRefused => Some(2),
        }
    }

    /// The codes after which the flow state must be discarded.
    pub open spec fn spec_should_discard_state(self) -> bool {
        match self {
            QuicStreamCode::BadFlowId
            | QuicStreamCode::PersistentSub
            | QuicStreamCode::OptionalHeader
            | QuicStreamCode::FlowCancelled
            | QuicStreamCode::DiscardState
            | QuicStreamCode::ServerPushNotWelcome
            | QuicStreamCode::RecoveryFailed => true,
            _ => false,
        }
    }

    /// The name under which the code is displayed.
    pub open spec fn spec_name(self) -> Seq<char> {
        match self {
            QuicStreamCode::NoError => "NO_ERROR"@,
            QuicStreamCode::NoFlowState => "ERROR_NO_FLOW_STATE"@,
            QuicStreamCode::NotFlowOwner => "ERROR_NOT_FLOW_OWNER"@,
            QuicStreamCode::StreamType => "ERROR_STREAM_TYPE"@,
            QuicStreamCode::BadFlowId => "ERROR_BAD_FLOW_ID"@,
            QuicStreamCode::PersistentTopic => "ERROR_PERSISTENT_TOPIC"@,
            QuicStreamCode::PersistentSub => "ERROR_PERSISTENT_SUB"@,
            QuicStreamCode::OptionalHeader => "ERROR_OPTIONAL_HEADER"@,
            QuicStreamCode::IncompletePacket => "ERROR_INCOMPLETE_PACKET"@,
            QuicStreamCode::FlowOpenIdle => "ERROR_FLOW_OPEN_IDLE"@,
            QuicStreamCode::FlowCancelled => "ERROR_FLOW_CANCELLED"@,
            QuicStreamCode::FlowPacketCancelled => "ERROR_FLOW_PACKET_CANCELLED"@,
            QuicStreamCode::FlowRefused => "ERROR_FLOW_REFUSED"@,
            QuicStreamCode::DiscardState => "ERROR_DISCARD_STATE"@,
            QuicStreamCode::ServerPushNotWelcome => "ERROR_SERVER_PUSH_NOT_WELCOME"@,
            QuicStreamCode::RecoveryFailed => "ERROR_RECOVERY_FAILED"@,
        }
    }

    /// The code's numeric value on the wire.
    pub fn code(self) -> (c: u32)
        ensures
            c == self.spec_code(),
    {
        match self {
            QuicStreamCode::NoError => 0x00,
            QuicStreamCode::NoFlowState => 0xB3,
            QuicStreamCode::NotFlowOwner => 0xB4,
            QuicStreamCode::StreamType => 0xB5,
            QuicStreamCode::BadFlowId => 0xB6,
            QuicStreamCode::PersistentTopic => 0xB7,
            QuicStreamCode::PersistentSub => 0xB8,
            QuicStreamCode::OptionalHeader => 0xB9,
            QuicStreamCode::IncompletePacket => 0xBA,
            QuicStreamCode::FlowOpenIdle => 0xBB,
            QuicStreamCode::FlowCancelled => 0xBC,
            QuicStreamCode::FlowPacketCancelled => 0xBD,
            QuicStreamCode::FlowRefused => 0xBE,
            QuicStreamCode::DiscardState => 0xBF,
            QuicStreamCode::ServerPushNotWelcome => 0xC0,
            QuicStreamCode::RecoveryFailed => 0xC1,
        }
    }

    /// The code with numeric value `value`, if there is one.
    pub fn from_code(value: u32) -> (r: Option<Self>)
        ensures
            r == Self::spec_from_code(value),
    {
        match value {
            0x00 => Some(QuicStreamCode::NoError),
            0xB3 => Some(QuicStreamCode::NoFlowState),
            0xB4 => Some(QuicStreamCode::NotFlowOwner),
            0xB5 => Some(QuicStreamCode::StreamType),
            0xB6 => Some(QuicStreamCode::BadFlowId),
            0xB7 => Some(QuicStreamCode::PersistentTopic),
            0xB8 => Some(QuicStreamCode::PersistentSub),
            0xB9 => Some(QuicStreamCode::OptionalHeader),
            0xBA => Some(QuicStreamCode::IncompletePacket),
            0xBB => Some(QuicStreamCode::FlowOpenIdle),
            0xBC => Some(QuicStreamCode::FlowCancelled),
            0xBD => Some(QuicStreamCode::FlowPacketCancelled),
            0xBE => Some(QuicStreamCode::FlowRefused),
            0xBF => Some(QuicStreamCode::DiscardState),
            0xC0 => Some(QuicStreamCode::ServerPushNotWelcome),
            0xC1 => Some(QuicStreamCode::RecoveryFailed),
            _ => None,
        }
    }

    /// The error level of the code (none for no error).
    pub fn error_level(self) -> (r: Option<u8>)
        ensures
            r == self.spec_error_level(),
    {
        match self {
            QuicStreamCode::NoError => None,
            QuicStreamCode::NoFlowState | QuicStreamCode::NotFlowOwner => Some(0),
            QuicStreamCode::StreamType
            | QuicStreamCode::BadFlowId
            | QuicStreamCode::PersistentTopic
            | QuicStreamCode::PersistentSub
            | QuicStreamCode::OptionalHeader
            | QuicStreamCode::DiscardState
            | QuicStreamCode::ServerPushNotWelcome
            | QuicStreamCode::RecoveryFailed => Some(1),
            QuicStreamCode::IncompletePacket
            | QuicStreamCode::FlowOpenIdle
            | QuicStreamCode::FlowCancelled
            | QuicStreamCode::FlowPacketCancelled
            | QuicStreamCode::FlowRefused => Some(2),
        }
    }

    /// Whether the code tells the receiver to discard the flow's state.
    pub fn should_discard_state(self) -> (r: bool)
        ensures
            r == self.spec_should_discard_state(),
    {
        match self {
            QuicStreamCode::BadFlowId
            | QuicStreamCode::PersistentSub
            | QuicStreamCode::OptionalHeader
            | QuicStreamCode::FlowCancelled
            | QuicStreamCode::DiscardState
            | QuicStreamCode::ServerPushNotWelcome
            | QuicStreamCode::RecoveryFailed => true,
            _ => false,
        }
    }

    /// The display name of the code (`NO_ERROR`, `ERROR_NO_FLOW_STATE`, ...).
    pub fn to_string(&self) -> (s: String)
        ensures
            s@ == self.spec_name(),
    {
        let name = match self {
            QuicStreamCode::NoError => "NO_ERROR",
            QuicStreamCode::NoFlowState => "ERROR_NO_FLOW_STATE",
            QuicStreamCode::NotFlowOwner => "ERROR_NOT_FLOW_OWNER",
            QuicStreamCode::StreamType => "ERROR_STREAM_TYPE",
            QuicStreamCode::BadFlowId => "ERROR_BAD_FLOW_ID",
            QuicStreamCode::PersistentTopic => "ERROR_PERSISTENT_TOPIC",
            QuicStreamCode::PersistentSub => "ERROR_PERSISTENT_SUB",
            QuicStreamCode::OptionalHeader => "ERROR_OPTIONAL_HEADER",
            QuicStreamCode::IncompletePacket => "ERROR_INCOMPLETE_PACKET",
            QuicStreamCode::FlowOpenIdle => "ERROR_FLOW_OPEN_IDLE",
            QuicStreamCode::FlowCancelled => "ERROR_FLOW_CANCELLED",
            QuicStreamCode::FlowPacketCancelled => "ERROR_FLOW_PACKET_CANCELLED",
            QuicStreamCode::FlowRefused => "ERROR_FLOW_REFUSED",
            QuicStreamCode::DiscardState => "ERROR_DISCARD_STATE",
            QuicStreamCode::ServerPushNotWelcome => "ERROR_SERVER_PUSH_NOT_WELCOME",
            QuicStreamCode::RecoveryFailed => "ERROR_RECOVERY_FAILED",
        };
        name.to_owned()
    }
}

/// Every connection code is read back from its wire value, and a wire value
/// that names a connection code is that code's value.
pub proof fn law_connection_code_round_trip(c: QuicConnectionCode, value: u32)
    ensures
        QuicConnectionCode::spec_from_code(c.spec_code()) == Some(c),
        QuicConnectionCode::spec_from_code(value) matches Some(d) ==> d.spec_code() == value,
{
}

/// Every stream code is read back from its wire value, and a wire value that
/// names a stream code is that code's value.
pub proof fn law_stream_code_round_trip(c: QuicStreamCode, value: u32)
    ensures
        QuicStreamCode::spec_from_code(c.spec_code()) == Some(c),
        QuicStreamCode::spec_from_code(value) matches Some(d) ==> d.spec_code() == value,
{
}

/// Distinct codes have distinct wire values within each namespace.
pub proof fn law_codes_are_injective(
    a: QuicConnectionCode,
    b: QuicConnectionCode,
    x: QuicStreamCode,
    y: QuicStreamCode,
)
    ensures
        a.spec_code() == b.spec_code() ==> a == b,
        x.spec_code() == y.spec_code() ==> x == y,
{
}

/// `NoError` is the only stream code without an error level, and every code
/// after which the flow state is discarded has an error level of 1 or 2.
pub proof fn law_stream_error_levels(x: QuicStreamCode)
    ensures
        x.spec_error_level() is None <==> x == QuicStreamCode::NoError,
        x.spec_should_discard_state() ==> (x.spec_error_level() == Some(1u8)
            || x.spec_error_level() == Some(2u8)),
{
}

} // verus!
