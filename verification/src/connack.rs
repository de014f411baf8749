//! The outcome of a connection request, for both protocol versions.

use vstd::prelude::*;
use crate::packet::{ConnectAckReasonV3, ConnectAckReasonV5};

verus! {

/// The number a 3.1.1 return code has on the wire.
pub open spec fn v3_code(r: ConnectAckReasonV3) -> u8 {
    match r {
        ConnectAckReasonV3::ConnectionAccepted => 0,
        ConnectAckReasonV3::UnacceptableProtocolVersion => 1,
        ConnectAckReasonV3::IdentifierRejected => 2,
        ConnectAckReasonV3::ServiceUnavailable => 3,
        ConnectAckReasonV3::BadUserNameOrPassword => 4,
        ConnectAckReasonV3::NotAuthorized => 5,
        ConnectAckReasonV3::Reserved => 6,
    }
}

/// The number a 5.0 reason code has on the wire.
pub open spec fn v5_code(r: ConnectAckReasonV5) -> u8 {
    match r {
        ConnectAckReasonV5::Success => 0,
        ConnectAckReasonV5::UnspecifiedError => 128,
        ConnectAckReasonV5::MalformedPacket => 129,
        ConnectAckReasonV5::ProtocolError => 130,
        ConnectAckReasonV5::ImplementationSpecificError => 131,
        ConnectAckReasonV5::UnsupportedProtocolVersion => 132,
        ConnectAckReasonV5::ClientIdentifierNotValid => 133,
        ConnectAckReasonV5::BadUserNameOrPassword => 134,
        ConnectAckReasonV5::NotAuthorized => 135,
        ConnectAckReasonV5::ServerUnavailable => 136,
        ConnectAckReasonV5::ServerBusy => 137,
        ConnectAckReasonV5::Banned => 138,
        ConnectAckReasonV5::BadAuthenticationMethod => 140,
        ConnectAckReasonV5::TopicNameInvalid => 144,
        ConnectAckReasonV5::PacketTooLarge => 149,
        ConnectAckReasonV5::QuotaExceeded => 151,
        ConnectAckReasonV5::PayloadFormatInvalid => 153,
        ConnectAckReasonV5::RetainNotSupported => 154,
        ConnectAckReasonV5::QosNotSupported => 155,
        ConnectAckReasonV5::UseAnotherServer => 156,
        ConnectAckReasonV5::ServerMoved => 157,
        ConnectAckReasonV5::ConnectionRateExceeded => 159,
    }
}

/// Whether a number is the wire number of a 5.0 reason code.
pub open spec fn is_v5_code(c: u8) -> bool {
    exists|r: ConnectAckReasonV5| v5_code(r) == c
}

/// The text that goes with the 3.1.1 return code of a wire number.
pub open spec fn v3_reason_text(code: u8) -> Seq<char> {
    if code == 0 {
        "Connection Accepted"@
    } else if code == 1 {
        "Connection Refused, unacceptable protocol version"@
    } else if code == 2 {
        "Connection Refused, identifier rejected"@
    } else if code == 3 {
        "Connection Refused, Server unavailable"@
    } else if code == 4 {
        "Connection Refused, bad user name or password"@
    } else if code == 5 {
        "Connection Refused, not authorized"@
    } else {
        "Connection Refused"@
    }
}

/// The text that goes with the 5.0 reason code of a wire number.
pub open spec fn v5_reason_text(code: u8) -> Seq<char> {
    if code == 0 {
        "Connection Accepted"@
    } else if code == 132 {
        "protocol version is not supported"@
    } else if code == 133 {
        "client identifier is invalid"@
    } else if code == 136 {
        "Server unavailable"@
    } else if code == 134 {
        "bad user name or password"@
    } else if code == 135 {
        "not authorized"@
    } else {
        "Connection Refused"@
    }
}

/// Calls `ntex_mqtt::v3::codec::ConnectAckReason::reason` on the return code
/// that `TryFrom<u8>` makes of the number. The contract restates the table of
/// that function.
#[verifier::external_body]
fn v3_reason_of(code: u8) -> (r: &'static str)
    requires
        code <= 6,
    ensures
        r@ == v3_reason_text(code),
{
    match ntex_mqtt::v3::codec::ConnectAckReason::try_from(code) {
        Ok(reason) => reason.reason(),
        Err(_) => "",
    }
}

/// Calls `ntex_mqtt::v5::codec::ConnectAckReason::reason` on the reason code
/// that `TryFrom<u8>` makes of the number. The contract restates the table of
/// that function.
#[verifier::external_body]
fn v5_reason_of(code: u8) -> (r: &'static str)
    requires
        is_v5_code(code),
    ensures
        r@ == v5_reason_text(code),
{
    match ntex_mqtt::v5::codec::ConnectAckReason::try_from(code) {
        Ok(reason) => reason.reason(),
        Err(_) => "",
    }
}

/// The wire number of a 3.1.1 return code.
pub fn v3_code_of(r: ConnectAckReasonV3) -> (c: u8)
    ensures
        c == v3_code(r),
        c <= 6,
{
    match r {
        ConnectAckReasonV3::ConnectionAccepted => 0,
        ConnectAckReasonV3::UnacceptableProtocolVersion => 1,
        ConnectAckReasonV3::IdentifierRejected => 2,
        ConnectAckReasonV3::ServiceUnavailable => 3,
        ConnectAckReasonV3::BadUserNameOrPassword => 4,
        ConnectAckReasonV3::NotAuthorized => 5,
        ConnectAckReasonV3::Reserved => 6,
    }
}

/// The wire number of a 5.0 reason code.
pub fn v5_code_of(r: ConnectAckReasonV5) -> (c: u8)
    ensures
        c == v5_code(r),
        is_v5_code(c),
{
    let c: u8 = match r {
        ConnectAckReasonV5::Success => 0,
        ConnectAckReasonV5::UnspecifiedError => 128,
        ConnectAckReasonV5::MalformedPacket => 129,
        ConnectAckReasonV5::ProtocolError => 130,
        ConnectAckReasonV5::ImplementationSpecificError => 131,
        ConnectAckReasonV5::UnsupportedProtocolVersion => 132,
        ConnectAckReasonV5::ClientIdentifierNotValid => 133,
        ConnectAckReasonV5::BadUserNameOrPassword => 134,
        ConnectAckReasonV5::NotAuthorized => 135,
        ConnectAckReasonV5::ServerUnavailable => 136,
        ConnectAckReasonV5::ServerBusy => 137,
        ConnectAckReasonV5::Banned => 138,
        ConnectAckReasonV5::BadAuthenticationMethod => 140,
        ConnectAckReasonV5::TopicNameInvalid => 144,
        ConnectAckReasonV5::PacketTooLarge => 149,
        ConnectAckReasonV5::QuotaExceeded => 151,
        ConnectAckReasonV5::PayloadFormatInvalid => 153,
        ConnectAckReasonV5::RetainNotSupported => 154,
        ConnectAckReasonV5::QosNotSupported => 155,
        ConnectAckReasonV5::UseAnotherServer => 156,
        ConnectAckReasonV5::ServerMoved => 157,
        ConnectAckReasonV5::ConnectionRateExceeded => 159,
    };
    assert(v5_code(r) == c);
    c
}

/// The refusal that a 3.1.1 handshake is answered with.
#[derive(Debug, Clone, Copy, PartialEq, Eq, Structural)]
pub enum V3ErrorAck {
    ServiceUnavailable,
    IdentifierRejected,
    BadUsernameOrPassword,
    NotAuthorized,
}

/// The outcome of a connection request.
#[derive(Debug, Clone, Copy, PartialEq, Eq, Structural)]
pub enum ConnectAckReason {
    V3(ConnectAckReasonV3),
    V5(ConnectAckReasonV5),
}

impl ConnectAckReason {
    /// Whether the connection was accepted.
    pub fn success(&self) -> (r: bool)
        ensures
            r == (*self == ConnectAckReason::V3(ConnectAckReasonV3::ConnectionAccepted) || *self
                == ConnectAckReason::V5(ConnectAckReasonV5::Success)),
    {
        match self {
            ConnectAckReason::V3(ConnectAckReasonV3::ConnectionAccepted) => true,
            ConnectAckReason::V5(ConnectAckReasonV5::Success) => true,
            _ => false,
        }
    }

    /// Whether the outcome is a refusal of a 3.1.1 connection.
    pub open spec fn is_v3_refusal(&self) -> bool {
        *self matches ConnectAckReason::V3(r) && r != ConnectAckReasonV3::ConnectionAccepted
    }

    /// The refusal that answers the handshake, for each refusal of a 3.1.1
    /// connection.
    pub open spec fn v3_refusal(&self) -> V3ErrorAck {
        match *self {
            ConnectAckReason::V3(ConnectAckReasonV3::IdentifierRejected) => V3ErrorAck::IdentifierRejected,
            ConnectAckReason::V3(ConnectAckReasonV3::BadUserNameOrPassword) => V3ErrorAck::BadUsernameOrPassword,
            ConnectAckReason::V3(ConnectAckReasonV3::NotAuthorized) => V3ErrorAck::NotAuthorized,
            _ => V3ErrorAck::ServiceUnavailable,
        }
    }

    /// The refusal to answer a 3.1.1 handshake with. An unacceptable protocol
    /// version and a reserved code are answered as an unavailable service.
    /// Asked only of a refusal of a 3.1.1 connection.
    pub fn v3_error_ack(&self) -> (r: V3ErrorAck)
        requires
            self.is_v3_refusal(),
        ensures
            r == self.v3_refusal(),
    {
        match self {
            ConnectAckReason::V3(ConnectAckReasonV3::UnacceptableProtocolVersion) => V3ErrorAck::ServiceUnavailable,
            ConnectAckReason::V3(ConnectAckReasonV3::IdentifierRejected) => V3ErrorAck::IdentifierRejected,
            ConnectAckReason::V3(ConnectAckReasonV3::ServiceUnavailable) => V3ErrorAck::ServiceUnavailable,
            ConnectAckReason::V3(ConnectAckReasonV3::BadUserNameOrPassword) => V3ErrorAck::BadUsernameOrPassword,
            ConnectAckReason::V3(ConnectAckReasonV3::NotAuthorized) => V3ErrorAck::NotAuthorized,
            _ => V3ErrorAck::ServiceUnavailable,
        }
    }

    /// The text that goes with the outcome.
    pub fn reason(&self) -> (r: &'static str)
        ensures
            r@ == match *self {
                ConnectAckReason::V3(x) => v3_reason_text(v3_code(x)),
                ConnectAckReason::V5(x) => v5_reason_text(v5_code(x)),
            },
    {
        match *self {
            ConnectAckReason::V3(r) => v3_reason_of(v3_code_of(r)),
            ConnectAckReason::V5(r) => v5_reason_of(v5_code_of(r)),
        }
    }
}

} // verus!
