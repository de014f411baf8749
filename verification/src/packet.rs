//! Plain-value models of the 3.1.1 and 5.0 wire packets that the broker core reads.
//!
//! Strings stand for UTF-8 strings of the wire, byte vectors for binary data,
//! and an identifier that the protocol forbids to be zero is kept as a number.

use vstd::prelude::*;
use crate::qos::QoS;

verus! {

pub type PacketId = u16;

pub type UserProperty = (String, String);

pub type UserProperties = Vec<UserProperty>;

/// Protocol level byte of MQTT 3.1.
pub const MQTT_LEVEL_31: u8 = 3;

/// Protocol level byte of MQTT 3.1.1.
pub const MQTT_LEVEL_311: u8 = 4;

/// Protocol level byte of MQTT 5.0.
pub const MQTT_LEVEL_5: u8 = 5;

/// Will of a 3.1.1 connection.
#[derive(Debug, Clone, PartialEq, Eq)]
pub struct LastWillV3 {
    pub qos: QoS,
    pub retain: bool,
    pub topic: String,
    pub message: Vec<u8>,
}

/// CONNECT packet of a 3.1.1 connection.
#[derive(Debug, Clone, PartialEq, Eq)]
pub struct ConnectV3 {
    pub protocol_level: u8,
    pub clean_session: bool,
    pub keep_alive: u16,
    pub last_will: Option<LastWillV3>,
    pub client_id: String,
    pub username: Option<String>,
    pub password: Option<Vec<u8>>,
}

/// PUBLISH packet of a 3.1.1 connection.
#[derive(Debug, Clone, PartialEq, Eq)]
pub struct PublishPacketV3 {
    pub dup: bool,
    pub retain: bool,
    pub qos: QoS,
    pub topic: String,
    /// Absent for QoS 0; never zero.
    pub packet_id: Option<PacketId>,
    pub payload: Vec<u8>,
}

/// Per-filter result of a 3.1.1 SUBSCRIBE.
#[derive(Debug, Clone, Copy, PartialEq, Eq, Structural)]
pub enum SubscribeReturnCodeV3 {
    Success(QoS),
    Failure,
}

/// CONNACK return code of 3.1.1.
#[derive(Debug, Clone, Copy, PartialEq, Eq, Structural)]
pub enum ConnectAckReasonV3 {
    ConnectionAccepted,
    UnacceptableProtocolVersion,
    IdentifierRejected,
    ServiceUnavailable,
    BadUserNameOrPassword,
    NotAuthorized,
    Reserved,
}

/// Will of a 5.0 connection.
#[derive(Debug, Clone, PartialEq, Eq)]
pub struct LastWillV5 {
    pub qos: QoS,
    pub retain: bool,
    pub topic: String,
    pub message: Vec<u8>,
    pub will_delay_interval_sec: Option<u32>,
    pub correlation_data: Option<Vec<u8>>,
    pub message_expiry_interval: Option<u32>,
    pub content_type: Option<String>,
    pub user_properties: UserProperties,
    pub is_utf8_payload: Option<bool>,
    pub response_topic: Option<String>,
}

/// CONNECT packet of a 5.0 connection.
#[derive(Debug, Clone, PartialEq, Eq)]
pub struct ConnectV5 {
    pub clean_start: bool,
    pub keep_alive: u16,
    pub session_expiry_interval_secs: u32,
    pub auth_method: Option<String>,
    pub auth_data: Option<Vec<u8>>,
    pub request_problem_info: bool,
    pub request_response_info: bool,
    pub receive_max: Option<u16>,
    pub topic_alias_max: u16,
    pub user_properties: UserProperties,
    pub max_packet_size: Option<u32>,
    pub last_will: Option<LastWillV5>,
    pub client_id: String,
    pub username: Option<String>,
    pub password: Option<Vec<u8>>,
}

/// Properties of a 5.0 PUBLISH packet.
#[derive(Debug, Clone, PartialEq, Eq)]
pub struct PublishProperties {
    pub topic_alias: Option<u16>,
    pub correlation_data: Option<Vec<u8>>,
    pub message_expiry_interval: Option<u32>,
    pub content_type: Option<String>,
    pub user_properties: UserProperties,
    pub is_utf8_payload: bool,
    pub response_topic: Option<String>,
    pub subscription_ids: Vec<u32>,
}

/// PUBLISH packet of a 5.0 connection.
#[derive(Debug, Clone, PartialEq, Eq)]
pub struct PublishPacketV5 {
    pub dup: bool,
    pub retain: bool,
    pub qos: QoS,
    /// Absent for QoS 0; never zero.
    pub packet_id: Option<PacketId>,
    pub topic: String,
    pub payload: Vec<u8>,
    pub properties: PublishProperties,
}

/// When retained messages are sent for a 5.0 subscription.
#[derive(Debug, Clone, Copy, PartialEq, Eq, Structural)]
pub enum RetainHandling {
    AtSubscribe,
    AtSubscribeNew,
    NoAtSubscribe,
}

/// Options of one filter of a 5.0 SUBSCRIBE.
#[derive(Debug, Clone, Copy, PartialEq, Eq, Structural)]
pub struct SubscriptionOptions {
    pub qos: QoS,
    pub no_local: bool,
    pub retain_as_published: bool,
    pub retain_handling: RetainHandling,
}

/// SUBSCRIBE packet of a 5.0 connection.
#[derive(Debug, Clone, PartialEq, Eq)]
pub struct SubscribeV5 {
    pub packet_id: PacketId,
    pub id: Option<u32>,
    pub user_properties: UserProperties,
    pub topic_filters: Vec<(String, SubscriptionOptions)>,
}

/// Per-filter reason code of a 5.0 SUBACK.
#[derive(Debug, Clone, Copy, PartialEq, Eq, Structural)]
pub enum SubscribeAckReason {
    GrantedQos0,
    GrantedQos1,
    GrantedQos2,
    UnspecifiedError,
    ImplementationSpecificError,
    NotAuthorized,
    TopicFilterInvalid,
    PacketIdentifierInUse,
    QuotaExceeded,
    SharedSubscriptionNotSupported,
    SubscriptionIdentifiersNotSupported,
    WildcardSubscriptionsNotSupported,
}

/// SUBACK packet of a 5.0 connection.
#[derive(Debug, Clone, PartialEq, Eq)]
pub struct SubscribeAckV5 {
    pub packet_id: PacketId,
    pub properties: UserProperties,
    pub reason_string: Option<String>,
    pub status: Vec<SubscribeAckReason>,
}

/// UNSUBSCRIBE packet of a 5.0 connection.
#[derive(Debug, Clone, PartialEq, Eq)]
pub struct UnsubscribeV5 {
    pub packet_id: PacketId,
    pub user_properties: UserProperties,
    pub topic_filters: Vec<String>,
}

/// Per-filter reason code of a 5.0 UNSUBACK.
#[derive(Debug, Clone, Copy, PartialEq, Eq, Structural)]
pub enum UnsubscribeAckReason {
    Success,
    NoSubscriptionExisted,
    UnspecifiedError,
    ImplementationSpecificError,
    NotAuthorized,
    TopicFilterInvalid,
    PacketIdentifierInUse,
}

/// UNSUBACK packet of a 5.0 connection.
#[derive(Debug, Clone, PartialEq, Eq)]
pub struct UnsubscribeAckV5 {
    pub packet_id: PacketId,
    pub properties: UserProperties,
    pub reason_string: Option<String>,
    pub status: Vec<UnsubscribeAckReason>,
}

/// CONNACK reason code of 5.0.
#[derive(Debug, Clone, Copy, PartialEq, Eq, Structural)]
pub enum ConnectAckReasonV5 {
    Success,
    UnspecifiedError,
    MalformedPacket,
    ProtocolError,
    ImplementationSpecificError,
    UnsupportedProtocolVersion,
    ClientIdentifierNotValid,
    BadUserNameOrPassword,
    NotAuthorized,
    ServerUnavailable,
    ServerBusy,
    Banned,
    BadAuthenticationMethod,
    TopicNameInvalid,
    PacketTooLarge,
    QuotaExceeded,
    PayloadFormatInvalid,
    RetainNotSupported,
    QosNotSupported,
    UseAnotherServer,
    ServerMoved,
    ConnectionRateExceeded,
}

} // verus!
