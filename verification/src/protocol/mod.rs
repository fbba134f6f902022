//! MQTT protocol basics: versions, the fixed header, packet and property
//! types, and the errors of packet parsing.
use vstd::prelude::*;

pub mod options;
pub mod packet;

pub use options::{MqttOptions, NetworkProtocol};

verus! {

/// Protocol type
#[derive(Debug, Clone, Copy, PartialEq, Eq, Structural)]
pub enum Protocol {
    V4,
    V5,
}

impl Protocol {
    pub fn is_v5(&self) -> (r: bool)
        ensures
            r <==> *self == Protocol::V5,
    {
        match self {
            Protocol::V4 => false,
            Protocol::V5 => true,
        }
    }
}

/// Packet type from a byte
///
/// ```text
///          7                          3                          0
///          +--------------------------+--------------------------+
/// byte 1   | MQTT Control Packet Type | Flags for each type      |
///          +--------------------------+--------------------------+
///          |         Remaining Bytes Len  (1/2/3/4 bytes)        |
///          +-----------------------------------------------------+
/// ```
#[derive(Debug, Clone, Copy, PartialEq, Eq, Structural)]
pub struct FixedHeader {
    /// First byte of the stream. Used to identify packet types and
    /// several flags
    pub byte1: u8,
    /// Length of fixed header. Byte 1 + (1..4) bytes. So fixed
    /// header len can vary from 2 bytes to 5 bytes
    pub fixed_header_len: usize,
    /// Remaining length of the packet. Doesn't include fixed header
    /// bytes Represents variable header + payload size
    pub remaining_len: usize,
}

/// MQTT packet type
#[derive(Debug, Clone, Copy, PartialEq, Eq, Structural)]
pub enum PacketType {
    Connect,
    ConnAck,
    Publish,
    PubAck,
    PubRec,
    PubRel,
    PubComp,
    Subscribe,
    SubAck,
    Unsubscribe,
    UnsubAck,
    PingReq,
    PingResp,
    Disconnect,
}

/// The packet type that the high nibble of the first byte of a packet names.
pub open spec fn spec_packet_type(num: u8) -> Option<PacketType> {
    if num == 1 {
        Some(PacketType::Connect)
    } else if num == 2 {
        Some(PacketType::ConnAck)
    } else if num == 3 {
        Some(PacketType::Publish)
    } else if num == 4 {
        Some(PacketType::PubAck)
    } else if num == 5 {
        Some(PacketType::PubRec)
    } else if num == 6 {
        Some(PacketType::PubRel)
    } else if num == 7 {
        Some(PacketType::PubComp)
    } else if num == 8 {
        Some(PacketType::Subscribe)
    } else if num == 9 {
        Some(PacketType::SubAck)
    } else if num == 10 {
        Some(PacketType::Unsubscribe)
    } else if num == 11 {
        Some(PacketType::UnsubAck)
    } else if num == 12 {
        Some(PacketType::PingReq)
    } else if num == 13 {
        Some(PacketType::PingResp)
    } else if num == 14 {
        Some(PacketType::Disconnect)
    } else {
        None
    }
}

/// The number of a packet type on the wire.
pub open spec fn spec_packet_type_num(t: PacketType) -> u8 {
    match t {
        PacketType::Connect => 1,
        PacketType::ConnAck => 2,
        PacketType::Publish => 3,
        PacketType::PubAck => 4,
        PacketType::PubRec => 5,
        PacketType::PubRel => 6,
        PacketType::PubComp => 7,
        PacketType::Subscribe => 8,
        PacketType::SubAck => 9,
        PacketType::Unsubscribe => 10,
        PacketType::UnsubAck => 11,
        PacketType::PingReq => 12,
        PacketType::PingResp => 13,
        PacketType::Disconnect => 14,
    }
}

/// Packet type numbers: each type has its own number, 1 to 14, which names
/// it back; 0 and 15 name no type.
pub proof fn lemma_packet_type_numbers(t: PacketType, n: u8)
    ensures
        spec_packet_type(spec_packet_type_num(t)) == Some(t),
        1 <= spec_packet_type_num(t) <= 14,
        match spec_packet_type(n) {
            Some(u) => spec_packet_type_num(u) == n,
            None => n == 0 || n >= 15,
        },
{
}

impl PacketType {
    /// The number of this packet type on the wire.
    pub fn as_u8(&self) -> (r: u8)
        ensures
            r == spec_packet_type_num(*self),
            spec_packet_type(r) == Some(*self),
    {
        match self {
            PacketType::Connect => 1,
            PacketType::ConnAck => 2,
            PacketType::Publish => 3,
            PacketType::PubAck => 4,
            PacketType::PubRec => 5,
            PacketType::PubRel => 6,
            PacketType::PubComp => 7,
            PacketType::Subscribe => 8,
            PacketType::SubAck => 9,
            PacketType::Unsubscribe => 10,
            PacketType::UnsubAck => 11,
            PacketType::PingReq => 12,
            PacketType::PingResp => 13,
            PacketType::Disconnect => 14,
        }
    }
}

impl FixedHeader {
    pub fn new(byte1: u8, remaining_len_len: usize, remaining_len: usize) -> (r: FixedHeader)
        requires
            remaining_len_len < usize::MAX,
        ensures
            r.byte1 == byte1,
            r.fixed_header_len == remaining_len_len + 1,
            r.remaining_len == remaining_len,
    {
        FixedHeader { byte1, fixed_header_len: remaining_len_len + 1, remaining_len }
    }

    pub fn packet_type(&self) -> (r: Result<PacketType, PacketParseError>)
        ensures
            r == match spec_packet_type(self.byte1 / 16) {
                Some(t) => Ok(t),
                None => Err(PacketParseError::InvalidPacketType(self.byte1 / 16)),
            },
    {
        let num = self.byte1 / 16;
        match num {
            1 => Ok(PacketType::Connect),
            2 => Ok(PacketType::ConnAck),
            3 => Ok(PacketType::Publish),
            4 => Ok(PacketType::PubAck),
            5 => Ok(PacketType::PubRec),
            6 => Ok(PacketType::PubRel),
            7 => Ok(PacketType::PubComp),
            8 => Ok(PacketType::Subscribe),
            9 => Ok(PacketType::SubAck),
            10 => Ok(PacketType::Unsubscribe),
            11 => Ok(PacketType::UnsubAck),
            12 => Ok(PacketType::PingReq),
            13 => Ok(PacketType::PingResp),
            14 => Ok(PacketType::Disconnect),
            _ => Err(PacketParseError::InvalidPacketType(num)),
        }
    }

    /// Returns the size of full packet (fixed header + variable
    /// header + payload) Fixed header is enough to get the size
    /// of a frame in the stream
    pub fn frame_length(&self) -> (r: usize)
        requires
            self.fixed_header_len + self.remaining_len <= usize::MAX,
        ensures
            r == self.fixed_header_len + self.remaining_len,
    {
        self.fixed_header_len + self.remaining_len
    }

    pub fn remaining_len(&self) -> (r: usize)
        ensures
            r == self.remaining_len,
    {
        self.remaining_len
    }
}

#[derive(Debug, Clone, Copy, PartialEq, Eq, Structural)]
pub enum PropertyType {
    PayloadFormatIndicator,
    MessageExpiryInterval,
    ContentType,
    ResponseTopic,
    CorrelationData,
    SubscriptionIdentifier,
    SessionExpiryInterval,
    AssignedClientIdentifier,
    ServerKeepAlive,
    AuthenticationMethod,
    AuthenticationData,
    RequestProblemInformation,
    WillDelayInterval,
    RequestResponseInformation,
    ResponseInformation,
    ServerReference,
    ReasonString,
    ReceiveMaximum,
    TopicAliasMaximum,
    TopicAlias,
    MaximumQos,
    RetainAvailable,
    UserProperty,
    MaximumPacketSize,
    WildcardSubscriptionAvailable,
    SubscriptionIdentifierAvailable,
    SharedSubscriptionAvailable,
}

/// The number of a property type on the wire.
pub open spec fn spec_property_num(p: PropertyType) -> u8 {
    match p {
        PropertyType::PayloadFormatIndicator => 1,
        PropertyType::MessageExpiryInterval => 2,
        PropertyType::ContentType => 3,
        PropertyType::ResponseTopic => 8,
        PropertyType::CorrelationData => 9,
        PropertyType::SubscriptionIdentifier => 11,
        PropertyType::SessionExpiryInterval => 17,
        PropertyType::AssignedClientIdentifier => 18,
        PropertyType::ServerKeepAlive => 19,
        PropertyType::AuthenticationMethod => 21,
        PropertyType::AuthenticationData => 22,
        PropertyType::RequestProblemInformation => 23,
        PropertyType::WillDelayInterval => 24,
        PropertyType::RequestResponseInformation => 25,
        PropertyType::ResponseInformation => 26,
        PropertyType::ServerReference => 28,
        PropertyType::ReasonString => 31,
        PropertyType::ReceiveMaximum => 33,
        PropertyType::TopicAliasMaximum => 34,
        PropertyType::TopicAlias => 35,
        PropertyType::MaximumQos => 36,
        PropertyType::RetainAvailable => 37,
        PropertyType::UserProperty => 38,
        PropertyType::MaximumPacketSize => 39,
        PropertyType::WildcardSubscriptionAvailable => 40,
        PropertyType::SubscriptionIdentifierAvailable => 41,
        PropertyType::SharedSubscriptionAvailable => 42,
    }
}

/// Whether a number names a property type.
pub open spec fn spec_is_property_num(num: u8) -> bool {
    exists|p: PropertyType| spec_property_num(p) == num
}

impl PropertyType {
    /// The number of this property type on the wire.
    pub fn as_u8(&self) -> (r: u8)
        ensures
            r == spec_property_num(*self),
    {
        match self {
            PropertyType::PayloadFormatIndicator => 1,
            PropertyType::MessageExpiryInterval => 2,
            PropertyType::ContentType => 3,
            PropertyType::ResponseTopic => 8,
            PropertyType::CorrelationData => 9,
            PropertyType::SubscriptionIdentifier => 11,
            PropertyType::SessionExpiryInterval => 17,
            PropertyType::AssignedClientIdentifier => 18,
            PropertyType::ServerKeepAlive => 19,
            PropertyType::AuthenticationMethod => 21,
            PropertyType::AuthenticationData => 22,
            PropertyType::RequestProblemInformation => 23,
            PropertyType::WillDelayInterval => 24,
            PropertyType::RequestResponseInformation => 25,
            PropertyType::ResponseInformation => 26,
            PropertyType::ServerReference => 28,
            PropertyType::ReasonString => 31,
            PropertyType::ReceiveMaximum => 33,
            PropertyType::TopicAliasMaximum => 34,
            PropertyType::TopicAlias => 35,
            PropertyType::MaximumQos => 36,
            PropertyType::RetainAvailable => 37,
            PropertyType::UserProperty => 38,
            PropertyType::MaximumPacketSize => 39,
            PropertyType::WildcardSubscriptionAvailable => 40,
            PropertyType::SubscriptionIdentifierAvailable => 41,
            PropertyType::SharedSubscriptionAvailable => 42,
        }
    }
}

/// Error during serialization and deserialization
#[derive(Debug, Clone, Copy, PartialEq, Eq, Structural)]
pub enum PacketParseError {
    InvalidConnectReturnCode(u8),
    InvalidProtocol,
    InvalidProtocolLevel(u8),
    IncorrectPacketFormat,
    InvalidPacketType(u8),
    InvalidPropertyType(u8),
    InvalidQoS(u8),
    InvalidSubscribeReasonCode(u8),
    PacketIdZero,
    PayloadSizeIncorrect,
    PayloadTooLong,
    PayloadSizeLimitExceeded(usize),
    PayloadRequired,
    TopicNotUtf8,
    /// A length in the packet crosses the bounds of the data left
    BoundaryCrossed(usize),
    /// The packet can not be parsed by the rules
    MalformedPacket,
    EmptySubscription,
    /// At least this many more bytes are required to frame the packet
    InsufficientBytes(usize),
    /// The remaining length is not well encoded
    MalformedRemainingLength,
}

/// Maps a number to a property type.
pub fn property(num: u8) -> (r: Result<PropertyType, PacketParseError>)
    ensures
        r matches Ok(p) ==> spec_property_num(p) == num,
        r is Err <==> !spec_is_property_num(num),
        r is Err ==> r == Err::<PropertyType, PacketParseError>(
            PacketParseError::InvalidPropertyType(num),
        ),
{
    let property = match num {
        1 => PropertyType::PayloadFormatIndicator,
        2 => PropertyType::MessageExpiryInterval,
        3 => PropertyType::ContentType,
        8 => PropertyType::ResponseTopic,
        9 => PropertyType::CorrelationData,
        11 => PropertyType::SubscriptionIdentifier,
        17 => PropertyType::SessionExpiryInterval,
        18 => PropertyType::AssignedClientIdentifier,
        19 => PropertyType::ServerKeepAlive,
        21 => PropertyType::AuthenticationMethod,
        22 => PropertyType::AuthenticationData,
        23 => PropertyType::RequestProblemInformation,
        24 => PropertyType::WillDelayInterval,
        25 => PropertyType::RequestResponseInformation,
        26 => PropertyType::ResponseInformation,
        28 => PropertyType::ServerReference,
        31 => PropertyType::ReasonString,
        33 => PropertyType::ReceiveMaximum,
        34 => PropertyType::TopicAliasMaximum,
        35 => PropertyType::TopicAlias,
        36 => PropertyType::MaximumQos,
        37 => PropertyType::RetainAvailable,
        38 => PropertyType::UserProperty,
        39 => PropertyType::MaximumPacketSize,
        40 => PropertyType::WildcardSubscriptionAvailable,
        41 => PropertyType::SubscriptionIdentifierAvailable,
        42 => PropertyType::SharedSubscriptionAvailable,
        num => {
            assert forall|p: PropertyType| spec_property_num(p) != num by {}
            return Err(PacketParseError::InvalidPropertyType(num));
        },
    };
    assert(spec_property_num(property) == num);
    Ok(property)
}

/// The number of bytes that the variable byte integer encoding of `len`
/// takes, capped at four.
pub open spec fn spec_len_len(len: int) -> int {
    if len >= 2_097_152 {
        4
    } else if len >= 16_384 {
        3
    } else if len >= 128 {
        2
    } else {
        1
    }
}

/// Return number of remaining length bytes required for encoding
/// length
pub fn len_len(len: usize) -> (r: usize)
    ensures
        r == spec_len_len(len as int),
{
    if len >= 2_097_152 {
        4
    } else if len >= 16_384 {
        3
    } else if len >= 128 {
        2
    } else {
        1
    }
}

} // verus!
