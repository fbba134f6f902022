//! An MQTT client: packet framing, encoding and decoding of the MQTT 3.1.1 / 5
//! control packets, and the decision logic of the client's connection hub.
use vstd::prelude::*;

pub mod buffer;
pub mod datas;
pub mod protocol;
pub mod tasks;
pub mod tls;
pub mod traits;

use crate::protocol::PacketParseError;

verus! {

/// Quality of service
#[derive(Debug, Clone, Copy, PartialEq, Eq, Structural)]
pub enum QoS {
    AtMostOnce,
    AtLeastOnce,
    ExactlyOnce,
}

/// The number that stands for a QoS level on the wire.
pub open spec fn spec_qos_to_u8(q: QoS) -> u8 {
    match q {
        QoS::AtMostOnce => 0,
        QoS::AtLeastOnce => 1,
        QoS::ExactlyOnce => 2,
    }
}

impl QoS {
    /// The number that stands for this QoS level on the wire.
    pub fn as_u8(&self) -> (r: u8)
        ensures
            r == spec_qos_to_u8(*self),
    {
        match self {
            QoS::AtMostOnce => 0,
            QoS::AtLeastOnce => 1,
            QoS::ExactlyOnce => 2,
        }
    }
}

/// The QoS level that a number stands for, if any.
pub open spec fn spec_qos(num: u8) -> Option<QoS> {
    if num == 0 {
        Some(QoS::AtMostOnce)
    } else if num == 1 {
        Some(QoS::AtLeastOnce)
    } else if num == 2 {
        Some(QoS::ExactlyOnce)
    } else {
        None
    }
}

/// Maps a number to QoS
pub fn qos(num: u8) -> (r: Result<QoS, PacketParseError>)
    ensures
        r == match spec_qos(num) {
            Some(q) => Ok(q),
            None => Err(PacketParseError::InvalidQoS(num)),
        },
{
    match num {
        0 => Ok(QoS::AtMostOnce),
        1 => Ok(QoS::AtLeastOnce),
        2 => Ok(QoS::ExactlyOnce),
        qos => Err(PacketParseError::InvalidQoS(qos)),
    }
}

/// A number and the QoS level it stands for agree both ways.
pub proof fn lemma_qos_roundtrip(q: QoS)
    ensures
        spec_qos(spec_qos_to_u8(q)) == Some(q),
{
}

#[derive(Debug, Clone, Copy)]
pub struct AtMostOnce;

#[derive(Debug, Clone, Copy)]
pub struct AtLeastOnce;

#[derive(Debug, Clone, Copy)]
pub struct ExactlyOnce;

#[derive(Debug, Clone, Copy)]
pub struct ProtocolV4;

#[derive(Debug, Clone, Copy)]
pub struct ProtocolV5;

/// The MQTT version of a connection, known from its type.
pub trait Protocol {
    /// Whether the type stands for MQTT 5.
    spec fn spec_is_v5() -> bool;

    fn is_v4() -> (r: bool)
        ensures
            r == !Self::spec_is_v5(),
    ;

    fn is_v5() -> (r: bool)
        ensures
            r == Self::spec_is_v5(),
    ;
}

impl Protocol for ProtocolV4 {
    open spec fn spec_is_v5() -> bool {
        false
    }

    fn is_v4() -> (r: bool) {
        true
    }

    fn is_v5() -> (r: bool) {
        false
    }
}

impl Protocol for ProtocolV5 {
    open spec fn spec_is_v5() -> bool {
        true
    }

    fn is_v5() -> (r: bool) {
        true
    }

    fn is_v4() -> (r: bool) {
        false
    }
}

/// Quality of service, with the packet identifier that QoS 1 and 2 carry
#[derive(Debug, Clone, Copy, PartialEq, Eq, Structural)]
pub enum QoSWithPacketId {
    AtMostOnce,
    AtLeastOnce(u16),
    ExactlyOnce(u16),
}

impl QoSWithPacketId {
    pub fn qos(&self) -> (r: u8)
        ensures
            r == match *self {
                QoSWithPacketId::AtMostOnce => 0u8,
                QoSWithPacketId::AtLeastOnce(_) => 1u8,
                QoSWithPacketId::ExactlyOnce(_) => 2u8,
            },
    {
        match self {
            QoSWithPacketId::AtMostOnce => 0,
            QoSWithPacketId::AtLeastOnce(_) => 1,
            QoSWithPacketId::ExactlyOnce(_) => 2,
        }
    }

    pub fn packet_id(&self) -> (r: Option<u16>)
        ensures
            r == match *self {
                QoSWithPacketId::AtMostOnce => None,
                QoSWithPacketId::AtLeastOnce(id) => Some(id),
                QoSWithPacketId::ExactlyOnce(id) => Some(id),
            },
    {
        match self {
            QoSWithPacketId::AtMostOnce => None,
            QoSWithPacketId::AtLeastOnce(packet_id) => Some(*packet_id),
            QoSWithPacketId::ExactlyOnce(packet_id) => Some(*packet_id),
        }
    }
}

} // verus!
