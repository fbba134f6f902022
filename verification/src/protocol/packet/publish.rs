//! Decoding of the PUBLISH packets that the broker sends: the flags of the
//! fixed header, the topic, the packet identifier that QoS 1 and 2 carry,
//! the MQTT 5 property list (kept as its raw bytes) and the payload.
use crate::buffer::{
    bytes_advance, bytes_as_slice, bytes_clone, bytes_len, bytes_mut_extend_from_slice,
    bytes_mut_freeze, bytes_mut_new, bytes_mut_put_u16, bytes_mut_put_u8, bytes_mut_view,
    bytes_split_to, bytes_view, max_buffer_len, u16_bytes,
};
use crate::protocol::packet::{
    lemma_encode_varint_len_usize, length, read_mqtt_string, read_u16, spec_encode_varint,
    spec_length, spec_mqtt_bytes, spec_read_mqtt_string, spec_read_u16, utf8_bytes,
    write_mqtt_string, write_remaining_length,
};
use bytes::BytesMut;
use std::sync::Arc;
use crate::protocol::{FixedHeader, PacketParseError, Protocol};
use crate::{qos, spec_qos, QoS, QoSWithPacketId};
use bytes::Bytes;
use vstd::prelude::*;

verus! {

/// A PUBLISH packet received from the broker.
pub struct Publish {
    pub dup: bool,
    pub qos: QoSWithPacketId,
    pub retain: bool,
    pub topic: String,
    pub protocol: Protocol,
    /// The MQTT 5 property list, undecoded, without its length.
    pub properties: Option<Bytes>,
    pub payload: Bytes,
}

/// A PUBLISH packet, as plain data.
pub struct PublishModel {
    pub dup: bool,
    pub qos: QoSWithPacketId,
    pub retain: bool,
    pub topic: Seq<char>,
    pub protocol: Protocol,
    pub properties: Option<Seq<u8>>,
    pub payload: Seq<u8>,
}

impl View for Publish {
    type V = PublishModel;

    open spec fn view(&self) -> PublishModel {
        PublishModel {
            dup: self.dup,
            qos: self.qos,
            retain: self.retain,
            topic: self.topic@,
            protocol: self.protocol,
            properties: match self.properties {
                Some(p) => Some(bytes_view(p)),
                None => None,
            },
            payload: bytes_view(self.payload),
        }
    }
}

/// The QoS bits of a PUBLISH fixed header.
pub open spec fn spec_publish_qos_bits(byte1: u8) -> u8 {
    (byte1 & 0b0110) >> 1
}

/// The packet identifier and what follows it: none for QoS 0; for QoS 1
/// and 2 a non-zero identifier.
pub open spec fn spec_read_publish_id(q: QoS, s: Seq<u8>) -> Result<
    (QoSWithPacketId, Seq<u8>),
    PacketParseError,
> {
    match q {
        QoS::AtMostOnce => Ok((QoSWithPacketId::AtMostOnce, s)),
        _ => match spec_read_u16(s) {
            Err(e) => Err(e),
            Ok((id, rest)) => if id == 0 {
                Err(PacketParseError::PacketIdZero)
            } else if q == QoS::AtLeastOnce {
                Ok((QoSWithPacketId::AtLeastOnce(id), rest))
            } else {
                Ok((QoSWithPacketId::ExactlyOnce(id), rest))
            },
        },
    }
}

/// Reads an MQTT 5 property list as its raw bytes: the bytes and what
/// follows them.
pub open spec fn spec_read_raw_properties(s: Seq<u8>) -> Result<(Seq<u8>, Seq<u8>), PacketParseError> {
    match spec_length(s) {
        Err(e) => Err(crate::protocol::packet::spec_fixed_header_error(e)),
        Ok((n, len)) => if n + len > s.len() {
            Err(PacketParseError::BoundaryCrossed(len as usize))
        } else {
            Ok((s.subrange(n, n + len), s.skip(n + len)))
        },
    }
}

/// Reads a PUBLISH whose fixed header starts with `byte1` and takes
/// `fixed_header_len` bytes.
pub open spec fn spec_read_publish(byte1: u8, fixed_header_len: int, s: Seq<u8>, protocol: Protocol) -> Result<
    PublishModel,
    PacketParseError,
> {
    match spec_qos(spec_publish_qos_bits(byte1)) {
        None => Err(PacketParseError::InvalidQoS(spec_publish_qos_bits(byte1))),
        Some(q) => match spec_read_mqtt_string(s.skip(fixed_header_len)) {
            Err(e) => Err(e),
            Ok((topic, s1)) => match spec_read_publish_id(q, s1) {
                Err(e) => Err(e),
                Ok((qos_id, s2)) => match protocol {
                    Protocol::V4 => Ok(
                        PublishModel {
                            dup: byte1 & 0b1000 != 0,
                            qos: qos_id,
                            retain: byte1 & 1 != 0,
                            topic,
                            protocol,
                            properties: None,
                            payload: s2,
                        },
                    ),
                    Protocol::V5 => match spec_read_raw_properties(s2) {
                        Err(e) => Err(e),
                        Ok((props, s3)) => Ok(
                            PublishModel {
                                dup: byte1 & 0b1000 != 0,
                                qos: qos_id,
                                retain: byte1 & 1 != 0,
                                topic,
                                protocol,
                                properties: Some(props),
                                payload: s3,
                            },
                        ),
                    },
                },
            },
        },
    }
}

/// The first byte of an encoded PUBLISH: its type, the dup flag, the QoS
/// bits and the retain flag.
pub open spec fn spec_publish_byte1(m: PublishModel) -> u8 {
    (48 + (if m.dup {
        8int
    } else {
        0int
    }) + 2 * (match m.qos {
        QoSWithPacketId::AtMostOnce => 0int,
        QoSWithPacketId::AtLeastOnce(_) => 1int,
        QoSWithPacketId::ExactlyOnce(_) => 2int,
    }) + (if m.retain {
        1int
    } else {
        0int
    })) as u8
}

/// The variable header and payload of an encoded PUBLISH: the topic, the
/// packet identifier for QoS 1 and 2, for MQTT 5 the property list (an empty
/// one when there is none), and the payload.
pub open spec fn spec_publish_body(m: PublishModel) -> Seq<u8> {
    spec_mqtt_bytes(utf8_bytes(m.topic)) + (match m.qos {
        QoSWithPacketId::AtMostOnce => Seq::<u8>::empty(),
        QoSWithPacketId::AtLeastOnce(id) => u16_bytes(id),
        QoSWithPacketId::ExactlyOnce(id) => u16_bytes(id),
    }) + (match m.protocol {
        Protocol::V4 => Seq::<u8>::empty(),
        Protocol::V5 => match m.properties {
            Some(p) => spec_encode_varint(p.len()) + p,
            None => seq![0u8],
        },
    }) + m.payload
}

/// The encoded PUBLISH.
pub open spec fn spec_publish_bytes(m: PublishModel) -> Seq<u8> {
    seq![spec_publish_byte1(m)] + spec_encode_varint(spec_publish_body(m).len()) + spec_publish_body(
        m,
    )
}

impl Publish {
    /// A message to send, without MQTT 5 properties.
    pub fn new(
        topic: Arc<String>,
        qos: QoSWithPacketId,
        payload: Arc<Bytes>,
        retain: bool,
        protocol: Protocol,
    ) -> (r: Publish)
        ensures
            r@ == (PublishModel {
                dup: false,
                qos,
                retain,
                topic: (*topic)@,
                protocol,
                properties: None,
                payload: bytes_view(*payload),
            }),
    {
        Publish {
            dup: false,
            qos,
            retain,
            topic: (*topic).clone(),
            protocol,
            properties: None,
            payload: bytes_clone(&*payload),
        }
    }

    /// The first byte of the encoded packet.
    fn first_byte(&self) -> (r: u8)
        ensures
            r == spec_publish_byte1(self@),
    {
        let q: u8 = match self.qos {
            QoSWithPacketId::AtMostOnce => 0,
            QoSWithPacketId::AtLeastOnce(_) => 1,
            QoSWithPacketId::ExactlyOnce(_) => 2,
        };
        48 + (if self.dup {
            8
        } else {
            0
        }) + 2 * q + (if self.retain {
            1
        } else {
            0
        })
    }

    /// The length of the variable header and payload.
    fn body_len(&self) -> (r: usize)
        requires
            spec_publish_body(self@).len() < 268_435_456,
            self.properties matches Some(p) ==> bytes_view(p).len() < 268_435_456,
        ensures
            r == spec_publish_body(self@).len(),
    {
        let topic_len = self.topic.as_str().as_bytes().len();
        let id_len: usize = match self.qos {
            QoSWithPacketId::AtMostOnce => 0,
            _ => 2,
        };
        let props_len: usize = match self.protocol {
            Protocol::V4 => 0,
            Protocol::V5 => match &self.properties {
                Some(p) => {
                    let n = bytes_len(p);
                    proof {
                        crate::protocol::packet::lemma_encode_varint_len(n as nat);
                    }
                    crate::protocol::len_len(n) + n
                },
                None => 1,
            },
        };
        2 + topic_len + id_len + props_len + bytes_len(&self.payload)
    }

    /// Appends the variable header and payload.
    fn write_body(&self, buffer: &mut BytesMut)
        requires
            bytes_mut_view(*old(buffer)).len() + spec_publish_body(self@).len() <= max_buffer_len(),
        ensures
            bytes_mut_view(*final(buffer)) == bytes_mut_view(*old(buffer)) + spec_publish_body(
                self@,
            ),
    {
        let ghost start = bytes_mut_view(*buffer);
        write_mqtt_string(buffer, self.topic.as_str());
        match self.qos {
            QoSWithPacketId::AtMostOnce => {},
            QoSWithPacketId::AtLeastOnce(id) => bytes_mut_put_u16(buffer, id),
            QoSWithPacketId::ExactlyOnce(id) => bytes_mut_put_u16(buffer, id),
        }
        let ghost after_id = bytes_mut_view(*buffer);
        match self.protocol {
            Protocol::V4 => {},
            Protocol::V5 => match &self.properties {
                Some(p) => {
                    write_remaining_length(buffer, bytes_len(p));
                    bytes_mut_extend_from_slice(buffer, bytes_as_slice(p));
                },
                None => {
                    proof {
                        reveal_with_fuel(spec_encode_varint, 2);
                    }
                    write_remaining_length(buffer, 0);
                },
            },
        }
        bytes_mut_extend_from_slice(buffer, bytes_as_slice(&self.payload));
        assert(bytes_mut_view(*buffer) =~= start + spec_publish_body(self@));
    }

    /// Appends the encoded packet; returns how many bytes it takes.
    pub fn write(&self, buffer: &mut BytesMut) -> (r: usize)
        requires
            spec_publish_body(self@).len() < 268_435_456,
            bytes_mut_view(*old(buffer)).len() + 5 + spec_publish_body(self@).len()
                <= max_buffer_len(),
            self.properties matches Some(p) ==> bytes_view(p).len() < 268_435_456,
        ensures
            bytes_mut_view(*final(buffer)) == bytes_mut_view(*old(buffer)) + spec_publish_bytes(
                self@,
            ),
            r == spec_publish_bytes(self@).len(),
    {
        let ghost start = bytes_mut_view(*buffer);
        let byte1 = self.first_byte();
        let len = self.body_len();
        proof {
            crate::protocol::packet::lemma_encode_varint_len(len as nat);
        }
        bytes_mut_put_u8(buffer, byte1);
        let count = write_remaining_length(buffer, len);
        self.write_body(buffer);
        assert(bytes_mut_view(*buffer) =~= start + spec_publish_bytes(self@));
        1 + count + len
    }

    /// The encoded packet.
    pub fn data(&self) -> (r: Bytes)
        requires
            spec_publish_body(self@).len() < 268_435_456,
            self.properties matches Some(p) ==> bytes_view(p).len() < 268_435_456,
        ensures
            bytes_view(r) == spec_publish_bytes(self@),
    {
        let mut bytes = bytes_mut_new();
        self.write(&mut bytes);
        assert(Seq::<u8>::empty() + spec_publish_bytes(self@) =~= spec_publish_bytes(self@));
        bytes_mut_freeze(bytes)
    }

    /// Marks the message as sent again and gives its encoding.
    pub fn dup_data(&mut self) -> (r: Arc<Bytes>)
        requires
            spec_publish_body(old(self)@).len() < 268_435_456,
            old(self).properties matches Some(p) ==> bytes_view(p).len() < 268_435_456,
        ensures
            final(self)@ == (PublishModel { dup: true, ..old(self)@ }),
            bytes_view(*r) == spec_publish_bytes(final(self)@),
    {
        self.dup = true;
        Arc::new(self.data())
    }

    pub fn read(fixed_header: FixedHeader, bytes: Bytes, protocol: Protocol) -> (r: Result<
        Publish,
        PacketParseError,
    >)
        requires
            fixed_header.fixed_header_len <= bytes_view(bytes).len(),
        ensures
            match spec_read_publish(
                fixed_header.byte1,
                fixed_header.fixed_header_len as int,
                bytes_view(bytes),
                protocol,
            ) {
                Ok(m) => r matches Ok(p) && p@ == m,
                Err(e) => r matches Err(e2) && e2 == e,
            },
    {
        let byte1 = fixed_header.byte1;
        let qos_num = (byte1 & 0b0110) >> 1;
        let q = qos(qos_num)?;
        let dup = (byte1 & 0b1000) != 0;
        let retain = (byte1 & 1) != 0;
        let mut bytes = bytes;
        bytes_advance(&mut bytes, fixed_header.fixed_header_len);
        let topic = read_mqtt_string(&mut bytes)?;
        let qos_id = match q {
            QoS::AtMostOnce => QoSWithPacketId::AtMostOnce,
            QoS::AtLeastOnce => {
                let id = read_u16(&mut bytes)?;
                if id == 0 {
                    return Err(PacketParseError::PacketIdZero);
                }
                QoSWithPacketId::AtLeastOnce(id)
            },
            QoS::ExactlyOnce => {
                let id = read_u16(&mut bytes)?;
                if id == 0 {
                    return Err(PacketParseError::PacketIdZero);
                }
                QoSWithPacketId::ExactlyOnce(id)
            },
        };
        let properties = match protocol {
            Protocol::V4 => None,
            Protocol::V5 => {
                let (len_len, len) = match length(bytes_as_slice(&bytes)) {
                    Ok(v) => v,
                    Err(e) => return Err(e.into_packet_error()),
                };
                if len > bytes_len(&bytes) - len_len {
                    return Err(PacketParseError::BoundaryCrossed(len));
                }
                let ghost s2 = bytes_view(bytes);
                bytes_advance(&mut bytes, len_len);
                let props = bytes_split_to(&mut bytes, len);
                assert(bytes_view(props) =~= s2.subrange(len_len as int, len_len + len));
                assert(bytes_view(bytes) =~= s2.skip(len_len + len));
                Some(props)
            },
        };
        Ok(Publish { dup, qos: qos_id, retain, topic, protocol, properties, payload: bytes })
    }
}

} // verus!
