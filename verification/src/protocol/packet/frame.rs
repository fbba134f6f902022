//! Framing of the packets that the broker sends: one packet is cut off the
//! front of the receive buffer and decoded by its type.
use crate::buffer::{
    bytes_mut_as_slice, bytes_mut_freeze, bytes_mut_len, bytes_mut_split_to, bytes_mut_view,
    bytes_view,
};
use crate::protocol::packet::connack::{spec_read_connack, ConnAck, ConnAckModel};
use crate::protocol::packet::disconnect::{spec_read_disconnect, Disconnect};
use crate::protocol::packet::pubcommon::{
    spec_read_pubcommon, PubAck, PubAckTy, PubComp, PubCompTy, PubCommonModel, PubRec, PubRecTy,
    PubRel, PubRelTy, Common,
};
use crate::protocol::packet::publish::{
    spec_publish_body, spec_publish_byte1, spec_publish_bytes, spec_read_publish,
    spec_read_raw_properties, Publish, PublishModel,
};
use crate::protocol::packet::{
    lemma_encode_varint_len, lemma_mqtt_string_roundtrip, lemma_varint_roundtrip,
    spec_encode_varint, spec_length, spec_mqtt_bytes, utf8_bytes,
};
use crate::buffer::{lemma_u16_bytes_roundtrip, u16_bytes};
use crate::QoSWithPacketId;
use crate::protocol::packet::suback::{spec_read_suback, SubAck, SubAckModel};
use crate::protocol::packet::unsuback::{spec_read_unsuback, UnsubAck, UnsubAckModel};
use crate::protocol::packet::{
    parse_fixed_header, spec_fixed_header_error, spec_parse_fixed_header, FixedHeaderError,
};
use crate::protocol::{spec_packet_type, spec_packet_type_num, FixedHeader, PacketParseError,
    PacketType, Protocol};
use bytes::BytesMut;
use vstd::prelude::*;

verus! {

/// A packet received from the broker.
pub enum Packet {
    ConnAck(ConnAck),
    Publish(Publish),
    PubAck(PubAck),
    PingResp,
    SubAck(SubAck),
    PubRec(PubRec),
    PubRel(PubRel),
    PubComp(PubComp),
    UnsubAck(UnsubAck),
    Disconnect(Disconnect),
}

/// A received packet, as plain data.
pub enum PacketModel {
    ConnAck(ConnAckModel),
    Publish(PublishModel),
    PubAck(PubCommonModel<<PubAckTy as Common>::Reason>),
    PingResp,
    SubAck(SubAckModel),
    PubRec(PubCommonModel<<PubRecTy as Common>::Reason>),
    PubRel(PubCommonModel<<PubRelTy as Common>::Reason>),
    PubComp(PubCommonModel<<PubCompTy as Common>::Reason>),
    UnsubAck(UnsubAckModel),
    Disconnect(Disconnect),
}

impl View for Packet {
    type V = PacketModel;

    open spec fn view(&self) -> PacketModel {
        match self {
            Packet::ConnAck(p) => PacketModel::ConnAck(p@),
            Packet::Publish(p) => PacketModel::Publish(p@),
            Packet::PubAck(p) => PacketModel::PubAck(p@),
            Packet::PingResp => PacketModel::PingResp,
            Packet::SubAck(p) => PacketModel::SubAck(p@),
            Packet::PubRec(p) => PacketModel::PubRec(p@),
            Packet::PubRel(p) => PacketModel::PubRel(p@),
            Packet::PubComp(p) => PacketModel::PubComp(p@),
            Packet::UnsubAck(p) => PacketModel::UnsubAck(p@),
            Packet::Disconnect(p) => PacketModel::Disconnect(*p),
        }
    }
}

/// The type of a received packet, as plain data.
pub open spec fn spec_packet_ty(p: PacketModel) -> PacketType {
    match p {
        PacketModel::ConnAck(_) => PacketType::ConnAck,
        PacketModel::Publish(_) => PacketType::Publish,
        PacketModel::PubAck(_) => PacketType::PubAck,
        PacketModel::PubRec(_) => PacketType::PubRec,
        PacketModel::PubRel(_) => PacketType::PubRel,
        PacketModel::PubComp(_) => PacketType::PubComp,
        PacketModel::SubAck(_) => PacketType::SubAck,
        PacketModel::UnsubAck(_) => PacketType::UnsubAck,
        PacketModel::PingResp => PacketType::PingResp,
        PacketModel::Disconnect(_) => PacketType::Disconnect,
    }
}

impl Packet {
    pub fn packet_ty(&self) -> (r: PacketType)
        ensures
            r == spec_packet_ty(self@),
    {
        match self {
            Packet::ConnAck(_) => PacketType::ConnAck,
            Packet::Publish(_) => PacketType::Publish,
            Packet::PubAck(_) => PacketType::PubAck,
            Packet::PubRec(_) => PacketType::PubRec,
            Packet::PubRel(_) => PacketType::PubRel,
            Packet::PubComp(_) => PacketType::PubComp,
            Packet::SubAck(_) => PacketType::SubAck,
            Packet::UnsubAck(_) => PacketType::UnsubAck,
            Packet::PingResp => PacketType::PingResp,
            Packet::Disconnect(_) => PacketType::Disconnect,
        }
    }
}

/// Lifts a packet reader's result.
pub open spec fn lift<M>(r: Result<M, PacketParseError>, f: spec_fn(M) -> PacketModel) -> Result<
    PacketModel,
    PacketParseError,
> {
    match r {
        Ok(m) => Ok(f(m)),
        Err(e) => Err(e),
    }
}

/// Decodes one framed packet by the type in its first byte. A client
/// receives no CONNECT, SUBSCRIBE, UNSUBSCRIBE or PINGREQ; MQTT 3.1.1
/// brokers send no DISCONNECT.
pub open spec fn spec_read_packet(
    byte1: u8,
    header_len: int,
    remaining_len: int,
    frame: Seq<u8>,
    version: Protocol,
) -> Result<PacketModel, PacketParseError> {
    match spec_packet_type(byte1 / 16) {
        None => Err(PacketParseError::InvalidPacketType(byte1 / 16)),
        Some(t) => match t {
            PacketType::ConnAck => lift(
                spec_read_connack(header_len, frame, version),
                |m| PacketModel::ConnAck(m),
            ),
            PacketType::Publish => lift(
                spec_read_publish(byte1, header_len, frame, version),
                |m| PacketModel::Publish(m),
            ),
            PacketType::PubAck => lift(
                spec_read_pubcommon::<PubAckTy>(header_len, remaining_len, frame, version),
                |m| PacketModel::PubAck(m),
            ),
            PacketType::PubRec => lift(
                spec_read_pubcommon::<PubRecTy>(header_len, remaining_len, frame, version),
                |m| PacketModel::PubRec(m),
            ),
            PacketType::PubRel => lift(
                spec_read_pubcommon::<PubRelTy>(header_len, remaining_len, frame, version),
                |m| PacketModel::PubRel(m),
            ),
            PacketType::PubComp => lift(
                spec_read_pubcommon::<PubCompTy>(header_len, remaining_len, frame, version),
                |m| PacketModel::PubComp(m),
            ),
            PacketType::SubAck => lift(
                spec_read_suback(header_len, frame, version),
                |m| PacketModel::SubAck(m),
            ),
            PacketType::UnsubAck => lift(
                spec_read_unsuback(header_len, frame, version),
                |m| PacketModel::UnsubAck(m),
            ),
            PacketType::PingResp => Ok(PacketModel::PingResp),
            PacketType::Disconnect => match version {
                Protocol::V4 => Err(PacketParseError::InvalidPacketType(spec_packet_type_num(t))),
                Protocol::V5 => lift(
                    spec_read_disconnect(header_len, remaining_len, frame, version),
                    |m| PacketModel::Disconnect(m),
                ),
            },
            _ => Err(PacketParseError::InvalidPacketType(spec_packet_type_num(t))),
        },
    }
}

/// What `read_from_network` does to the receive buffer `s`: the result and
/// the buffer it leaves. A framing error that cannot be mended by more data
/// empties the buffer. A frame that runs past the data is reported as
/// `MalformedRemainingLength` and leaves the buffer as it is, to wait for
/// the rest, as does a header that needs more bytes. A framed packet is
/// taken off the front, whether it decodes or not.
pub open spec fn spec_read_from_network(s: Seq<u8>, version: Protocol) -> (
    Result<PacketModel, PacketParseError>,
    Seq<u8>,
) {
    match spec_parse_fixed_header(s) {
        Err(e) => (
            Err(spec_fixed_header_error(e)),
            if e == FixedHeaderError::MalformedRemainingLength {
                Seq::empty()
            } else {
                s
            },
        ),
        Ok((byte1, header_len, remaining_len)) => if header_len + remaining_len > s.len() {
            (Err(PacketParseError::MalformedRemainingLength), s)
        } else {
            (
                spec_read_packet(
                    byte1,
                    header_len,
                    remaining_len,
                    s.take(header_len + remaining_len),
                    version,
                ),
                s.skip(header_len + remaining_len),
            )
        },
    }
}

/// Cuts one packet off the front of the receive buffer and decodes it.
pub fn read_from_network(stream: &mut BytesMut, version: Protocol) -> (r: Result<
    Packet,
    PacketParseError,
>)
    ensures
        match spec_read_from_network(bytes_mut_view(*old(stream)), version).0 {
            Ok(m) => r matches Ok(p) && p@ == m,
            Err(e) => r matches Err(e2) && e2 == e,
        },
        bytes_mut_view(*final(stream)) == spec_read_from_network(
            bytes_mut_view(*old(stream)),
            version,
        ).1,
{
    let fixed_header = match parse_fixed_header(bytes_mut_as_slice(stream)) {
        Ok(fixed_header) => {
            if fixed_header.frame_length() > bytes_mut_len(stream) {
                return Err(FixedHeaderError::MalformedRemainingLength.into_packet_error());
            }
            fixed_header
        },
        Err(err) => {
            if err.to_discard() {
                let n = bytes_mut_len(stream);
                let _ = bytes_mut_split_to(stream, n);
            }
            return Err(err.into_packet_error());
        },
    };
    let packet = bytes_mut_split_to(stream, fixed_header.frame_length());
    let packet_type = fixed_header.packet_type()?;
    let packet = bytes_mut_freeze(packet);
    let packet = match packet_type {
        PacketType::ConnAck => Packet::ConnAck(ConnAck::read(fixed_header, packet, version)?),
        PacketType::Publish => Packet::Publish(Publish::read(fixed_header, packet, version)?),
        PacketType::PubAck => Packet::PubAck(PubAck::read(fixed_header, packet, version)?),
        PacketType::PubRec => Packet::PubRec(PubRec::read(fixed_header, packet, version)?),
        PacketType::PubRel => Packet::PubRel(PubRel::read(fixed_header, packet, version)?),
        PacketType::PubComp => Packet::PubComp(PubComp::read(fixed_header, packet, version)?),
        PacketType::SubAck => Packet::SubAck(SubAck::read(fixed_header, packet, version)?),
        PacketType::UnsubAck => Packet::UnsubAck(UnsubAck::read(fixed_header, packet, version)?),
        PacketType::PingResp => Packet::PingResp,
        PacketType::Disconnect => match version {
            Protocol::V4 => return Err(PacketParseError::InvalidPacketType(packet_type.as_u8())),
            Protocol::V5 => Packet::Disconnect(Disconnect::read(fixed_header, packet, version)?),
        },
        ty => {
            return Err(PacketParseError::InvalidPacketType(packet_type.as_u8()));
        },
    };
    Ok(packet)
}

/// The flags that the first byte of an encoded PUBLISH carries read back as
/// they were put.
proof fn lemma_publish_byte1_bits(dv: u8, q: u8, rv: u8)
    requires
        dv <= 1,
        q <= 2,
        rv <= 1,
    ensures
        ({
            let b: u8 = (48 + 8 * dv + 2 * q + rv) as u8;
            &&& (b & 0b0110) >> 1 == q
            &&& (b & 0b1000 != 0) == (dv == 1)
            &&& (b & 1 != 0) == (rv == 1)
            &&& b / 16 == 3
        }),
{
    assert({
        let b: u8 = (48 + 8 * dv + 2 * q + rv) as u8;
        &&& (b & 0b0110) >> 1 == q
        &&& (b & 0b1000 != 0) == (dv == 1)
        &&& (b & 1 != 0) == (rv == 1)
        &&& b / 16 == 3
    }) by (bit_vector)
        requires
            dv <= 1,
            q <= 2,
            rv <= 1,
    ;
}

/// Whether a message can be encoded and read back: its topic fits a
/// two-byte length, its packet identifier is not zero, its encoding fits the
/// largest remaining length, and it has raw properties exactly when it is
/// MQTT 5.
pub open spec fn publish_encodable(m: PublishModel) -> bool {
    &&& spec_publish_body(m).len() < 268_435_456
    &&& utf8_bytes(m.topic).len() <= 65535
    &&& (m.qos matches QoSWithPacketId::AtLeastOnce(id) ==> id != 0)
    &&& (m.qos matches QoSWithPacketId::ExactlyOnce(id) ==> id != 0)
    &&& (m.protocol == Protocol::V4 ==> m.properties is None)
    &&& (m.protocol == Protocol::V5 ==> m.properties is Some)
}

/// The body of an encoded PUBLISH, behind a fixed header of `hl` bytes that
/// starts with the encoded first byte, decodes to the message.
proof fn lemma_read_publish_back(m: PublishModel, hl: int, frame: Seq<u8>)
    requires
        publish_encodable(m),
        0 <= hl <= frame.len(),
        frame.skip(hl) == spec_publish_body(m),
    ensures
        spec_read_publish(spec_publish_byte1(m), hl, frame, m.protocol) == Ok::<
            PublishModel,
            PacketParseError,
        >(m),
{
    let b1 = spec_publish_byte1(m);
    let body = spec_publish_body(m);
    let dv: u8 = if m.dup {
        1
    } else {
        0
    };
    let rv: u8 = if m.retain {
        1
    } else {
        0
    };
    let q: u8 = match m.qos {
        QoSWithPacketId::AtMostOnce => 0,
        QoSWithPacketId::AtLeastOnce(_) => 1,
        QoSWithPacketId::ExactlyOnce(_) => 2,
    };
    lemma_publish_byte1_bits(dv, q, rv);
    assert(b1 == (48 + 8 * dv + 2 * q + rv) as u8);
    let topic_bytes = spec_mqtt_bytes(utf8_bytes(m.topic));
    let id_bytes = match m.qos {
        QoSWithPacketId::AtMostOnce => Seq::<u8>::empty(),
        QoSWithPacketId::AtLeastOnce(id) => u16_bytes(id),
        QoSWithPacketId::ExactlyOnce(id) => u16_bytes(id),
    };
    let props_bytes = match m.protocol {
        Protocol::V4 => Seq::<u8>::empty(),
        Protocol::V5 => match m.properties {
            Some(p) => spec_encode_varint(p.len()) + p,
            None => seq![0u8],
        },
    };
    let after_topic = id_bytes + props_bytes + m.payload;
    assert(body =~= topic_bytes + after_topic);
    lemma_mqtt_string_roundtrip(m.topic, after_topic);
    let after_id = props_bytes + m.payload;
    match m.qos {
        QoSWithPacketId::AtMostOnce => {
            assert(after_topic =~= after_id);
        },
        QoSWithPacketId::AtLeastOnce(id) => {
            lemma_u16_bytes_roundtrip(id);
            assert(after_topic.skip(2) =~= after_id);
        },
        QoSWithPacketId::ExactlyOnce(id) => {
            lemma_u16_bytes_roundtrip(id);
            assert(after_topic.skip(2) =~= after_id);
        },
    }
    match m.protocol {
        Protocol::V4 => {
            assert(after_id =~= m.payload);
        },
        Protocol::V5 => {
            let p = m.properties->Some_0;
            assert(body.len() >= p.len());
            lemma_varint_roundtrip(p.len(), p + m.payload);
            lemma_encode_varint_len(p.len());
            assert(after_id =~= spec_encode_varint(p.len()) + (p + m.payload));
            let k = spec_encode_varint(p.len()).len() as int;
            assert(after_id.subrange(k, k + p.len()) =~= p);
            assert(after_id.skip(k + p.len()) =~= m.payload);
        },
    }
}

/// A PUBLISH that the library encodes is framed and decoded back to itself
/// from the front of the receive buffer, whatever follows it, and the
/// buffer is left with what follows.
pub proof fn lemma_publish_roundtrip(m: PublishModel, rest: Seq<u8>)
    requires
        publish_encodable(m),
    ensures
        spec_read_from_network(spec_publish_bytes(m) + rest, m.protocol) == (
            Ok::<PacketModel, PacketParseError>(PacketModel::Publish(m)),
            rest,
        ),
{
    let b1 = spec_publish_byte1(m);
    let body = spec_publish_body(m);
    let enc = spec_encode_varint(body.len());
    let s = spec_publish_bytes(m) + rest;
    let dv: u8 = if m.dup {
        1
    } else {
        0
    };
    let rv: u8 = if m.retain {
        1
    } else {
        0
    };
    let q: u8 = match m.qos {
        QoSWithPacketId::AtMostOnce => 0,
        QoSWithPacketId::AtLeastOnce(_) => 1,
        QoSWithPacketId::ExactlyOnce(_) => 2,
    };
    lemma_publish_byte1_bits(dv, q, rv);
    assert(b1 == (48 + 8 * dv + 2 * q + rv) as u8);
    lemma_encode_varint_len(body.len());
    assert(s.skip(1) =~= enc + (body + rest));
    lemma_varint_roundtrip(body.len(), body + rest);
    let hl = enc.len() as int + 1;
    let n = hl + body.len() as int;
    assert(s.take(n) =~= seq![b1] + enc + body);
    assert(s.skip(n) =~= rest);
    let frame = s.take(n);
    assert(frame.skip(hl) =~= body);
    lemma_read_publish_back(m, hl, frame);
}

} // verus!
