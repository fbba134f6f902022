use bytes::{Bytes, BytesMut};
use for_mqtt_client::protocol::packet::frame::{read_from_network, Packet};
use for_mqtt_client::protocol::packet::ping::PingReq;
use for_mqtt_client::protocol::packet::{length, parse_fixed_header, write_remaining_length, FixedHeaderError};
use for_mqtt_client::protocol::{PacketParseError, PacketType, Protocol};
use for_mqtt_client::{qos, QoS};

#[test]
fn varint_encodes_example_values() {
    let cases: [(usize, &[u8]); 6] = [
        (0, &[0x00]),
        (127, &[0x7f]),
        (128, &[0x80, 0x01]),
        (16_383, &[0xff, 0x7f]),
        (16_384, &[0x80, 0x80, 0x01]),
        (268_435_455, &[0xff, 0xff, 0xff, 0x7f]),
    ];
    for (value, expected) in cases {
        let mut buf = BytesMut::new();
        let n = write_remaining_length(&mut buf, value);
        assert_eq!(n, expected.len());
        assert_eq!(&buf[..], expected);
        assert_eq!(length(&buf[..]), Ok((expected.len(), value)));
    }
}

#[test]
fn varint_malformed_and_short() {
    assert_eq!(length(&[0xff, 0xff, 0xff, 0xff, 0x01]), Err(FixedHeaderError::MalformedRemainingLength));
    assert_eq!(length(&[0x80]), Err(FixedHeaderError::InsufficientBytes(1)));
}

#[test]
fn fixed_header_needs_two_bytes() {
    assert_eq!(parse_fixed_header(&[0x20]).err(), Some(FixedHeaderError::InsufficientBytes(1)));
    let h = parse_fixed_header(&[0x20, 0x02, 0x00, 0x00]).unwrap();
    assert_eq!(h.byte1, 0x20);
    assert_eq!(h.fixed_header_len, 2);
    assert_eq!(h.remaining_len, 2);
    assert_eq!(h.packet_type(), Ok(PacketType::ConnAck));
}

#[test]
fn pingreq_bytes() {
    assert_eq!(PingReq::new(), Bytes::from_static(&[0xC0, 0x00]));
}

#[test]
fn qos_from_number() {
    assert_eq!(qos(0), Ok(QoS::AtMostOnce));
    assert_eq!(qos(2), Ok(QoS::ExactlyOnce));
    assert_eq!(qos(3), Err(PacketParseError::InvalidQoS(3)));
}

#[test]
fn read_connack_from_network() {
    let mut buf = BytesMut::from(&[0x20u8, 0x02, 0x01, 0x00, 0xD0, 0x00][..]);
    match read_from_network(&mut buf, Protocol::V4) {
        Ok(Packet::ConnAck(ack)) => assert!(ack.session_present),
        _ => panic!("expected a CONNACK"),
    }
    assert_eq!(&buf[..], &[0xD0, 0x00]);
    assert!(matches!(read_from_network(&mut buf, Protocol::V4), Ok(Packet::PingResp)));
    assert!(buf.is_empty());
}

use for_mqtt_client::protocol::packet::connack::{ConnAck, ConnectReturnCode, ConnectReturnFailCode, ConnectReturnFailCodeV3};
use for_mqtt_client::protocol::packet::disconnect::Disconnect;
use for_mqtt_client::protocol::packet::pubcommon::{PubAck, PubComp, PubRec, PubRel};
use for_mqtt_client::protocol::packet::publish::Publish;
use for_mqtt_client::protocol::packet::suback::{SubAck, SubscribeReasonCode};
use for_mqtt_client::protocol::packet::subscribe::{RetainForwardRule, Subscribe};
use for_mqtt_client::protocol::packet::unsuback::{UnsubAck, UnsubAckReason};
use for_mqtt_client::QoSWithPacketId;
use std::sync::Arc;

fn frame(bytes: &[u8], version: Protocol) -> Result<Packet, PacketParseError> {
    let mut buf = BytesMut::from(bytes);
    read_from_network(&mut buf, version)
}

#[test]
fn connack_refused_v4() {
    match frame(&[0x20, 0x02, 0x00, 0x05], Protocol::V4) {
        Ok(Packet::ConnAck(ConnAck { session_present, code, .. })) => {
            assert!(!session_present);
            assert_eq!(code, ConnectReturnCode::Fail(ConnectReturnFailCode::FailV3(ConnectReturnFailCodeV3::NotAuthorized)));
        }
        _ => panic!("expected a CONNACK"),
    }
}

#[test]
fn connack_bad_code_is_error() {
    assert!(matches!(frame(&[0x20, 0x02, 0x00, 0x09], Protocol::V4), Err(PacketParseError::InvalidConnectReturnCode(9))));
}

#[test]
fn connack_v5_with_properties() {
    // session expiry interval 17 = 10, receive maximum 33 = 20
    let bytes = [0x20, 0x0b, 0x00, 0x00, 0x08, 0x11, 0, 0, 0, 10, 0x21, 0, 20];
    match frame(&bytes, Protocol::V5) {
        Ok(Packet::ConnAck(ack)) => {
            assert_eq!(ack.code, ConnectReturnCode::Success);
            let p = ack.properties.expect("properties");
            assert_eq!(p.session_expiry_interval, Some(10));
            assert_eq!(p.receive_max, Some(20));
            assert_eq!(p.max_qos, None);
        }
        _ => panic!("expected a CONNACK"),
    }
}

#[test]
fn suback_v4_codes() {
    match frame(&[0x90, 0x05, 0x00, 0x07, 0x00, 0x01, 0x80], Protocol::V4) {
        Ok(Packet::SubAck(SubAck::V4 { packet_id, return_codes })) => {
            assert_eq!(packet_id, 7);
            assert_eq!(return_codes, vec![SubscribeReasonCode::QoS0, SubscribeReasonCode::QoS1, SubscribeReasonCode::Unspecified]);
        }
        _ => panic!("expected a SUBACK"),
    }
}

#[test]
fn suback_invalid_code() {
    assert!(matches!(frame(&[0x90, 0x03, 0x00, 0x07, 0x05], Protocol::V4), Err(PacketParseError::InvalidSubscribeReasonCode(5))));
}

#[test]
fn suback_without_codes_is_malformed() {
    assert!(matches!(frame(&[0x90, 0x02, 0x00, 0x07], Protocol::V4), Err(PacketParseError::MalformedPacket)));
}

#[test]
fn unsuback_v5_codes() {
    match frame(&[0xB0, 0x05, 0x00, 0x03, 0x00, 0x00, 0x11], Protocol::V5) {
        Ok(Packet::UnsubAck(UnsubAck::V5ReadMode { packet_id, properties, return_codes })) => {
            assert_eq!(packet_id, 3);
            assert!(properties.is_none());
            assert_eq!(return_codes, vec![UnsubAckReason::Success, UnsubAckReason::NoSubscriptionExisted]);
        }
        _ => panic!("expected an UNSUBACK"),
    }
}

#[test]
fn unsuback_v4() {
    let p = frame(&[0xB0, 0x02, 0x00, 0x09], Protocol::V4);
    match p {
        Ok(Packet::UnsubAck(ack)) => assert_eq!(ack.packet_id(), 9),
        _ => panic!("expected an UNSUBACK"),
    }
}

#[test]
fn puback_v4_write_and_read() {
    let ack = PubAck::new(0x1234, Protocol::V4);
    let data = ack.data();
    assert_eq!(&data[..], &[0x40, 0x02, 0x12, 0x34]);
    match frame(&data, Protocol::V4) {
        Ok(Packet::PubAck(p)) => assert_eq!(p.packet_id(), 0x1234),
        _ => panic!("expected a PUBACK"),
    }
}

#[test]
fn pubrec_pubrel_pubcomp_type_bytes() {
    assert_eq!(&PubRec::new(1, Protocol::V4).data()[..], &[0x50, 0x02, 0x00, 0x01]);
    assert_eq!(&PubRel::new(1, Protocol::V4).data()[..], &[0x62, 0x02, 0x00, 0x01]);
    assert_eq!(&PubComp::new(1, Protocol::V4).data()[..], &[0x70, 0x02, 0x00, 0x01]);
}

#[test]
fn puback_v4_wrong_length() {
    assert!(matches!(frame(&[0x40, 0x03, 0x00, 0x01, 0x00], Protocol::V4), Err(PacketParseError::MalformedRemainingLength)));
}

#[test]
fn publish_qos1_roundtrip_v4() {
    let p = Publish::new(Arc::new("a/b".to_string()), QoSWithPacketId::AtLeastOnce(10), Arc::new(Bytes::from_static(b"hi")), true, Protocol::V4);
    let data = p.data();
    assert_eq!(&data[..], &[0x33, 0x09, 0x00, 0x03, b'a', b'/', b'b', 0x00, 0x0a, b'h', b'i']);
    match frame(&data, Protocol::V4) {
        Ok(Packet::Publish(q)) => {
            assert_eq!(q.topic, "a/b");
            assert_eq!(q.qos, QoSWithPacketId::AtLeastOnce(10));
            assert!(q.retain);
            assert!(!q.dup);
            assert_eq!(&q.payload[..], b"hi");
        }
        _ => panic!("expected a PUBLISH"),
    }
}

#[test]
fn publish_qos0_v5_roundtrip_and_dup() {
    let mut p = Publish::new(Arc::new("t".to_string()), QoSWithPacketId::AtMostOnce, Arc::new(Bytes::from_static(b"x")), false, Protocol::V5);
    assert_eq!(&p.data()[..], &[0x30, 0x05, 0x00, 0x01, b't', 0x00, b'x']);
    let dup = p.dup_data();
    assert_eq!(dup[0], 0x38);
    match frame(&dup, Protocol::V5) {
        Ok(Packet::Publish(q)) => {
            assert!(q.dup);
            assert_eq!(q.qos, QoSWithPacketId::AtMostOnce);
            assert_eq!(q.properties.as_deref(), Some(&b""[..]));
            assert_eq!(&q.payload[..], b"x");
        }
        _ => panic!("expected a PUBLISH"),
    }
}

#[test]
fn publish_packet_id_zero_is_error() {
    assert!(matches!(frame(&[0x32, 0x05, 0x00, 0x01, b't', 0x00, 0x00], Protocol::V4), Err(PacketParseError::PacketIdZero)));
}

#[test]
fn publish_invalid_qos() {
    assert!(matches!(frame(&[0x36, 0x03, 0x00, 0x01, b't'], Protocol::V4), Err(PacketParseError::InvalidQoS(3))));
}

#[test]
fn disconnect_v4_is_refused_v5_read() {
    assert!(matches!(frame(&[0xE0, 0x00], Protocol::V4), Err(PacketParseError::InvalidPacketType(14))));
    match frame(&[0xE0, 0x01, 0x8e], Protocol::V5) {
        Ok(Packet::Disconnect(d)) => assert_eq!(d.reason_code, 0x8e),
        _ => panic!("expected a DISCONNECT"),
    }
    assert_eq!(&Disconnect::new(Protocol::V5).data()[..], &[0xE0, 0x00]);
}

#[test]
fn frame_longer_than_data_waits_for_more() {
    let mut buf = BytesMut::from(&[0x20u8, 0x05, 0x00][..]);
    assert!(matches!(read_from_network(&mut buf, Protocol::V4), Err(PacketParseError::MalformedRemainingLength)));
    assert_eq!(&buf[..], &[0x20, 0x05, 0x00]);
    let mut buf = BytesMut::from(&[0x90u8, 0x03, 0x00, 0x05][..]);
    assert!(matches!(read_from_network(&mut buf, Protocol::V4), Err(PacketParseError::MalformedRemainingLength)));
    assert_eq!(&buf[..], &[0x90, 0x03, 0x00, 0x05]);
    buf.extend_from_slice(&[0x01]);
    assert!(matches!(read_from_network(&mut buf, Protocol::V4), Ok(Packet::SubAck(_))));
    assert!(buf.is_empty());
}

#[test]
fn short_header_keeps_buffer() {
    let mut buf = BytesMut::from(&[0x20u8][..]);
    assert!(matches!(read_from_network(&mut buf, Protocol::V4), Err(PacketParseError::InsufficientBytes(1))));
    assert_eq!(buf.len(), 1);
}

#[test]
fn unexpected_packet_type() {
    assert!(matches!(frame(&[0x10, 0x00], Protocol::V4), Err(PacketParseError::InvalidPacketType(1))));
    assert!(matches!(frame(&[0x00, 0x00], Protocol::V4), Err(PacketParseError::InvalidPacketType(0))));
}

#[test]
fn subscribe_v4_write() {
    let s = Subscribe::V4 { packet_id: 5, payload: Bytes::from_static(&[0x00, 0x01, b'a', 0x01]) };
    let mut buf = BytesMut::new();
    let n = s.write(&mut buf);
    assert_eq!(&buf[..], &[0x82, 0x06, 0x00, 0x05, 0x00, 0x04, 0x00, 0x01, b'a', 0x01]);
    assert_eq!(n, 1 + 1 + 6);
}

#[test]
fn retain_forward_rule_bits() {
    let mut v = 1u8;
    RetainForwardRule::OnNewSubscribe.merge_to_u8(&mut v);
    assert_eq!(v, 0x11);
    let mut w = 2u8;
    RetainForwardRule::Never.merge_to_u8(&mut w);
    assert_eq!(w, 0x22);
    let mut x = 2u8;
    RetainForwardRule::OnEverySubscribe.merge_to_u8(&mut x);
    assert_eq!(x, 2);
    assert_eq!(RetainForwardRule::default(), RetainForwardRule::OnEverySubscribe);
}

#[test]
fn puback_v5_success_write_and_read() {
    let ack = PubAck::new(7, Protocol::V5);
    let data = ack.data();
    assert_eq!(&data[..], &[0x40, 0x02, 0x00, 0x07]);
    match frame(&data, Protocol::V5) {
        Ok(Packet::PubAck(p)) => {
            assert_eq!(p.packet_id(), 7);
            assert!(matches!(
                p,
                for_mqtt_client::protocol::packet::pubcommon::PubCommon::V5 {
                    reason: for_mqtt_client::protocol::packet::pubcommon::PubAckReason::Success,
                    reason_string: None,
                    ..
                }
            ));
        },
        _ => panic!("expected a PUBACK"),
    }
}

#[test]
fn discard_only_on_overlong_length() {
    let e = parse_fixed_header(&[0x10, 0x80, 0x80, 0x80, 0x80]).err().unwrap();
    assert_eq!(e, FixedHeaderError::MalformedRemainingLength);
    assert!(e.to_discard());
    let e = parse_fixed_header(&[0x10, 0x80, 0x80, 0x80]).err().unwrap();
    assert!(matches!(e, FixedHeaderError::InsufficientBytes(_)));
    assert!(!e.to_discard());
    let e = parse_fixed_header(&[0x10]).err().unwrap();
    assert!(!e.to_discard());
}

#[test]
fn length_reads_what_was_written() {
    for n in [0usize, 127, 128, 321, 16_384, 2_097_152, 268_435_455] {
        let mut buf = BytesMut::new();
        let k = write_remaining_length(&mut buf, n);
        buf.extend_from_slice(&[0xff, 0xff]);
        assert_eq!(length(&buf), Ok((k, n)));
        assert_eq!(k, for_mqtt_client::protocol::len_len(n));
        assert!(1 <= k && k <= 4);
    }
}
