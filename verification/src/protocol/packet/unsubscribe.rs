//! The UNSUBSCRIBE packet: a packet identifier and the topic filters to
//! drop.
use crate::buffer::{
    bytes_mut_freeze, bytes_mut_new, bytes_mut_put_u16, bytes_mut_put_u8, bytes_mut_view, bytes_view,
    max_buffer_len, u16_bytes,
};
use crate::protocol::packet::{
    lemma_encode_varint_len_usize, spec_encode_varint, spec_mqtt_bytes, utf8_bytes,
    write_mqtt_string, write_remaining_length,
};
use crate::protocol::packet::{lemma_varint_roundtrip, spec_parse_fixed_header, FixedHeaderError};
use crate::protocol::{spec_packet_type, PacketType, Protocol};
use bytes::Bytes;
use std::sync::Arc;
use vstd::prelude::*;

verus! {

/// The topic filters, each behind a two-byte length, in order.
pub open spec fn spec_topics_bytes(topics: Seq<Seq<char>>) -> Seq<u8>
    decreases topics.len(),
{
    if topics.len() == 0 {
        Seq::empty()
    } else {
        spec_topics_bytes(topics.drop_last()) + spec_mqtt_bytes(utf8_bytes(topics.last()))
    }
}

/// The texts of shared topics.
pub open spec fn topic_texts(topics: Seq<Arc<String>>) -> Seq<Seq<char>> {
    topics.map_values(|t: Arc<String>| (*t)@)
}

/// The variable header and payload of an UNSUBSCRIBE: the packet
/// identifier, for MQTT 5 an empty property list, and the topic filters.
pub open spec fn spec_unsubscribe_body(packet_id: u16, topics: Seq<Seq<char>>, protocol: Protocol) -> Seq<u8> {
    u16_bytes(packet_id) + (match protocol {
        Protocol::V4 => Seq::<u8>::empty(),
        Protocol::V5 => seq![0u8],
    }) + spec_topics_bytes(topics)
}

/// The encoded UNSUBSCRIBE.
pub open spec fn spec_unsubscribe_bytes(packet_id: u16, topics: Seq<Seq<char>>, protocol: Protocol) -> Seq<u8> {
    seq![0xA2u8] + spec_encode_varint(spec_unsubscribe_body(packet_id, topics, protocol).len())
        + spec_unsubscribe_body(packet_id, topics, protocol)
}

/// An UNSUBSCRIBE that the library encodes frames as exactly itself,
/// whatever follows it: its first byte names the UNSUBSCRIBE type with the
/// reserved flags 0b0010, and its remaining length is the length of its
/// body.
pub proof fn lemma_unsubscribe_frames(
    packet_id: u16,
    topics: Seq<Seq<char>>,
    protocol: Protocol,
    rest: Seq<u8>,
)
    requires
        spec_unsubscribe_body(packet_id, topics, protocol).len() < 268_435_456,
    ensures
        ({
            let b = spec_unsubscribe_bytes(packet_id, topics, protocol);
            let n = spec_unsubscribe_body(packet_id, topics, protocol).len() as int;
            &&& spec_parse_fixed_header(b + rest) == Ok::<(u8, int, int), FixedHeaderError>(
                (0xA2u8, b.len() - n, n),
            )
            &&& spec_packet_type(0xA2u8 >> 4u8) == Some(PacketType::Unsubscribe)
            &&& 0xA2u8 & 0x0Fu8 == 0b0010u8
        }),
{
    let body = spec_unsubscribe_body(packet_id, topics, protocol);
    let b = spec_unsubscribe_bytes(packet_id, topics, protocol);
    lemma_varint_roundtrip(body.len(), body + rest);
    assert((b + rest).skip(1) =~= spec_encode_varint(body.len()) + (body + rest));
    assert((0xA2u8 >> 4u8) == 10u8 && 0xA2u8 & 0x0Fu8 == 0b0010u8) by (bit_vector);
}

/// The bytes of the first `i` topics never outgrow those of all of them.
proof fn lemma_topics_len_grows(ts: Seq<Seq<char>>, i: int)
    requires
        0 <= i < ts.len(),
    ensures
        spec_topics_bytes(ts.take(i + 1)).len() <= spec_topics_bytes(ts).len(),
    decreases ts.len() - i,
{
    if i + 1 < ts.len() {
        lemma_topics_len_grows(ts, i + 1);
        assert(ts.take(i + 2).drop_last() =~= ts.take(i + 1));
    } else {
        assert(ts.take(i + 1) =~= ts);
    }
}

/// The encoded UNSUBSCRIBE for these topic filters.
pub fn unsubscribe_data(packet_id: u16, topics: &Vec<Arc<String>>, protocol: Protocol) -> (r: Bytes)
    requires
        spec_unsubscribe_body(packet_id, topic_texts(topics@), protocol).len() + 20
            <= max_buffer_len(),
    ensures
        bytes_view(r) == spec_unsubscribe_bytes(packet_id, topic_texts(topics@), protocol),
{
    let ghost ts = topic_texts(topics@);
    let mut len: usize = 2 + match protocol {
        Protocol::V4 => 0,
        Protocol::V5 => 1,
    };
    let mut i: usize = 0;
    while i < topics.len()
        invariant
            i <= topics@.len(),
            ts == topic_texts(topics@),
            spec_unsubscribe_body(packet_id, ts, protocol).len() + 20 <= max_buffer_len(),
            len == spec_unsubscribe_body(packet_id, ts.take(i as int), protocol).len(),
        decreases topics@.len() - i,
    {
        proof {
            assert(ts.take(i + 1).drop_last() =~= ts.take(i as int));
            lemma_topics_len_grows(ts, i as int);
        }
        len = len + 2 + (*topics[i]).as_str().as_bytes().len();
        i = i + 1;
    }
    assert(ts.take(topics@.len() as int) =~= ts);
    proof {
        lemma_encode_varint_len_usize(len);
    }
    let mut buffer = bytes_mut_new();
    bytes_mut_put_u8(&mut buffer, 0xA2);
    write_remaining_length(&mut buffer, len);
    bytes_mut_put_u16(&mut buffer, packet_id);
    if let Protocol::V5 = protocol {
        bytes_mut_put_u8(&mut buffer, 0);
    }
    let ghost head = bytes_mut_view(buffer);
    let mut j: usize = 0;
    while j < topics.len()
        invariant
            j <= topics@.len(),
            ts == topic_texts(topics@),
            head.len() + spec_topics_bytes(ts).len() <= max_buffer_len(),
            bytes_mut_view(buffer) == head + spec_topics_bytes(ts.take(j as int)),
        decreases topics@.len() - j,
    {
        proof {
            assert(ts.take(j + 1).drop_last() =~= ts.take(j as int));
            lemma_topics_len_grows(ts, j as int);
        }
        write_mqtt_string(&mut buffer, (*topics[j]).as_str());
        assert(bytes_mut_view(buffer) =~= head + spec_topics_bytes(ts.take(j + 1)));
        j = j + 1;
    }
    assert(bytes_mut_view(buffer) =~= spec_unsubscribe_bytes(packet_id, ts, protocol));
    bytes_mut_freeze(buffer)
}

} // verus!
