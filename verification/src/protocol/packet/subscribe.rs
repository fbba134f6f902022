//! The SUBSCRIBE packet and the options of a topic filter.
use crate::buffer::{bytes_as_slice, bytes_len, bytes_mut_put_u16, bytes_mut_put_u8,
    bytes_mut_view, bytes_view, max_buffer_len, u16_bytes};
use crate::protocol::packet::{
    spec_encode_varint, spec_mqtt_bytes, write_mqtt_bytes, write_remaining_length,
    lemma_encode_varint_len_usize,
};
use crate::protocol::spec_len_len;
use bytes::{Bytes, BytesMut};
use vstd::prelude::*;

verus! {

/// Subscription packet
pub enum Subscribe {
    V4 { packet_id: u16, payload: Bytes },
    V5 { packet_id: u16, properties: Bytes, filters: Bytes },
}

/// The bytes that `Subscribe::write` puts for an MQTT 3.1.1 subscription:
/// the type byte, the remaining length (counted as the filters and the
/// packet identifier), the packet identifier and the filters behind a
/// two-byte length.
pub open spec fn spec_subscribe_v4_bytes(packet_id: u16, payload: Seq<u8>) -> Seq<u8> {
    seq![0x82u8] + spec_encode_varint((payload.len() + 2) as nat) + u16_bytes(packet_id)
        + spec_mqtt_bytes(payload)
}

impl Subscribe {
    /// The packet identifier, in either version.
    pub open spec fn spec_packet_id(&self) -> u16 {
        match *self {
            Subscribe::V4 { packet_id, .. } => packet_id,
            Subscribe::V5 { packet_id, .. } => packet_id,
        }
    }

    pub fn set_packet_id(&mut self, new_packet_id: u16)
        ensures
            final(self).spec_packet_id() == new_packet_id,
            match (*old(self), *final(self)) {
                (Subscribe::V4 { payload: a, .. }, Subscribe::V4 { payload: b, .. }) => a == b,
                (
                    Subscribe::V5 { properties: p1, filters: f1, .. },
                    Subscribe::V5 { properties: p2, filters: f2, .. },
                ) => p1 == p2 && f1 == f2,
                _ => false,
            },
    {
        match self {
            Subscribe::V4 { packet_id, .. } => *packet_id = new_packet_id,
            Subscribe::V5 { packet_id, .. } => *packet_id = new_packet_id,
        }
    }

    pub fn packet_id(&self) -> (r: u16)
        ensures
            r == self.spec_packet_id(),
    {
        match self {
            Subscribe::V4 { packet_id, .. } => *packet_id,
            Subscribe::V5 { packet_id, .. } => *packet_id,
        }
    }

    /// Appends the encoded packet; returns one more than the length of the
    /// remaining-length field plus the remaining length it announces.
    /// Encoding MQTT 5 subscriptions is not provided.
    pub fn write(&self, buffer: &mut BytesMut) -> (r: usize)
        requires
            self is V4,
            self matches Subscribe::V4 { payload, .. } && bytes_mut_view(*old(buffer)).len() + 15
                + bytes_view(*payload).len() <= max_buffer_len(),
        ensures
            self matches Subscribe::V4 { packet_id, payload } && bytes_mut_view(*final(buffer))
                == bytes_mut_view(*old(buffer)) + spec_subscribe_v4_bytes(
                *packet_id,
                bytes_view(*payload),
            ) && r == 1 + spec_encode_varint((bytes_view(*payload).len() + 2) as nat).len()
                + bytes_view(*payload).len() + 2,
    {
        match self {
            Self::V4 { packet_id, payload: filters } => {
                let ghost start = bytes_mut_view(*buffer);
                bytes_mut_put_u8(buffer, 0x82);
                let remaining_len = bytes_len(filters) + 2;
                proof {
                    lemma_encode_varint_len_usize(remaining_len);
                }
                let remaining_len_bytes = write_remaining_length(buffer, remaining_len);
                bytes_mut_put_u16(buffer, *packet_id);
                write_mqtt_bytes(buffer, bytes_as_slice(filters));
                assert(bytes_mut_view(*buffer) =~= start + spec_subscribe_v4_bytes(
                    *packet_id,
                    bytes_view(*filters),
                ));
                1 + remaining_len_bytes + remaining_len
            },
            Self::V5 { .. } => {
                0
            },
        }
    }
}

pub struct Filter {
    pub path: String,
    pub options: SubscribeOptions,
}

pub struct SubscribeOptions(u8);

#[derive(Debug, Clone, Copy, PartialEq, Eq, Structural)]
pub enum RetainForwardRule {
    OnEverySubscribe,
    OnNewSubscribe,
    Never,
}

/// The bits of the subscription options byte that a retain handling rule
/// sets.
pub open spec fn spec_retain_bits(rule: RetainForwardRule) -> u8 {
    match rule {
        RetainForwardRule::OnEverySubscribe => 0u8,
        RetainForwardRule::OnNewSubscribe => 16u8,
        RetainForwardRule::Never => 32u8,
    }
}

impl RetainForwardRule {
    /// Sets the retain handling bits of a subscription options byte.
    pub fn merge_to_u8(&self, val: &mut u8)
        ensures
            *final(val) == *old(val) | spec_retain_bits(*self),
    {
        match self {
            RetainForwardRule::OnEverySubscribe => {
                let v: u8 = *val;
                assert(v | 0u8 == v) by (bit_vector);
            },
            RetainForwardRule::OnNewSubscribe => *val = *val | (1u8 << 4u8),
            RetainForwardRule::Never => *val = *val | (2u8 << 4u8),
        }
        assert((1u8 << 4u8) == 16u8) by (bit_vector);
        assert((2u8 << 4u8) == 32u8) by (bit_vector);
    }
}

impl Default for RetainForwardRule {
    fn default() -> (r: Self)
        ensures
            r == RetainForwardRule::OnEverySubscribe,
    {
        Self::OnEverySubscribe
    }
}

pub struct VariableHeaderV4 {
    packet_id: u16,
}

pub struct VariableHeaderV5 {
    packet_id: u16,
    id: Option<usize>,
    user_properties: Bytes,
}

} // verus!
