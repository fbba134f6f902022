//! PINGREQ and PINGRESP: the keep-alive exchange.
use crate::buffer::{bytes_mut_freeze, bytes_mut_new, bytes_mut_put_u8, bytes_mut_view, bytes_view,
    max_buffer_len};
use crate::protocol::packet::{spec_parse_fixed_header, FixedHeaderError};
use crate::protocol::{spec_packet_type, PacketType};
use bytes::{Bytes, BytesMut};
use vstd::prelude::*;

verus! {

pub struct PingReq;

/// A PINGREQ frames as exactly itself, whatever follows it: its first byte
/// names the PINGREQ type with no flags, and nothing remains after the
/// header.
pub proof fn lemma_pingreq_frames(rest: Seq<u8>)
    ensures
        spec_parse_fixed_header(seq![0xC0u8, 0x00u8] + rest) == Ok::<
            (u8, int, int),
            FixedHeaderError,
        >((0xC0u8, 2, 0)),
        spec_packet_type(0xC0u8 >> 4u8) == Some(PacketType::PingReq),
        0xC0u8 & 0x0Fu8 == 0,
{
    let s = seq![0xC0u8, 0x00u8] + rest;
    assert(s.skip(1)[0] == 0u8);
    assert((0xC0u8 >> 4u8) == 12u8 && 0xC0u8 & 0x0Fu8 == 0) by (bit_vector);
}

impl PingReq {
    /// The encoded PINGREQ packet: its type byte and a zero remaining length.
    pub fn new() -> (r: Bytes)
        ensures
            bytes_view(r) == seq![0xC0u8, 0x00u8],
    {
        let mut bytes = bytes_mut_new();
        PingReq.write(&mut bytes);
        bytes_mut_freeze(bytes)
    }

    fn write(&self, payload: &mut BytesMut)
        requires
            bytes_mut_view(*old(payload)).len() + 2 <= max_buffer_len(),
        ensures
            bytes_mut_view(*final(payload)) == bytes_mut_view(*old(payload)) + seq![0xC0u8, 0x00u8],
    {
        bytes_mut_put_u8(payload, 0xC0);
        bytes_mut_put_u8(payload, 0x00);
        assert(bytes_mut_view(*payload) =~= bytes_mut_view(*old(payload)) + seq![0xC0u8, 0x00u8]);
    }
}

#[derive(Clone, Copy, Debug)]
pub struct PingResp;

} // verus!
