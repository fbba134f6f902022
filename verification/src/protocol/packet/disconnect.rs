//! The DISCONNECT packet.
use crate::buffer::{bytes_advance, bytes_mut_freeze, bytes_mut_new, bytes_mut_put_u8, bytes_view};
use crate::protocol::packet::{read_u8, spec_read_u8};
use crate::protocol::{FixedHeader, PacketParseError, Protocol};
use bytes::Bytes;
use vstd::prelude::*;

verus! {

/// A DISCONNECT packet: the protocol version and, for MQTT 5, its reason
/// code (0, normal disconnection, when the packet carries none).
#[derive(Debug, Clone, Copy, PartialEq, Eq, Structural)]
pub struct Disconnect {
    pub protocol: Protocol,
    pub reason_code: u8,
}

/// Reads a DISCONNECT: the reason code, when the remaining length is not
/// zero, is the first byte after the fixed header.
pub open spec fn spec_read_disconnect(
    fixed_header_len: int,
    remaining_len: int,
    s: Seq<u8>,
    protocol: Protocol,
) -> Result<Disconnect, PacketParseError> {
    if remaining_len == 0 {
        Ok(Disconnect { protocol, reason_code: 0 })
    } else {
        match spec_read_u8(s.skip(fixed_header_len)) {
            Ok((code, _)) => Ok(Disconnect { protocol, reason_code: code }),
            Err(e) => Err(e),
        }
    }
}

impl Disconnect {
    /// A normal disconnection.
    pub fn new(protocol: Protocol) -> (r: Disconnect)
        ensures
            r == (Disconnect { protocol, reason_code: 0 }),
    {
        Disconnect { protocol, reason_code: 0 }
    }

    /// The encoded packet: its type byte and a zero remaining length.
    pub fn data(&self) -> (r: Bytes)
        ensures
            bytes_view(r) == seq![0xE0u8, 0x00u8],
    {
        let mut b = bytes_mut_new();
        bytes_mut_put_u8(&mut b, 0xE0);
        bytes_mut_put_u8(&mut b, 0x00);
        assert(crate::buffer::bytes_mut_view(b) =~= seq![0xE0u8, 0x00u8]);
        bytes_mut_freeze(b)
    }

    pub fn read(fixed_header: FixedHeader, bytes: Bytes, protocol: Protocol) -> (r: Result<
        Disconnect,
        PacketParseError,
    >)
        requires
            fixed_header.fixed_header_len <= bytes_view(bytes).len(),
        ensures
            r == spec_read_disconnect(
                fixed_header.fixed_header_len as int,
                fixed_header.remaining_len as int,
                bytes_view(bytes),
                protocol,
            ),
    {
        if fixed_header.remaining_len == 0 {
            return Ok(Disconnect { protocol, reason_code: 0 });
        }
        let mut bytes = bytes;
        bytes_advance(&mut bytes, fixed_header.fixed_header_len);
        let reason_code = read_u8(&mut bytes)?;
        Ok(Disconnect { protocol, reason_code })
    }
}

} // verus!
