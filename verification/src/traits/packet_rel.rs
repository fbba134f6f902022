//! Acknowledgements that answer a packet by its packet identifier.
use crate::protocol::packet::pubcommon::{spec_packet_id, Common, PubCommon};
use crate::protocol::packet::suback::{SubAck, SubAckModel};
use crate::protocol::packet::unsuback::{UnsubAck, UnsubAckModel};
use vstd::prelude::*;

verus! {

/// An acknowledgement, which answers the packet with its packet identifier.
pub trait PacketRel {
    /// The packet identifier that the acknowledgement answers.
    spec fn rel_id(&self) -> u16;

    /// Whether this answers the packet with the given identifier.
    fn is_rel(&self, packet_id: u16) -> (r: bool)
        ensures
            r == (self.rel_id() == packet_id),
    ;
}

impl<Ty: Common> PacketRel for PubCommon<Ty> {
    open spec fn rel_id(&self) -> u16 {
        spec_packet_id(self@)
    }

    fn is_rel(&self, packet_id: u16) -> (r: bool) {
        self.packet_id() == packet_id
    }
}

impl PacketRel for SubAck {
    open spec fn rel_id(&self) -> u16 {
        match self@ {
            SubAckModel::V4 { packet_id, .. } => packet_id,
            SubAckModel::V5ReadMode { packet_id, .. } => packet_id,
        }
    }

    fn is_rel(&self, packet_id: u16) -> (r: bool) {
        self.packet_id() == packet_id
    }
}

impl PacketRel for UnsubAck {
    open spec fn rel_id(&self) -> u16 {
        match self@ {
            UnsubAckModel::V4 { packet_id } => packet_id,
            UnsubAckModel::V5ReadMode { packet_id, .. } => packet_id,
        }
    }

    fn is_rel(&self, packet_id: u16) -> (r: bool) {
        self.packet_id() == packet_id
    }
}

} // verus!
