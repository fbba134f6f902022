//! What the client sent and the broker has not yet acknowledged.
use crate::protocol::Protocol;
use crate::tasks::client_data::{TracePublishQos, TraceSubscribe, TraceUnubscribe};
use crate::{AtLeastOnce, ExactlyOnce};
use vstd::prelude::*;

verus! {

pub enum UnacknowledgedClientData {
    PublishQoS1(TracePublishQos<AtLeastOnce>),
    PublishQoS2(TracePublishQos<ExactlyOnce>),
    /// packet_id, trace_id
    PubRel(u16, u32, Protocol),
    Subscribe(TraceSubscribe),
    Unsubscribe(TraceUnubscribe),
}

impl UnacknowledgedClientData {
    /// The packet identifier that the data holds.
    pub open spec fn spec_packet_id(&self) -> u16 {
        match self {
            UnacknowledgedClientData::PubRel(packet_id, ..) => *packet_id,
            UnacknowledgedClientData::Subscribe(packet) => packet.subscribe.spec_packet_id(),
            UnacknowledgedClientData::Unsubscribe(packet) => packet.packet_id,
            UnacknowledgedClientData::PublishQoS1(packet) => packet.packet_id,
            UnacknowledgedClientData::PublishQoS2(packet) => packet.packet_id,
        }
    }

    pub fn packet_id(&self) -> (r: u16)
        ensures
            r == self.spec_packet_id(),
    {
        match self {
            UnacknowledgedClientData::PubRel(packet_id, ..) => *packet_id,
            UnacknowledgedClientData::Subscribe(packet) => packet.packet_id(),
            UnacknowledgedClientData::Unsubscribe(packet) => packet.packet_id(),
            UnacknowledgedClientData::PublishQoS1(packet) => packet.packet_id(),
            UnacknowledgedClientData::PublishQoS2(packet) => packet.packet_id(),
        }
    }

    /// Records the broker's acknowledgement; returns whether the exchange is
    /// complete. A QoS 2 publication is not: it waits for PUBCOMP, as a
    /// PUBREL with the same packet and trace identifiers.
    pub fn acknowledge(&mut self) -> (completed: bool)
        ensures
            completed == !(*old(self) is PublishQoS2),
            final(self).spec_packet_id() == old(self).spec_packet_id(),
            completed ==> *final(self) == *old(self),
            match *old(self) {
                UnacknowledgedClientData::PublishQoS2(p) => *final(self)
                    == UnacknowledgedClientData::PubRel(p.packet_id, p.id, p.protocol),
                _ => true,
            },
    {
        match &*self {
            UnacknowledgedClientData::PublishQoS2(packet) => {
                let rel = UnacknowledgedClientData::PubRel(
                    packet.packet_id(),
                    packet.id(),
                    packet.protocol,
                );
                *self = rel;
                false
            },
            UnacknowledgedClientData::PubRel(..)
            | UnacknowledgedClientData::Subscribe(_)
            | UnacknowledgedClientData::Unsubscribe(_)
            | UnacknowledgedClientData::PublishQoS1(_) => true,
        }
    }
}

} // verus!
