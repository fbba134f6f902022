//! What the client hands to the hub, and what the hub tells the client.
use crate::buffer::bytes_view;
use crate::protocol::packet::disconnect::Disconnect;
use crate::protocol::packet::publish::Publish;
use crate::protocol::packet::suback::{SubAck, SubAckModel, SubscribeReasonCode};
use crate::protocol::packet::subscribe::Subscribe;
use crate::protocol::packet::unsuback::{UnsubAck, UnsubAckModel, UnsubAckReason};
use crate::datas::id::IdCounter;
use crate::protocol::packet::utf8_bytes;
use crate::protocol::Protocol;
use crate::tasks::network::ToConnectError;
use crate::{AtLeastOnce, AtMostOnce, ExactlyOnce, QoS};
use bytes::Bytes;
use std::marker::PhantomData;
use std::sync::Arc;
use vstd::prelude::*;

verus! {

#[derive(Debug, Clone, Copy, PartialEq, Eq, Structural)]
pub enum ClientCommand {
    /// to send disconnect packet and drop resouces, mqtt client will diconnect event if auto reconnect
    DisconnectAndDrop,
    /// not to send disconnect packet and drop resouces, mqtt client will diconnect event if auto reconnect
    ViolenceDisconnectAndDrop,
}

/// A message to publish, followed until the broker has it. The type
/// parameter is its QoS level.
pub struct TracePublishQos<T> {
    pub protocol: Protocol,
    pub id: u32,
    pub topic: Arc<String>,
    pub packet_id: u16,
    pub qos: PhantomData<T>,
    pub payload: Arc<Bytes>,
    pub retain: bool,
}

impl<T> TracePublishQos<T> {
    /// A message with the given trace identifier and no packet identifier
    /// yet.
    pub fn init(topic: Arc<String>, payload: Arc<Bytes>, retain: bool, protocol: Protocol, id: u32) -> (r: Self)
        ensures
            r.id == id,
            r.packet_id == 0,
            r.topic == topic,
            r.payload == payload,
            r.retain == retain,
            r.protocol == protocol,
    {
        TracePublishQos { id, packet_id: 0, topic, qos: PhantomData, payload, retain, protocol }
    }

    pub fn id(&self) -> (r: u32)
        ensures
            r == self.id,
    {
        self.id
    }

    pub fn set_packet_id(&mut self, packet_id: u16)
        ensures
            final(self).packet_id == packet_id,
            final(self).id == old(self).id,
            final(self).topic == old(self).topic,
            final(self).payload == old(self).payload,
            final(self).retain == old(self).retain,
            final(self).protocol == old(self).protocol,
    {
        self.packet_id = packet_id;
    }

    pub fn packet_id(&self) -> (r: u16)
        ensures
            r == self.packet_id,
    {
        self.packet_id
    }
}

/// A subscription, followed until the broker acknowledges it.
pub struct TraceSubscribe {
    pub id: u32,
    pub subscribe: Subscribe,
}

impl TraceSubscribe {
    pub fn set_packet_id(&mut self, packet_id: u16)
        ensures
            final(self).subscribe.spec_packet_id() == packet_id,
            final(self).id == old(self).id,
    {
        self.subscribe.set_packet_id(packet_id);
    }

    pub fn packet_id(&self) -> (r: u16)
        ensures
            r == self.subscribe.spec_packet_id(),
    {
        self.subscribe.packet_id()
    }
}

/// An unsubscription, followed until the broker acknowledges it.
pub struct TraceUnubscribe {
    pub id: u32,
    pub packet_id: u16,
    pub topics: Vec<Arc<String>>,
}

impl TraceUnubscribe {
    /// An unsubscription from `topics`, traced by a fresh identifier from
    /// `ids`; it holds no packet identifier yet.
    pub fn new(topics: Vec<Arc<String>>, ids: &mut IdCounter) -> (r: Self)
        ensures
            r.id == old(ids).spec_next(),
            old(ids).spec_advanced_to(*final(ids)),
            !old(ids).spec_wrapped() ==> !old(ids).spec_issued().contains(r.id),
            r.packet_id == 0,
            r.topics == topics,
    {
        let id = ids.fresh();
        Self { id: id.0, packet_id: 0, topics }
    }

    pub fn set_packet_id(&mut self, packet_id: u16)
        ensures
            final(self).packet_id == packet_id,
            final(self).id == old(self).id,
            final(self).topics == old(self).topics,
    {
        self.packet_id = packet_id;
    }

    pub fn packet_id(&self) -> (r: u16)
        ensures
            r == self.packet_id,
    {
        self.packet_id
    }
}

/// What the client asks the hub to send.
pub enum ClientData {
    PublishQoS0(TracePublishQos<AtMostOnce>),
    PublishQoS1(TracePublishQos<AtLeastOnce>),
    PublishQoS2(TracePublishQos<ExactlyOnce>),
    Subscribe(TraceSubscribe),
    Unsubscribe(TraceUnubscribe),
}

/// The largest remaining length that MQTT can frame.
pub open spec fn max_remaining_length() -> int {
    268_435_455
}


/// Whether `d` is the message to publish with this topic, QoS, payload,
/// retain flag, protocol and trace id, before it holds a packet identifier.
pub open spec fn spec_publish_data(
    d: ClientData,
    topic: Arc<String>,
    qos: QoS,
    payload: Arc<Bytes>,
    retain: bool,
    protocol: Protocol,
    id: u32,
) -> bool {
    match (qos, d) {
        (QoS::AtMostOnce, ClientData::PublishQoS0(p)) => p.id == id && p.packet_id == 0 && p.topic
            == topic && p.payload == payload && p.retain == retain && p.protocol == protocol,
        (QoS::AtLeastOnce, ClientData::PublishQoS1(p)) => p.id == id && p.packet_id == 0 && p.topic
            == topic && p.payload == payload && p.retain == retain && p.protocol == protocol,
        (QoS::ExactlyOnce, ClientData::PublishQoS2(p)) => p.id == id && p.packet_id == 0 && p.topic
            == topic && p.payload == payload && p.retain == retain && p.protocol == protocol,
        _ => false,
    }
}

impl ClientData {
    /// The trace identifier.
    pub open spec fn spec_id(&self) -> u32 {
        match self {
            ClientData::PublishQoS0(p) => p.id,
            ClientData::PublishQoS1(p) => p.id,
            ClientData::PublishQoS2(p) => p.id,
            ClientData::Subscribe(p) => p.id,
            ClientData::Unsubscribe(p) => p.id,
        }
    }

    pub fn id(&self) -> (r: u32)
        ensures
            r == self.spec_id(),
    {
        match self {
            ClientData::PublishQoS0(packet) => packet.id,
            ClientData::PublishQoS1(packet) => packet.id,
            ClientData::PublishQoS2(packet) => packet.id,
            ClientData::Subscribe(packet) => packet.id,
            ClientData::Unsubscribe(packet) => packet.id,
        }
    }

    /// A message to publish at the given QoS level.
    pub fn publish(
        topic: Arc<String>,
        qos: QoS,
        payload: Arc<Bytes>,
        retain: bool,
        protocol: Protocol,
        id: u32,
    ) -> (r: Self)
        ensures
            spec_publish_data(r, topic, qos, payload, retain, protocol, id),
    {
        match qos {
            QoS::AtMostOnce => Self::PublishQoS0(
                TracePublishQos::init(topic, payload, retain, protocol, id),
            ),
            QoS::AtLeastOnce => Self::PublishQoS1(
                TracePublishQos::init(topic, payload, retain, protocol, id),
            ),
            QoS::ExactlyOnce => Self::PublishQoS2(
                TracePublishQos::init(topic, payload, retain, protocol, id),
            ),
        }
    }

    /// A message to publish, refused when its payload, topic and their
    /// framing would not fit the largest remaining length.
    pub fn checked_publish(
        topic: Arc<String>,
        qos: QoS,
        payload: Arc<Bytes>,
        retain: bool,
        protocol: Protocol,
        id: u32,
    ) -> (r: Result<Self, ClientErr>)
        ensures
            r is Err <==> bytes_view(*payload).len() + 4 + utf8_bytes((*topic)@).len()
                > max_remaining_length(),
            r matches Err(e) ==> e == ClientErr::PayloadTooLong,
            r matches Ok(d) ==> spec_publish_data(d, topic, qos, payload, retain, protocol, id),
    {
        let payload_len = crate::buffer::bytes_len(&*payload);
        let topic_len = (*topic).as_str().as_bytes().len();
        if payload_len > 268_435_455 || topic_len > 268_435_455 || payload_len + 4 + topic_len
            > 268_435_455 {
            return Err(ClientErr::PayloadTooLong);
        }
        Ok(ClientData::publish(topic, qos, payload, retain, protocol, id))
    }
}

/// What the hub tells the client.
pub enum MqttEvent {
    /// session_present
    ConnectSuccess(bool),
    ConnectFail(ToConnectError),
    Publish(Publish),
    PublishSuccess(u32),
    PublishFail(String),
    SubscribeAck(SubscribeAck),
    SubscribeFail(String),
    UnsubscribeAck(UnsubscribeAck),
    UnsubscribeFail(String),
    ConnectedErr(String),
    Disconnected,
}

#[derive(Debug, Clone, Copy, PartialEq, Eq, Structural)]
pub enum ClientErr {
    Disconnected,
    PayloadTooLong,
}

pub struct SubscribeAck {
    pub id: u32,
    pub acks: Vec<SubscribeReasonCode>,
}

impl SubscribeAck {
    /// The return codes of a SUBACK, for the subscription with this trace
    /// identifier.
    pub fn init(ack: SubAck, id: u32) -> (r: Self)
        ensures
            r.id == id,
            r.acks@ == match ack@ {
                SubAckModel::V4 { return_codes, .. } => return_codes,
                SubAckModel::V5ReadMode { return_codes, .. } => return_codes,
            },
    {
        match ack {
            SubAck::V4 { return_codes, .. } => Self { id, acks: return_codes },
            SubAck::V5ReadMode { return_codes, .. } => Self { id, acks: return_codes },
        }
    }
}

pub struct UnsubscribeAck {
    pub id: u32,
    pub acks: Vec<UnsubAckReason>,
}

impl UnsubscribeAck {
    /// The reason codes of an UNSUBACK, for the unsubscription with this
    /// trace identifier: none for MQTT 3.1.1.
    pub fn init(ack: UnsubAck, id: u32) -> (r: Self)
        ensures
            r.id == id,
            r.acks@ == match ack@ {
                UnsubAckModel::V4 { .. } => Seq::<UnsubAckReason>::empty(),
                UnsubAckModel::V5ReadMode { return_codes, .. } => return_codes,
            },
    {
        match ack {
            UnsubAck::V4 { .. } => Self { id, acks: Vec::new() },
            UnsubAck::V5ReadMode { return_codes, .. } => Self { id, acks: return_codes },
        }
    }
}

/// An acknowledgement of a subscription or an unsubscription.
pub enum SubscribeMsg {
    SubAck(SubAck),
    UnsubAck(UnsubAck),
}

#[derive(Debug, Clone, Copy, PartialEq, Eq, Structural)]
pub enum CommonErr {
    ChannelAbnormal,
}

} // verus!
