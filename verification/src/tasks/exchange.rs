//! The decisions of the short exchanges with the broker: waiting for the
//! acknowledgement of a packet, and what the hub and the user are told once
//! it has come.
use crate::tasks::hub_data::HubMsg;
use crate::traits::packet_rel::PacketRel;
use vstd::prelude::*;

verus! {

/// What an exchange does next while it waits for an acknowledgement.
#[derive(Debug, Clone, Copy, PartialEq, Eq, Structural)]
pub enum AckWait {
    /// The acknowledgement has come.
    Done,
    /// It answers another packet: wait on.
    KeepWaiting,
    /// Nothing came in time: send the packet again.
    Resend,
}

/// One step of waiting for the acknowledgement of the packet with
/// `packet_id`, given what came before the timeout: an acknowledgement that
/// answers the packet ends the wait, one that answers another is passed
/// over, and nothing at all sends the packet again.
pub fn ack_wait_step<A: PacketRel>(packet_id: u16, received: Option<&A>) -> (r: AckWait)
    ensures
        match received {
            Some(a) => r == if a.rel_id() == packet_id {
                AckWait::Done
            } else {
                AckWait::KeepWaiting
            },
            None => r == AckWait::Resend,
        },
{
    match received {
        Some(a) => if a.is_rel(packet_id) {
            AckWait::Done
        } else {
            AckWait::KeepWaiting
        },
        None => AckWait::Resend,
    }
}

/// The exchanges that wait for an acknowledgement.
#[derive(Debug, Clone, Copy, PartialEq, Eq, Structural)]
pub enum Exchange {
    /// A QoS 1 PUBLISH, answered by PUBACK.
    PublishQos1,
    /// A QoS 2 PUBLISH, answered by PUBREC.
    PublishQos2,
    /// The PUBREL of a QoS 2 PUBLISH, answered by PUBCOMP.
    PubRel,
    /// A SUBSCRIBE, answered by SUBACK.
    Subscribe,
    /// An UNSUBSCRIBE, answered by UNSUBACK.
    Unsubscribe,
    /// A QoS 1 PUBLISH from the broker, once its PUBACK is sent.
    RxQos1,
    /// A QoS 2 PUBLISH from the broker, once the broker's PUBREL has come.
    RxQos2,
}

/// What the hub is told when the exchange over `packet_id` has got its
/// acknowledgement, in order.
pub open spec fn spec_hub_msgs_after_ack(e: Exchange, packet_id: u16) -> Seq<HubMsg> {
    match e {
        Exchange::PublishQos1 => seq![HubMsg::RecoverId(packet_id), HubMsg::RecoverId(packet_id)],
        Exchange::PublishQos2 => seq![HubMsg::RecoverId(packet_id)],
        Exchange::PubRel => seq![HubMsg::RecoverId(packet_id)],
        Exchange::Subscribe => seq![HubMsg::RecoverId(packet_id)],
        Exchange::Unsubscribe => seq![HubMsg::RecoverId(packet_id)],
        Exchange::RxQos1 => seq![HubMsg::AffirmRxPublish(packet_id), HubMsg::AffirmRxId(packet_id)],
        Exchange::RxQos2 => seq![HubMsg::AffirmRxPublish(packet_id)],
    }
}

/// What the hub is told when the exchange over `packet_id` has got its
/// acknowledgement. A QoS 1 PUBLISH gives its identifier back twice; a
/// received QoS 2 PUBLISH is confirmed here, and its identifier is given
/// back once its PUBCOMP is sent.
pub fn hub_msgs_after_ack(e: Exchange, packet_id: u16) -> (r: Vec<HubMsg>)
    ensures
        r@ == spec_hub_msgs_after_ack(e, packet_id),
{
    match e {
        Exchange::PublishQos1 => vec![HubMsg::RecoverId(packet_id), HubMsg::RecoverId(packet_id)],
        Exchange::PublishQos2 => vec![HubMsg::RecoverId(packet_id)],
        Exchange::PubRel => vec![HubMsg::RecoverId(packet_id)],
        Exchange::Subscribe => vec![HubMsg::RecoverId(packet_id)],
        Exchange::Unsubscribe => vec![HubMsg::RecoverId(packet_id)],
        Exchange::RxQos1 => vec![HubMsg::AffirmRxPublish(packet_id), HubMsg::AffirmRxId(packet_id)],
        Exchange::RxQos2 => vec![HubMsg::AffirmRxPublish(packet_id)],
    }
}

/// Whether the user is told that a publication succeeded once the exchange
/// has got its acknowledgement: after the PUBACK of a QoS 1 PUBLISH and
/// the PUBCOMP of a QoS 2 one.
pub fn reports_publish_success(e: Exchange) -> (r: bool)
    ensures
        r == (e == Exchange::PublishQos1 || e == Exchange::PubRel),
{
    match e {
        Exchange::PublishQos1 => true,
        Exchange::PubRel => true,
        _ => false,
    }
}

} // verus!
