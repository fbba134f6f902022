//! The decisions of the network task: what the answer to CONNECT means,
//! where each packet from the broker goes, and how a failure is reported.
use crate::buffer::{bytes_mut_len, bytes_mut_view};
use crate::protocol::packet::connack::{ConnectReturnCode, ConnectReturnFailCode};
use crate::protocol::packet::disconnect::Disconnect;
use crate::protocol::packet::frame::{
    read_from_network, spec_packet_ty, spec_read_from_network, Packet, PacketModel,
};
use crate::protocol::packet::ping::PingResp;
use crate::protocol::packet::pubcommon::{PubAck, PubComp, PubRec, PubRel};
use crate::protocol::packet::suback::SubAck;
use crate::protocol::packet::unsuback::UnsubAck;
use crate::protocol::{PacketParseError, PacketType, Protocol};
use crate::tasks::hub_data::HubMsg;
use bytes::BytesMut;
use vstd::prelude::*;

verus! {

#[derive(Debug, Clone, Copy, PartialEq, Eq, Structural)]
pub enum NetworkState {
    ToConnect,
    Connected,
    ToDisconnect,
    Disconnected,
}

impl NetworkState {
    pub fn is_to_disconnected(&self) -> (r: bool)
        ensures
            r == (*self == NetworkState::ToDisconnect),
    {
        if let Self::ToDisconnect = self {
            true
        } else {
            false
        }
    }

    pub fn is_connected(&self) -> (r: bool)
        ensures
            r == (*self == NetworkState::Connected),
    {
        if let Self::Connected = self {
            true
        } else {
            false
        }
    }
}

/// broadcast network event
pub enum NetworkEvent {
    /// bool: session_present
    Connected(bool),
    ConnectFail(ToConnectError),
    /// The connection broke after it was made
    ConnectedErr(String),
    /// broker send disconnect packet
    BrokerDisconnect(Disconnect),
}

#[derive(Debug, Clone, Copy, PartialEq, Eq, Structural)]
pub enum HubNetworkCommand {
    Disconnect,
}

pub enum NetworkTasksError {
    NetworkError(String),
    ChannelAbnormal,
    HubCommandToDisconnect,
    ConnectFail(ToConnectError),
}

pub enum ToConnectError {
    NotConnAck(PacketType),
    NetworkError(String),
    PacketError(PacketParseError),
    BrokerRefuse(ConnectReturnFailCode),
    ChannelAbnormal,
    RustlsConnectError(String),
}

/// What the answer to CONNECT means: the session-present flag of a
/// successful CONNACK, the refusal of a failed one, or a packet of another
/// type.
pub open spec fn spec_connect_outcome(p: PacketModel) -> Result<bool, ToConnectError> {
    match p {
        PacketModel::ConnAck(ack) => match ack.code {
            ConnectReturnCode::Success => Ok(ack.session_present),
            ConnectReturnCode::Fail(code) => Err(ToConnectError::BrokerRefuse(code)),
        },
        _ => Err(ToConnectError::NotConnAck(spec_packet_ty(p))),
    }
}

/// Reads the broker's answer to CONNECT from the receive buffer: the
/// session-present flag when the broker accepts the connection.
pub fn read_connect_reply(buf: &mut BytesMut, version: Protocol) -> (r: Result<bool, ToConnectError>)
    ensures
        bytes_mut_view(*final(buf)) == spec_read_from_network(bytes_mut_view(*old(buf)), version).1,
        match spec_read_from_network(bytes_mut_view(*old(buf)), version).0 {
            Err(e) => r matches Err(ToConnectError::PacketError(e2)) && e2 == e,
            Ok(m) => match spec_connect_outcome(m) {
                Ok(sp) => r == Ok::<bool, ToConnectError>(sp),
                Err(ToConnectError::BrokerRefuse(c)) => r matches Err(
                    ToConnectError::BrokerRefuse(c2),
                ) && c2 == c,
                Err(ToConnectError::NotConnAck(t)) => r matches Err(ToConnectError::NotConnAck(t2))
                    && t2 == t,
                _ => false,
            },
        },
{
    let packet = match read_from_network(buf, version) {
        Ok(p) => p,
        Err(e) => return Err(ToConnectError::PacketError(e)),
    };
    let packet_ty = packet.packet_ty();
    let ack = match packet {
        Packet::ConnAck(ack) => ack,
        _ => return Err(ToConnectError::NotConnAck(packet_ty)),
    };
    match ack.code {
        ConnectReturnCode::Success => Ok(ack.session_present),
        ConnectReturnCode::Fail(code) => Err(ToConnectError::BrokerRefuse(code)),
    }
}

/// Where the network task sends a packet from the broker.
pub enum NetworkDispatch {
    /// A PUBLISH goes to the hub.
    Hub(HubMsg),
    PubAck(PubAck),
    PubRec(PubRec),
    PubRel(PubRel),
    PubComp(PubComp),
    SubAck(SubAck),
    UnsubAck(UnsubAck),
    PingResp(PingResp),
    /// The broker's DISCONNECT is a network event.
    Event(NetworkEvent),
    /// A CONNACK while connected is not expected: it is dropped.
    Unexpected,
}

/// One step of the network task over its receive buffer: a packet to
/// dispatch and whether another may follow, or nothing more to do.
pub enum NetworkStep {
    Dispatch(NetworkDispatch, bool),
    Stop,
}

/// Whether `d` sends on the packet that `p` models, wrapped for its
/// receiver.
pub open spec fn spec_dispatches(p: PacketModel, d: NetworkDispatch) -> bool {
    match (p, d) {
        (PacketModel::Publish(m), NetworkDispatch::Hub(HubMsg::RxPublish(q))) => q@ == m,
        (PacketModel::PubAck(m), NetworkDispatch::PubAck(q)) => q@ == m,
        (PacketModel::PubRec(m), NetworkDispatch::PubRec(q)) => q@ == m,
        (PacketModel::PubRel(m), NetworkDispatch::PubRel(q)) => q@ == m,
        (PacketModel::PubComp(m), NetworkDispatch::PubComp(q)) => q@ == m,
        (PacketModel::SubAck(m), NetworkDispatch::SubAck(q)) => q@ == m,
        (PacketModel::UnsubAck(m), NetworkDispatch::UnsubAck(q)) => q@ == m,
        (PacketModel::PingResp, NetworkDispatch::PingResp(_)) => true,
        (
            PacketModel::Disconnect(m),
            NetworkDispatch::Event(NetworkEvent::BrokerDisconnect(q)),
        ) => q == m,
        (PacketModel::ConnAck(_), NetworkDispatch::Unexpected) => true,
        _ => false,
    }
}

/// Where a received packet goes: the packet itself, wrapped for its
/// receiver.
pub fn dispatch_of(packet: Packet) -> (r: NetworkDispatch)
    ensures
        spec_dispatches(packet@, r),
{
    match packet {
        Packet::ConnAck(_packet) => NetworkDispatch::Unexpected,
        Packet::Publish(packet) => NetworkDispatch::Hub(HubMsg::RxPublish(packet)),
        Packet::PubAck(packet) => NetworkDispatch::PubAck(packet),
        Packet::PubRec(packet) => NetworkDispatch::PubRec(packet),
        Packet::PubRel(packet) => NetworkDispatch::PubRel(packet),
        Packet::PubComp(packet) => NetworkDispatch::PubComp(packet),
        Packet::SubAck(packet) => NetworkDispatch::SubAck(packet),
        Packet::UnsubAck(packet) => NetworkDispatch::UnsubAck(packet),
        Packet::PingResp => NetworkDispatch::PingResp(PingResp),
        Packet::Disconnect(packet) => NetworkDispatch::Event(NetworkEvent::BrokerDisconnect(packet)),
    }
}

/// One step over the receive buffer while connected: the first packet in
/// it, where it goes, and whether at least two bytes are left for another;
/// a buffer that holds no packet that reads ends the steps.
pub fn next_network_step(buf: &mut BytesMut, version: Protocol) -> (r: NetworkStep)
    ensures
        bytes_mut_view(*final(buf)) == spec_read_from_network(bytes_mut_view(*old(buf)), version).1,
        match spec_read_from_network(bytes_mut_view(*old(buf)), version).0 {
            Err(_) => r is Stop,
            Ok(m) => r matches NetworkStep::Dispatch(d, more) && spec_dispatches(m, d) && more == (
            bytes_mut_view(*final(buf)).len() >= 2),
        },
{
    match read_from_network(buf, version) {
        Ok(packet) => {
            let d = dispatch_of(packet);
            let more = bytes_mut_len(buf) >= 2;
            NetworkStep::Dispatch(d, more)
        },
        Err(_err) => NetworkStep::Stop,
    }
}

/// The hub's command to disconnect: the network state becomes
/// `ToDisconnect` and the connected loop ends.
pub fn deal_hub_network_command(state: &mut NetworkState, command: HubNetworkCommand) -> (r: Result<
    (),
    NetworkTasksError,
>)
    ensures
        *final(state) == NetworkState::ToDisconnect,
        r matches Err(NetworkTasksError::HubCommandToDisconnect),
{
    match command {
        HubNetworkCommand::Disconnect => {
            *state = NetworkState::ToDisconnect;
            Err(NetworkTasksError::HubCommandToDisconnect)
        },
    }
}

/// The event that the network task reports when it ends on an error: a
/// broken connection or a failed connect; none for the other errors.
pub fn network_failure_event(e: NetworkTasksError) -> (r: Option<NetworkEvent>)
    ensures
        match e {
            NetworkTasksError::NetworkError(msg) => r matches Some(NetworkEvent::ConnectedErr(m))
                && m@ == msg@,
            NetworkTasksError::ConnectFail(c) => r matches Some(NetworkEvent::ConnectFail(c2)) && c2
                == c,
            _ => r is None,
        },
{
    match e {
        NetworkTasksError::NetworkError(msg) => Some(NetworkEvent::ConnectedErr(msg)),
        NetworkTasksError::ConnectFail(reason) => Some(NetworkEvent::ConnectFail(reason)),
        NetworkTasksError::ChannelAbnormal => None,
        NetworkTasksError::HubCommandToDisconnect => None,
    }
}

} // verus!
