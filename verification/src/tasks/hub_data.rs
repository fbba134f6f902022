//! The messages, states and errors of the hub.
use crate::protocol::packet::publish::Publish;
use vstd::prelude::*;

verus! {

/// What the other tasks tell the hub.
pub enum HubMsg {
    /// recover packet_id that used to publish/subscribe/unsubscribe
    /// by client.
    RecoverId(u16),
    PingSuccess,
    PingFail,
    KeepAlive(KeepAliveTime),
    /// A PUBLISH received from the broker
    RxPublish(Publish),
    /// A received PUBLISH has gone through its whole QoS flow: its packet
    /// identifier may be used by the broker again.
    AffirmRxId(u16),
    /// A received QoS 2 PUBLISH is confirmed: it goes to the user.
    AffirmRxPublish(u16),
}

/// The mark of one keep-alive check: only the latest check counts.
#[derive(Debug, Clone, Copy, PartialEq, Eq, Structural)]
pub struct KeepAliveTime(pub u32);

impl KeepAliveTime {
    /// Whether this is the check that the hub started last, the hub's count
    /// of checks being `latest`.
    pub fn latest(&self, latest: u32) -> (r: bool)
        ensures
            r == (self.0 == latest),
    {
        self.0 == latest
    }
}

pub enum HubState {
    ToConnect,
    Connected,
    ToDisconnect(ToDisconnectReason),
    Disconnected,
}

impl HubState {
    pub fn is_to_connect(&self) -> (r: bool)
        ensures
            r == (*self is ToConnect),
    {
        match self {
            HubState::ToConnect => true,
            _ => false,
        }
    }

    pub fn is_connected(&self) -> (r: bool)
        ensures
            r == (*self is Connected),
    {
        match self {
            HubState::Connected => true,
            _ => false,
        }
    }

    pub fn is_disconnected(&self) -> (r: bool)
        ensures
            r == (*self is Disconnected),
    {
        match self {
            HubState::Disconnected => true,
            _ => false,
        }
    }
}

impl Default for HubState {
    fn default() -> (r: Self)
        ensures
            r is ToConnect,
    {
        Self::ToConnect
    }
}

pub enum ToDisconnectReason {
    PingFail,
    NetworkErr(String),
    ClientCommand,
}

pub enum HubError {
    ChannelAbnormal,
    PacketIdErr(String),
    ViolenceDisconnectAndDrop,
    Other(String),
}

pub enum HubToConnectError {
    ChannelAbnormal,
    ViolenceDisconnectAndDrop,
    Other(String),
}

impl From<HubToConnectError> for HubError {
    fn from(value: HubToConnectError) -> (r: Self) {
        match value {
            HubToConnectError::ChannelAbnormal => HubError::ChannelAbnormal,
            HubToConnectError::ViolenceDisconnectAndDrop => HubError::ViolenceDisconnectAndDrop,
            HubToConnectError::Other(err) => HubError::Other(err),
        }
    }
}

impl vstd::std_specs::convert::FromSpecImpl<HubToConnectError> for HubError {
    open spec fn obeys_from_spec() -> bool {
        true
    }

    open spec fn from_spec(value: HubToConnectError) -> HubError {
        match value {
            HubToConnectError::ChannelAbnormal => HubError::ChannelAbnormal,
            HubToConnectError::ViolenceDisconnectAndDrop => HubError::ViolenceDisconnectAndDrop,
            HubToConnectError::Other(err) => HubError::Other(err),
        }
    }
}

} // verus!
