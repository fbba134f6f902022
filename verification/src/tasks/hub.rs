//! The hub: the task that keeps the session with the broker. It hands out
//! packet identifiers, keeps what the broker has not yet acknowledged and
//! what it sent at QoS 1 and 2, and moves between connecting, connected
//! and disconnecting. Each step takes what happened and gives the new state
//! and the actions that the caller carries out.
use crate::protocol::packet::disconnect::Disconnect;
use crate::protocol::packet::publish::Publish;
use crate::protocol::Protocol;
use crate::tasks::client_data::{ClientCommand, ClientData, MqttEvent, TracePublishQos};
use crate::tasks::hub_data::{
    HubError, HubMsg, HubState, HubToConnectError, KeepAliveTime, ToDisconnectReason,
};
use crate::tasks::id_pool::{full_id_pool, id_pool_capacity, id_pool_items, ids_up_to, IdPool};
use crate::tasks::network::NetworkEvent;
use crate::tasks::unacknowledged::UnacknowledgedClientData;
use crate::{AtMostOnce, QoSWithPacketId};
use std::collections::{HashMap, VecDeque};
use vstd::prelude::*;

verus! {

broadcast use vstd::std_specs::hash::group_hash_axioms;

/// What the caller of the hub carries out after a step.
pub enum HubAction {
    /// Tell the user.
    Dispatch(MqttEvent),
    /// Tell the user that the broker sent DISCONNECT, with the packet.
    NotifyBrokerDisconnect(Disconnect),
    /// After the keep-alive interval, send `HubMsg::KeepAlive` with this
    /// mark back to the hub.
    KeepAliveCheck(KeepAliveTime),
    /// Send a PINGREQ and wait for its answer.
    StartPing,
    /// Answer a QoS 1 PUBLISH from the broker.
    StartRxQos1(u16, Protocol),
    /// Run the QoS 2 flow for a PUBLISH from the broker.
    StartRxQos2(u16, Protocol),
    /// Send again the unacknowledged data with this packet identifier.
    ToAcknowledge(u16),
    /// Send a QoS 0 message.
    StartPublishQos0(TracePublishQos<AtMostOnce>),
    /// Tell the network task to disconnect.
    DisconnectNetwork,
}

/// How an attempt to connect ended.
pub enum ConnectStep {
    Connected,
    /// Wait and try again.
    Retry,
    Failed(HubToConnectError),
}

/// The packet identifiers of pending data, in order.
pub open spec fn client_ids(s: Seq<UnacknowledgedClientData>) -> Seq<u16> {
    s.map_values(|d: UnacknowledgedClientData| d.spec_packet_id())
}

/// Every packet identifier exactly once: 65535 identifiers, none zero, no
/// two alike.
pub open spec fn ids_valid(s: Seq<u16>) -> bool {
    &&& s.len() == 65535
    &&& forall|i: int| 0 <= i < s.len() ==> 1 <= #[trigger] s[i]
    &&& forall|i: int, j: int| 0 <= i < j < s.len() ==> s[i] != s[j]
}

/// A sequence whose every place holds what `f` names in `s`, `f` naming
/// each place of `s` at most once, keeps the identifiers valid.
proof fn lemma_ids_permuted(s: Seq<u16>, t: Seq<u16>, f: spec_fn(int) -> int)
    requires
        ids_valid(s),
        t.len() == s.len(),
        forall|k: int| 0 <= k < t.len() ==> 0 <= #[trigger] f(k) < s.len() && t[k] == s[f(k)],
        forall|a: int, b: int|
            0 <= a < t.len() && 0 <= b < t.len() && #[trigger] f(a) == #[trigger] f(b) ==> a == b,
    ensures
        ids_valid(t),
{
    assert forall|i: int| 0 <= i < t.len() implies 1 <= #[trigger] t[i] by {
        assert(t[i] == s[f(i)]);
    }
    assert forall|i: int, j: int| 0 <= i < j < t.len() implies t[i] != t[j] by {
        assert(t[i] == s[f(i)] && t[j] == s[f(j)]);
        if f(i) < f(j) {
        } else if f(j) < f(i) {
        } else {
        }
    }
}

/// Handing out the first free identifier to new pending data keeps every
/// identifier exactly once.
proof fn lemma_hand_out(pool: Seq<u16>, c: Seq<u16>)
    requires
        ids_valid(pool + c),
        pool.len() > 0,
    ensures
        ids_valid(pool.skip(1) + c.push(pool[0])),
{
    let s = pool + c;
    let t = pool.skip(1) + c.push(pool[0]);
    let n = s.len() as int;
    let f = |k: int| if k < n - 1 {
        k + 1
    } else {
        0
    };
    assert forall|k: int| 0 <= k < t.len() implies 0 <= #[trigger] f(k) < s.len() && t[k] == s[f(
        k,
    )] by {
        if k < pool.len() - 1 {
            assert(t[k] == pool[k + 1]);
        } else if k < n - 1 {
            assert(t[k] == c[k - pool.len() + 1]);
        } else {
            assert(t[k] == pool[0]);
        }
    }
    lemma_ids_permuted(s, t, f);
}

/// Giving the identifier of the `i`-th pending data back to the free ones
/// keeps every identifier exactly once.
proof fn lemma_give_back(pool: Seq<u16>, c: Seq<u16>, i: int)
    requires
        ids_valid(pool + c),
        0 <= i < c.len(),
    ensures
        ids_valid(pool.push(c[i]) + c.remove(i)),
{
    let s = pool + c;
    let t = pool.push(c[i]) + c.remove(i);
    let p = pool.len() as int;
    let f = |k: int| if k < p {
        k
    } else if k == p {
        p + i
    } else if k - p - 1 < i {
        k - 1
    } else {
        k
    };
    assert forall|k: int| 0 <= k < t.len() implies 0 <= #[trigger] f(k) < s.len() && t[k] == s[f(
        k,
    )] by {
        if k < p {
            assert(t[k] == pool[k]);
        } else if k == p {
            assert(t[k] == c[i]);
        } else if k - p - 1 < i {
            assert(t[k] == c.remove(i)[k - p - 1]);
        } else {
            assert(t[k] == c.remove(i)[k - p - 1]);
        }
    }
    lemma_ids_permuted(s, t, f);
}

/// The identifiers of pending data after one more.
proof fn lemma_client_ids_push(d: Seq<UnacknowledgedClientData>, x: UnacknowledgedClientData)
    ensures
        client_ids(d.push(x)) == client_ids(d).push(x.spec_packet_id()),
{
    assert(client_ids(d.push(x)) =~= client_ids(d).push(x.spec_packet_id()));
}

/// The identifiers of pending data after one is taken out.
proof fn lemma_client_ids_remove(d: Seq<UnacknowledgedClientData>, i: int)
    requires
        0 <= i < d.len(),
    ensures
        client_ids(d.remove(i)) == client_ids(d).remove(i),
{
    assert(client_ids(d.remove(i)) =~= client_ids(d).remove(i));
}

/// The identifiers of pending data after one is replaced by data with the
/// same identifier.
proof fn lemma_client_ids_update(d: Seq<UnacknowledgedClientData>, i: int, x: UnacknowledgedClientData)
    requires
        0 <= i < d.len(),
        x.spec_packet_id() == d[i].spec_packet_id(),
    ensures
        client_ids(d.update(i, x)) == client_ids(d),
{
    assert(client_ids(d.update(i, x)) =~= client_ids(d));
}

/// Whether a publication with packet identifier `id` is `p` with that
/// identifier.
pub open spec fn same_publish_with_id<T>(p: TracePublishQos<T>, q: TracePublishQos<T>, id: u16) -> bool {
    q.id == p.id && q.packet_id == id && q.topic == p.topic && q.payload == p.payload && q.retain
        == p.retain && q.protocol == p.protocol
}

/// Whether `entry` is what the client data `req` becomes as pending data
/// once it holds packet identifier `id`.
pub open spec fn spec_pending_entry(req: ClientData, entry: UnacknowledgedClientData, id: u16) -> bool {
    match (req, entry) {
        (ClientData::PublishQoS1(p), UnacknowledgedClientData::PublishQoS1(q)) => same_publish_with_id(
            p,
            q,
            id,
        ),
        (ClientData::PublishQoS2(p), UnacknowledgedClientData::PublishQoS2(q)) => same_publish_with_id(
            p,
            q,
            id,
        ),
        (ClientData::Subscribe(t), UnacknowledgedClientData::Subscribe(u)) => u.id == t.id
            && u.subscribe.spec_packet_id() == id,
        (ClientData::Unsubscribe(t), UnacknowledgedClientData::Unsubscribe(u)) => u.id == t.id
            && u.packet_id == id && u.topics == t.topics,
        _ => false,
    }
}

pub struct Hub {
    protocol: Protocol,
    auto_reconnect: bool,
    state: HubState,
    rx_publish: HashMap<u16, Publish>,
    rx_publish_id: HashMap<u16, u16>,
    client_data: VecDeque<UnacknowledgedClientData>,
    ids: IdPool,
    keep_alive_id: u32,
}

impl Hub {
    pub closed spec fn spec_state(&self) -> HubState {
        self.state
    }

    pub closed spec fn spec_protocol(&self) -> Protocol {
        self.protocol
    }

    pub closed spec fn spec_auto_reconnect(&self) -> bool {
        self.auto_reconnect
    }

    /// The free packet identifiers, in the order they will be handed out.
    pub closed spec fn free_ids(&self) -> Seq<u16> {
        id_pool_items(self.ids)
    }

    /// What the broker has not yet acknowledged, oldest first.
    pub closed spec fn pending(&self) -> Seq<UnacknowledgedClientData> {
        self.client_data@
    }

    /// The packet identifiers in use by pending data.
    pub open spec fn pending_ids(&self) -> Seq<u16> {
        client_ids(self.pending())
    }

    /// The QoS 2 messages from the broker that wait for their PUBREL.
    pub closed spec fn received(&self) -> Map<u16, Publish> {
        self.rx_publish@
    }

    /// The packet identifiers of messages from the broker that are still
    /// in their QoS flow.
    pub closed spec fn received_ids(&self) -> Map<u16, u16> {
        self.rx_publish_id@
    }

    /// How many keep-alive checks the hub has started, wrapping.
    pub closed spec fn keep_alive_count(&self) -> u32 {
        self.keep_alive_id
    }

    /// The hub's invariant: every packet identifier is either free or in use
    /// by exactly one piece of pending data, and the identifiers of received
    /// messages are kept as themselves.
    pub closed spec fn wf(&self) -> bool {
        &&& id_pool_capacity(self.ids) == 65535
        &&& ids_valid(id_pool_items(self.ids) + client_ids(self.client_data@))
        &&& forall|k: u16| #[trigger] self.rx_publish_id@.contains_key(k) ==> self.rx_publish_id@[k]
            == k
    }

    /// A hub that has not connected yet: every packet identifier free,
    /// nothing pending or received.
    pub fn new(protocol: Protocol, auto_reconnect: bool) -> (r: Hub)
        ensures
            r.wf(),
            r.spec_state() is ToConnect,
            r.spec_protocol() == protocol,
            r.spec_auto_reconnect() == auto_reconnect,
            r.free_ids() == ids_up_to(65535),
            r.pending() == Seq::<UnacknowledgedClientData>::empty(),
            r.received() == Map::<u16, Publish>::empty(),
            r.received_ids() == Map::<u16, u16>::empty(),
            r.keep_alive_count() == 0,
    {
        let ids = full_id_pool();
        let hub = Hub {
            protocol,
            auto_reconnect,
            state: HubState::default(),
            rx_publish: HashMap::new(),
            rx_publish_id: HashMap::new(),
            client_data: VecDeque::new(),
            ids,
            keep_alive_id: 0,
        };
        assert(client_ids(hub.client_data@) =~= Seq::<u16>::empty());
        assert(id_pool_items(hub.ids) + client_ids(hub.client_data@) =~= ids_up_to(65535));
        assert forall|i: int, j: int| 0 <= i < j < 65535 implies ids_up_to(65535)[i] != ids_up_to(
            65535,
        )[j] by {}
        hub
    }

    pub fn state(&self) -> (r: &HubState)
        ensures
            *r == self.spec_state(),
    {
        &self.state
    }

    pub fn latest_keep_alive(&self) -> (r: u32)
        ensures
            r == self.keep_alive_count(),
    {
        self.keep_alive_id
    }

    /// The pending data with this packet identifier, if any.
    pub fn unacknowledged(&self, packet_id: u16) -> (r: Option<&UnacknowledgedClientData>)
        ensures
            match r {
                Some(d) => self.pending_ids().contains(packet_id) && d.spec_packet_id() == packet_id
                    && self.pending().contains(*d),
                None => !self.pending_ids().contains(packet_id),
            },
    {
        match self.position_of(packet_id) {
            Some(i) => Some(&self.client_data[i]),
            None => None,
        }
    }

    /// The place of the first pending data with this packet identifier.
    fn position_of(&self, packet_id: u16) -> (r: Option<usize>)
        ensures
            match r {
                Some(i) => i < self.pending().len() && self.pending_ids()[i as int] == packet_id
                    && forall|j: int| 0 <= j < i ==> self.pending_ids()[j] != packet_id,
                None => !self.pending_ids().contains(packet_id),
            },
    {
        let mut i: usize = 0;
        while i < self.client_data.len()
            invariant
                i <= self.client_data@.len(),
                forall|j: int| 0 <= j < i ==> client_ids(self.client_data@)[j] != packet_id,
            decreases self.client_data@.len() - i,
        {
            if self.client_data[i].packet_id() == packet_id {
                return Some(i);
            }
            i = i + 1;
        }
        assert(!client_ids(self.client_data@).contains(packet_id)) by {
            if client_ids(self.client_data@).contains(packet_id) {
                let k = choose|k: int|
                    0 <= k < client_ids(self.client_data@).len() && client_ids(
                        self.client_data@,
                    )[k] == packet_id;
                assert(client_ids(self.client_data@)[k] != packet_id);
            }
        }
        None
    }

    /// Takes the first free packet identifier.
    fn request_id(&mut self) -> (r: Result<u16, HubError>)
        ensures
            final(self).state == old(self).state,
            final(self).client_data == old(self).client_data,
            final(self).rx_publish == old(self).rx_publish,
            final(self).rx_publish_id == old(self).rx_publish_id,
            final(self).protocol == old(self).protocol,
            final(self).auto_reconnect == old(self).auto_reconnect,
            final(self).keep_alive_id == old(self).keep_alive_id,
            id_pool_capacity(final(self).ids) == id_pool_capacity(old(self).ids),
            match r {
                Ok(id) => old(self).free_ids().len() > 0 && id == old(self).free_ids()[0]
                    && final(self).free_ids() == old(self).free_ids().skip(1),
                Err(e) => old(self).free_ids().len() == 0 && e is PacketIdErr
                    && final(self).free_ids() == old(self).free_ids(),
            },
    {
        match self.ids.pop() {
            Some(id) => Ok(id),
            None => Err(HubError::PacketIdErr("buffer of packet id is empty".to_owned())),
        }
    }

    /// What the client asks to send while connected: QoS 0 messages go out
    /// at once; the rest take the first free packet identifier, wait as
    /// pending data, and go out. Without a free identifier nothing changes.
    pub fn deal_client_data_when_connected(&mut self, req: ClientData) -> (r: Result<
        Vec<HubAction>,
        HubError,
    >)
        requires
            old(self).wf(),
        ensures
            final(self).wf(),
            final(self).spec_state() == old(self).spec_state(),
            final(self).received() == old(self).received(),
            final(self).received_ids() == old(self).received_ids(),
            final(self).keep_alive_count() == old(self).keep_alive_count(),
            match req {
                ClientData::PublishQoS0(p) => {
                    &&& r matches Ok(v) && v@ == seq![HubAction::StartPublishQos0(p)]
                    &&& final(self).free_ids() == old(self).free_ids()
                    &&& final(self).pending() == old(self).pending()
                },
                _ => if old(self).free_ids().len() == 0 {
                    r matches Err(HubError::PacketIdErr(_)) && final(self).free_ids() == old(
                        self,
                    ).free_ids() && final(self).pending() == old(self).pending()
                } else {
                    let id = old(self).free_ids()[0];
                    &&& r matches Ok(v) && v@ == seq![HubAction::ToAcknowledge(id)]
                    &&& final(self).free_ids() == old(self).free_ids().skip(1)
                    &&& final(self).pending().len() == old(self).pending().len() + 1
                    &&& final(self).pending().drop_last() == old(self).pending()
                    &&& spec_pending_entry(req, final(self).pending().last(), id)
                },
            },
    {
        let ghost pool0 = id_pool_items(self.ids);
        let ghost c0 = self.client_data@;
        let entry = match req {
            ClientData::PublishQoS0(packet) => {
                return Ok(vec![HubAction::StartPublishQos0(packet)]);
            },
            ClientData::Subscribe(mut trace_subscribe) => {
                let id = self.request_id()?;
                trace_subscribe.set_packet_id(id);
                UnacknowledgedClientData::Subscribe(trace_subscribe)
            },
            ClientData::Unsubscribe(mut trace_unsubscribe) => {
                let id = self.request_id()?;
                trace_unsubscribe.set_packet_id(id);
                UnacknowledgedClientData::Unsubscribe(trace_unsubscribe)
            },
            ClientData::PublishQoS1(mut packet) => {
                let id = self.request_id()?;
                packet.set_packet_id(id);
                UnacknowledgedClientData::PublishQoS1(packet)
            },
            ClientData::PublishQoS2(mut packet) => {
                let id = self.request_id()?;
                packet.set_packet_id(id);
                UnacknowledgedClientData::PublishQoS2(packet)
            },
        };
        let id = entry.packet_id();
        self.client_data.push_back(entry);
        proof {
            lemma_client_ids_push(c0, entry);
            lemma_hand_out(pool0, client_ids(c0));
            assert(self.client_data@.drop_last() =~= c0);
        }
        Ok(vec![HubAction::ToAcknowledge(id)])
    }

    /// The acknowledgement of the pending data with packet identifier `id`:
    /// finished data leaves and gives its identifier back, a QoS 2
    /// publication turns into its PUBREL and is sent again; an identifier
    /// that nothing pending holds changes nothing.
    fn recover_id(&mut self, id: u16) -> (r: Result<Vec<HubAction>, HubError>)
        requires
            old(self).wf(),
        ensures
            final(self).wf(),
            final(self).spec_state() == old(self).spec_state(),
            final(self).received() == old(self).received(),
            final(self).received_ids() == old(self).received_ids(),
            !old(self).pending_ids().contains(id) ==> {
                &&& r matches Ok(v) && v@.len() == 0
                &&& final(self).pending() == old(self).pending()
                &&& final(self).free_ids() == old(self).free_ids()
                &&& final(self).keep_alive_count() == old(self).keep_alive_count()
            },
            forall|i: int|
                0 <= i < old(self).pending().len() && #[trigger] old(self).pending_ids()[i] == id
                    ==> match old(self).pending()[i] {
                    UnacknowledgedClientData::PublishQoS2(p) => {
                        &&& r matches Ok(v) && v@ == seq![HubAction::ToAcknowledge(id)]
                        &&& final(self).pending() == old(self).pending().update(
                            i,
                            UnacknowledgedClientData::PubRel(p.packet_id, p.id, p.protocol),
                        )
                        &&& final(self).free_ids() == old(self).free_ids()
                        &&& final(self).keep_alive_count() == old(self).keep_alive_count()
                    },
                    _ => {
                        &&& r matches Ok(v) && v@ == seq![
                            HubAction::KeepAliveCheck(KeepAliveTime(final(self).keep_alive_count())),
                        ]
                        &&& final(self).pending() == old(self).pending().remove(i)
                        &&& final(self).free_ids() == old(self).free_ids().push(id)
                        &&& final(self).keep_alive_count() == old(
                            self,
                        ).keep_alive_count().wrapping_add(1)
                    },
                },
    {
        let ghost pool0 = id_pool_items(self.ids);
        let ghost c0 = self.client_data@;
        let index = match self.position_of(id) {
            Some(i) => i,
            None => return Ok(Vec::new()),
        };
        proof {
            assert forall|i: int|
                0 <= i < c0.len() && #[trigger] client_ids(c0)[i] == id implies i == index by {
                assert((pool0 + client_ids(c0))[pool0.len() + i] == (pool0 + client_ids(
                    c0,
                ))[pool0.len() + index]);
            }
        }
        let mut obj = match self.client_data.remove(index) {
            Some(obj) => obj,
            None => return Ok(Vec::new()),
        };
        let ghost obj0 = obj;
        proof {
            lemma_client_ids_remove(c0, index as int);
        }
        if obj.acknowledge() {
            let t = self.init_keep_alive_check();
            proof {
                lemma_give_back(pool0, client_ids(c0), index as int);
                assert(pool0.len() + c0.len() == 65535);
            }
            let pushed = self.ids.push(id);
            if !pushed {
                return Err(HubError::PacketIdErr("RecoverId Err".to_owned()));
            }
            Ok(vec![HubAction::KeepAliveCheck(t)])
        } else {
            self.client_data.insert(index, obj);
            proof {
                assert(self.client_data@ =~= c0.update(index as int, obj));
                lemma_client_ids_update(c0, index as int, obj);
            }
            Ok(vec![HubAction::ToAcknowledge(id)])
        }
    }

    /// A PUBLISH from the broker: QoS 0 goes to the user at once; QoS 1 and
    /// 2 are kept under their packet identifier and their flow is started,
    /// unless that identifier is already in a flow (a duplicate).
    fn rx_publish(&mut self, publish: Publish) -> (r: Vec<HubAction>)
        requires
            old(self).wf(),
        ensures
            final(self).wf(),
            final(self).spec_state() == old(self).spec_state(),
            final(self).pending() == old(self).pending(),
            final(self).free_ids() == old(self).free_ids(),
            final(self).keep_alive_count() == old(self).keep_alive_count(),
            match publish.qos {
                QoSWithPacketId::AtMostOnce => {
                    &&& r@ == seq![HubAction::Dispatch(MqttEvent::Publish(publish))]
                    &&& final(self).received() == old(self).received()
                    &&& final(self).received_ids() == old(self).received_ids()
                },
                QoSWithPacketId::AtLeastOnce(id) => if old(self).received_ids().contains_key(id) {
                    &&& r@.len() == 0
                    &&& final(self).received() == old(self).received()
                    &&& final(self).received_ids() == old(self).received_ids()
                } else {
                    &&& r@ == seq![HubAction::StartRxQos1(id, old(self).spec_protocol())]
                    &&& final(self).received() == old(self).received().insert(id, publish)
                    &&& final(self).received_ids() == old(self).received_ids().insert(id, id)
                },
                QoSWithPacketId::ExactlyOnce(id) => if old(self).received_ids().contains_key(id) {
                    &&& r@.len() == 0
                    &&& final(self).received() == old(self).received()
                    &&& final(self).received_ids() == old(self).received_ids()
                } else {
                    &&& r@ == seq![HubAction::StartRxQos2(id, publish.protocol)]
                    &&& final(self).received() == old(self).received().insert(id, publish)
                    &&& final(self).received_ids() == old(self).received_ids().insert(id, id)
                },
            },
    {
        match publish.qos {
            QoSWithPacketId::AtMostOnce => vec![HubAction::Dispatch(MqttEvent::Publish(publish))],
            QoSWithPacketId::AtLeastOnce(id) => {
                if self.rx_publish_id.contains_key(&id) {
                    Vec::new()
                } else {
                    self.rx_publish.insert(id, publish);
                    self.rx_publish_id.insert(id, id);
                    vec![HubAction::StartRxQos1(id, self.protocol)]
                }
            },
            QoSWithPacketId::ExactlyOnce(id) => {
                if self.rx_publish_id.contains_key(&id) {
                    Vec::new()
                } else {
                    let protocol = publish.protocol;
                    self.rx_publish.insert(id, publish);
                    self.rx_publish_id.insert(id, id);
                    vec![HubAction::StartRxQos2(id, protocol)]
                }
            },
        }
    }

    /// What the other tasks tell the hub.
    pub fn deal_hub_msg(&mut self, req: HubMsg) -> (r: Result<Vec<HubAction>, HubError>)
        requires
            old(self).wf(),
        ensures
            final(self).wf(),
            match req {
                HubMsg::RecoverId(id) => {
                    &&& final(self).spec_state() == old(self).spec_state()
                    &&& final(self).received() == old(self).received()
                    &&& final(self).received_ids() == old(self).received_ids()
                    &&& !old(self).pending_ids().contains(id) ==> {
                        &&& r matches Ok(v) && v@.len() == 0
                        &&& final(self).pending() == old(self).pending()
                        &&& final(self).free_ids() == old(self).free_ids()
                        &&& final(self).keep_alive_count() == old(self).keep_alive_count()
                    }
                    &&& forall|i: int|
                        0 <= i < old(self).pending().len() && #[trigger] old(self).pending_ids()[i]
                            == id ==> match old(self).pending()[i] {
                            UnacknowledgedClientData::PublishQoS2(p) => {
                                &&& r matches Ok(v) && v@ == seq![HubAction::ToAcknowledge(id)]
                                &&& final(self).pending() == old(self).pending().update(
                                    i,
                                    UnacknowledgedClientData::PubRel(p.packet_id, p.id, p.protocol),
                                )
                                &&& final(self).free_ids() == old(self).free_ids()
                                &&& final(self).keep_alive_count() == old(self).keep_alive_count()
                            },
                            _ => {
                                &&& r matches Ok(v) && v@ == seq![
                                    HubAction::KeepAliveCheck(
                                        KeepAliveTime(final(self).keep_alive_count()),
                                    ),
                                ]
                                &&& final(self).pending() == old(self).pending().remove(i)
                                &&& final(self).free_ids() == old(self).free_ids().push(id)
                                &&& final(self).keep_alive_count() == old(
                                    self,
                                ).keep_alive_count().wrapping_add(1)
                            },
                        }
                },
                HubMsg::PingSuccess => {
                    &&& final(self).keep_alive_count() == old(self).keep_alive_count().wrapping_add(1)
                    &&& r matches Ok(v) && v@ == seq![
                        HubAction::KeepAliveCheck(KeepAliveTime(final(self).keep_alive_count())),
                    ]
                    &&& final(self).spec_state() == old(self).spec_state()
                    &&& final(self).pending() == old(self).pending()
                    &&& final(self).free_ids() == old(self).free_ids()
                    &&& final(self).received() == old(self).received()
                    &&& final(self).received_ids() == old(self).received_ids()
                },
                HubMsg::PingFail => {
                    &&& final(self).spec_state() == HubState::ToDisconnect(
                        ToDisconnectReason::PingFail,
                    )
                    &&& r matches Ok(v) && v@.len() == 1 && (v@[0] matches HubAction::Dispatch(
                        MqttEvent::ConnectedErr(m),
                    ) && m@ == "ping fail"@)
                    &&& final(self).pending() == old(self).pending()
                    &&& final(self).free_ids() == old(self).free_ids()
                    &&& final(self).received() == old(self).received()
                    &&& final(self).received_ids() == old(self).received_ids()
                    &&& final(self).keep_alive_count() == old(self).keep_alive_count()
                },
                HubMsg::KeepAlive(t) => {
                    &&& r matches Ok(v) && v@ == (if t.0 == old(self).keep_alive_count() {
                        seq![HubAction::StartPing]
                    } else {
                        Seq::<HubAction>::empty()
                    })
                    &&& final(self).spec_state() == old(self).spec_state()
                    &&& final(self).pending() == old(self).pending()
                    &&& final(self).free_ids() == old(self).free_ids()
                    &&& final(self).received() == old(self).received()
                    &&& final(self).received_ids() == old(self).received_ids()
                    &&& final(self).keep_alive_count() == old(self).keep_alive_count()
                },
                HubMsg::RxPublish(publish) => {
                    &&& final(self).spec_state() == old(self).spec_state()
                    &&& final(self).pending() == old(self).pending()
                    &&& final(self).free_ids() == old(self).free_ids()
                    &&& final(self).keep_alive_count() == old(self).keep_alive_count()
                    &&& match publish.qos {
                        QoSWithPacketId::AtMostOnce => {
                            &&& r matches Ok(v) && v@ == seq![
                                HubAction::Dispatch(MqttEvent::Publish(publish)),
                            ]
                            &&& final(self).received() == old(self).received()
                            &&& final(self).received_ids() == old(self).received_ids()
                        },
                        QoSWithPacketId::AtLeastOnce(id) => if old(
                            self,
                        ).received_ids().contains_key(id) {
                            &&& r matches Ok(v) && v@.len() == 0
                            &&& final(self).received() == old(self).received()
                            &&& final(self).received_ids() == old(self).received_ids()
                        } else {
                            &&& r matches Ok(v) && v@ == seq![
                                HubAction::StartRxQos1(id, old(self).spec_protocol()),
                            ]
                            &&& final(self).received() == old(self).received().insert(id, publish)
                            &&& final(self).received_ids() == old(self).received_ids().insert(
                                id,
                                id,
                            )
                        },
                        QoSWithPacketId::ExactlyOnce(id) => if old(
                            self,
                        ).received_ids().contains_key(id) {
                            &&& r matches Ok(v) && v@.len() == 0
                            &&& final(self).received() == old(self).received()
                            &&& final(self).received_ids() == old(self).received_ids()
                        } else {
                            &&& r matches Ok(v) && v@ == seq![
                                HubAction::StartRxQos2(id, publish.protocol),
                            ]
                            &&& final(self).received() == old(self).received().insert(id, publish)
                            &&& final(self).received_ids() == old(self).received_ids().insert(
                                id,
                                id,
                            )
                        },
                    }
                },
                HubMsg::AffirmRxId(id) => {
                    &&& r matches Ok(v) && v@.len() == 0
                    &&& final(self).received_ids() == old(self).received_ids().remove(id)
                    &&& final(self).spec_state() == old(self).spec_state()
                    &&& final(self).pending() == old(self).pending()
                    &&& final(self).free_ids() == old(self).free_ids()
                    &&& final(self).received() == old(self).received()
                    &&& final(self).keep_alive_count() == old(self).keep_alive_count()
                },
                HubMsg::AffirmRxPublish(id) => {
                    &&& r matches Ok(v) && v@ == (if old(self).received().contains_key(id) {
                        seq![HubAction::Dispatch(MqttEvent::Publish(old(self).received()[id]))]
                    } else {
                        Seq::<HubAction>::empty()
                    })
                    &&& final(self).received() == old(self).received().remove(id)
                    &&& final(self).spec_state() == old(self).spec_state()
                    &&& final(self).pending() == old(self).pending()
                    &&& final(self).free_ids() == old(self).free_ids()
                    &&& final(self).received_ids() == old(self).received_ids()
                    &&& final(self).keep_alive_count() == old(self).keep_alive_count()
                },
            },
    {
        match req {
            HubMsg::RecoverId(id) => self.recover_id(id),
            HubMsg::PingSuccess => {
                let t = self.init_keep_alive_check();
                Ok(vec![HubAction::KeepAliveCheck(t)])
            },
            HubMsg::PingFail => {
                self.state = HubState::ToDisconnect(ToDisconnectReason::PingFail);
                Ok(vec![HubAction::Dispatch(MqttEvent::ConnectedErr("ping fail".to_owned()))])
            },
            HubMsg::KeepAlive(keep_alive) => {
                if keep_alive.latest(self.keep_alive_id) {
                    Ok(vec![HubAction::StartPing])
                } else {
                    Ok(Vec::new())
                }
            },
            HubMsg::RxPublish(publish) => Ok(self.rx_publish(publish)),
            HubMsg::AffirmRxId(id) => {
                let _ = self.rx_publish_id.remove(&id);
                Ok(Vec::new())
            },
            HubMsg::AffirmRxPublish(id) => {
                if let Some(publish) = self.rx_publish.remove(&id) {
                    Ok(vec![HubAction::Dispatch(MqttEvent::Publish(publish))])
                } else {
                    Ok(Vec::new())
                }
            },
        }
    }

    /// A command of the client while connected: disconnecting politely goes
    /// through `ToDisconnect`; disconnecting at once ends the hub with an
    /// error.
    pub fn deal_client_command_when_connected(&mut self, command: ClientCommand) -> (r: Result<
        (),
        HubError,
    >)
        requires
            old(self).wf(),
        ensures
            final(self).wf(),
            final(self).pending() == old(self).pending(),
            final(self).free_ids() == old(self).free_ids(),
            final(self).received() == old(self).received(),
            final(self).received_ids() == old(self).received_ids(),
            final(self).keep_alive_count() == old(self).keep_alive_count(),
            match command {
                ClientCommand::DisconnectAndDrop => r is Ok && final(self).spec_state()
                    == HubState::ToDisconnect(ToDisconnectReason::ClientCommand),
                ClientCommand::ViolenceDisconnectAndDrop => r matches Err(
                    HubError::ViolenceDisconnectAndDrop,
                ) && final(self).spec_state() is Disconnected,
            },
    {
        match command {
            ClientCommand::DisconnectAndDrop => {
                self.state = HubState::ToDisconnect(ToDisconnectReason::ClientCommand);
            },
            ClientCommand::ViolenceDisconnectAndDrop => {
                self.state = HubState::Disconnected;
                return Err(HubError::ViolenceDisconnectAndDrop);
            },
        }
        Ok(())
    }

    /// A command of the client while connecting: either way the hub is
    /// disconnected; disconnecting at once is an error.
    pub fn deal_client_command_when_to_connect(&mut self, command: ClientCommand) -> (r: Result<
        (),
        HubToConnectError,
    >)
        requires
            old(self).wf(),
        ensures
            final(self).wf(),
            final(self).spec_state() is Disconnected,
            final(self).pending() == old(self).pending(),
            final(self).free_ids() == old(self).free_ids(),
            final(self).received() == old(self).received(),
            final(self).received_ids() == old(self).received_ids(),
            final(self).keep_alive_count() == old(self).keep_alive_count(),
            match command {
                ClientCommand::DisconnectAndDrop => r is Ok,
                ClientCommand::ViolenceDisconnectAndDrop => r matches Err(
                    HubToConnectError::ViolenceDisconnectAndDrop,
                ),
            },
    {
        match command {
            ClientCommand::DisconnectAndDrop => {
                self.state = HubState::Disconnected;
            },
            ClientCommand::ViolenceDisconnectAndDrop => {
                self.state = HubState::Disconnected;
                return Err(HubToConnectError::ViolenceDisconnectAndDrop);
            },
        }
        Ok(())
    }

    /// What the network task reports while connected: a broken connection
    /// is told to the user and leads to `ToDisconnect`; the broker's
    /// DISCONNECT is told to the user and leads to connecting again or to
    /// the end, as the options say; the other events are not expected then
    /// and change nothing.
    pub fn update_connected_state_by_network_status(&mut self, state: NetworkEvent) -> (r: Vec<
        HubAction,
    >)
        requires
            old(self).wf(),
        ensures
            final(self).wf(),
            final(self).pending() == old(self).pending(),
            final(self).free_ids() == old(self).free_ids(),
            final(self).received() == old(self).received(),
            final(self).received_ids() == old(self).received_ids(),
            final(self).keep_alive_count() == old(self).keep_alive_count(),
            match state {
                NetworkEvent::ConnectedErr(msg) => r@ == seq![
                    HubAction::Dispatch(MqttEvent::ConnectedErr(msg)),
                ] && final(self).spec_state() == HubState::ToDisconnect(
                    ToDisconnectReason::NetworkErr(msg),
                ),
                NetworkEvent::BrokerDisconnect(packet) => r@ == seq![
                    HubAction::NotifyBrokerDisconnect(packet),
                ] && (if old(self).spec_auto_reconnect() {
                    final(self).spec_state() is ToConnect
                } else {
                    final(self).spec_state() is Disconnected
                }),
                _ => r@.len() == 0 && final(self).spec_state() == old(self).spec_state(),
            },
    {
        match state {
            NetworkEvent::ConnectedErr(msg) => {
                let copy = msg.clone();
                self.state = HubState::ToDisconnect(ToDisconnectReason::NetworkErr(copy));
                vec![HubAction::Dispatch(MqttEvent::ConnectedErr(msg))]
            },
            NetworkEvent::Connected(_) | NetworkEvent::ConnectFail(_) => Vec::new(),
            NetworkEvent::BrokerDisconnect(packet) => {
                if self.auto_reconnect {
                    self.state = HubState::ToConnect;
                } else {
                    self.state = HubState::Disconnected;
                }
                vec![HubAction::NotifyBrokerDisconnect(packet)]
            },
        }
    }

    /// What the network task reports on an attempt to connect: success makes
    /// the hub connected, starts the keep-alive check and tells the user; a
    /// failure is told to the user and leads to another attempt or to the
    /// end, as the options say; a broken connection is not expected then and
    /// leads to another attempt.
    pub fn on_connect_event(&mut self, status: NetworkEvent) -> (r: (Vec<HubAction>, ConnectStep))
        requires
            old(self).wf(),
        ensures
            final(self).wf(),
            final(self).pending() == old(self).pending(),
            final(self).free_ids() == old(self).free_ids(),
            final(self).received() == old(self).received(),
            final(self).received_ids() == old(self).received_ids(),
            match status {
                NetworkEvent::Connected(session_present) => {
                    &&& final(self).spec_state() is Connected
                    &&& final(self).keep_alive_count() == old(self).keep_alive_count().wrapping_add(1)
                    &&& r.0@ == seq![
                        HubAction::KeepAliveCheck(KeepAliveTime(final(self).keep_alive_count())),
                        HubAction::Dispatch(MqttEvent::ConnectSuccess(session_present)),
                    ]
                    &&& r.1 is Connected
                },
                NetworkEvent::ConnectedErr(_) => {
                    &&& r.0@.len() == 0
                    &&& r.1 is Retry
                    &&& final(self).spec_state() == old(self).spec_state()
                    &&& final(self).keep_alive_count() == old(self).keep_alive_count()
                },
                NetworkEvent::ConnectFail(reason) => {
                    &&& r.0@ == seq![HubAction::Dispatch(MqttEvent::ConnectFail(reason))]
                    &&& final(self).keep_alive_count() == old(self).keep_alive_count()
                    &&& if old(self).spec_auto_reconnect() {
                        r.1 is Retry && final(self).spec_state() == old(self).spec_state()
                    } else {
                        r.1 matches ConnectStep::Failed(HubToConnectError::ChannelAbnormal)
                            && final(self).spec_state() is Disconnected
                    }
                },
                NetworkEvent::BrokerDisconnect(packet) => {
                    &&& r.0@ == seq![HubAction::NotifyBrokerDisconnect(packet)]
                    &&& final(self).keep_alive_count() == old(self).keep_alive_count()
                    &&& if old(self).spec_auto_reconnect() {
                        r.1 is Retry && final(self).spec_state() == old(self).spec_state()
                    } else {
                        r.1 matches ConnectStep::Failed(HubToConnectError::ChannelAbnormal)
                            && final(self).spec_state() is Disconnected
                    }
                },
            },
    {
        match status {
            NetworkEvent::Connected(session_present) => {
                self.state = HubState::Connected;
                let t = self.init_keep_alive_check();
                (
                    vec![
                        HubAction::KeepAliveCheck(t),
                        HubAction::Dispatch(MqttEvent::ConnectSuccess(session_present)),
                    ],
                    ConnectStep::Connected,
                )
            },
            NetworkEvent::ConnectedErr(_reason) => (Vec::new(), ConnectStep::Retry),
            NetworkEvent::ConnectFail(reason) => {
                let actions = vec![HubAction::Dispatch(MqttEvent::ConnectFail(reason))];
                if self.auto_reconnect {
                    (actions, ConnectStep::Retry)
                } else {
                    self.state = HubState::Disconnected;
                    (actions, ConnectStep::Failed(HubToConnectError::ChannelAbnormal))
                }
            },
            NetworkEvent::BrokerDisconnect(packet) => {
                let actions = vec![HubAction::NotifyBrokerDisconnect(packet)];
                if self.auto_reconnect {
                    (actions, ConnectStep::Retry)
                } else {
                    self.state = HubState::Disconnected;
                    (actions, ConnectStep::Failed(HubToConnectError::ChannelAbnormal))
                }
            },
        }
    }

    /// After connecting again: everything pending is sent again, in order.
    pub fn resend_pending(&self) -> (r: Vec<HubAction>)
        ensures
            r@.len() == self.pending().len(),
            forall|k: int|
                0 <= k < r@.len() ==> #[trigger] r@[k] == HubAction::ToAcknowledge(
                    self.pending_ids()[k],
                ),
    {
        let mut actions: Vec<HubAction> = Vec::new();
        let mut i: usize = 0;
        while i < self.client_data.len()
            invariant
                i <= self.client_data@.len(),
                actions@.len() == i,
                forall|k: int|
                    0 <= k < i ==> #[trigger] actions@[k] == HubAction::ToAcknowledge(
                        client_ids(self.client_data@)[k],
                    ),
            decreases self.client_data@.len() - i,
        {
            let id = self.client_data[i].packet_id();
            actions.push(HubAction::ToAcknowledge(id));
            i = i + 1;
        }
        actions
    }

    /// The step out of `ToDisconnect`: the network task is told to
    /// disconnect; a failed ping or a broken connection leads to connecting
    /// again when the options say so, and to the end otherwise; the client's
    /// command leads to the end. In other states nothing happens.
    pub fn to_disconnect_step(&mut self) -> (r: Vec<HubAction>)
        requires
            old(self).wf(),
        ensures
            final(self).wf(),
            final(self).pending() == old(self).pending(),
            final(self).free_ids() == old(self).free_ids(),
            final(self).received() == old(self).received(),
            final(self).received_ids() == old(self).received_ids(),
            final(self).keep_alive_count() == old(self).keep_alive_count(),
            match old(self).spec_state() {
                HubState::ToDisconnect(reason) => {
                    &&& r@ == seq![HubAction::DisconnectNetwork]
                    &&& match reason {
                        ToDisconnectReason::ClientCommand => final(self).spec_state() is Disconnected,
                        _ => if old(self).spec_auto_reconnect() {
                            final(self).spec_state() is ToConnect
                        } else {
                            final(self).spec_state() is Disconnected
                        },
                    }
                },
                _ => r@.len() == 0 && final(self).spec_state() == old(self).spec_state(),
            },
    {
        let next = match &self.state {
            HubState::ToDisconnect(reason) => match reason {
                ToDisconnectReason::PingFail => {
                    if self.auto_reconnect {
                        HubState::ToConnect
                    } else {
                        HubState::Disconnected
                    }
                },
                ToDisconnectReason::ClientCommand => HubState::Disconnected,
                ToDisconnectReason::NetworkErr(_) => {
                    if self.auto_reconnect {
                        HubState::ToConnect
                    } else {
                        HubState::Disconnected
                    }
                },
            },
            _ => return Vec::new(),
        };
        self.state = next;
        vec![HubAction::DisconnectNetwork]
    }

    /// Starts a keep-alive check: a new mark, counted.
    fn init_keep_alive_check(&mut self) -> (r: KeepAliveTime)
        ensures
            final(self).keep_alive_id == old(self).keep_alive_id.wrapping_add(1),
            r == KeepAliveTime(final(self).keep_alive_id),
            final(self).state == old(self).state,
            final(self).ids == old(self).ids,
            final(self).client_data == old(self).client_data,
            final(self).rx_publish == old(self).rx_publish,
            final(self).rx_publish_id == old(self).rx_publish_id,
            final(self).protocol == old(self).protocol,
            final(self).auto_reconnect == old(self).auto_reconnect,
    {
        self.keep_alive_id = self.keep_alive_id.wrapping_add(1);
        KeepAliveTime(self.keep_alive_id)
    }
}

/// No packet identifier is ever handed out twice: of the 65535 identifiers,
/// each is either free or held by exactly one piece of pending data, and
/// none is zero.
pub proof fn lemma_packet_ids_unique(hub: &Hub)
    requires
        hub.wf(),
    ensures
        hub.free_ids().len() + hub.pending_ids().len() == 65535,
        forall|i: int, j: int|
            0 <= i < j < hub.pending_ids().len() ==> hub.pending_ids()[i] != hub.pending_ids()[j],
        forall|i: int, j: int|
            0 <= i < j < hub.free_ids().len() ==> hub.free_ids()[i] != hub.free_ids()[j],
        forall|i: int, k: int|
            0 <= i < hub.pending_ids().len() && 0 <= k < hub.free_ids().len()
                ==> hub.pending_ids()[i] != hub.free_ids()[k],
        forall|i: int| 0 <= i < hub.pending_ids().len() ==> hub.pending_ids()[i] != 0,
        forall|k: int| 0 <= k < hub.free_ids().len() ==> hub.free_ids()[k] != 0,
{
    let f = hub.free_ids();
    let p = hub.pending_ids();
    let s = f + p;
    assert forall|i: int, j: int| 0 <= i < j < p.len() implies p[i] != p[j] by {
        assert(s[f.len() + i] == p[i] && s[f.len() + j] == p[j]);
    }
    assert forall|i: int, j: int| 0 <= i < j < f.len() implies f[i] != f[j] by {
        assert(s[i] == f[i] && s[j] == f[j]);
    }
    assert forall|i: int, k: int| 0 <= i < p.len() && 0 <= k < f.len() implies p[i] != f[k] by {
        assert(s[f.len() + i] == p[i] && s[k] == f[k]);
    }
    assert forall|i: int| 0 <= i < p.len() implies p[i] != 0 by {
        assert(s[f.len() + i] == p[i]);
    }
    assert forall|k: int| 0 <= k < f.len() implies f[k] != 0 by {
        assert(s[k] == f[k]);
    }
}

} // verus!
