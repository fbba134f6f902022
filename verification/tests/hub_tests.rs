use for_mqtt_client::protocol::packet::pubcommon::PubAck;
use for_mqtt_client::tasks::exchange::{ack_wait_step, hub_msgs_after_ack, reports_publish_success, AckWait, Exchange};
use for_mqtt_client::datas::id::IdCounter;
use bytes::{Bytes, BytesMut};
use for_mqtt_client::protocol::packet::disconnect::Disconnect;
use for_mqtt_client::protocol::packet::publish::Publish;
use for_mqtt_client::protocol::packet::subscribe::Subscribe;
use for_mqtt_client::protocol::packet::connack::{ConnectReturnFailCode, ConnectReturnFailCodeV3};
use for_mqtt_client::protocol::{PacketType, Protocol};
use for_mqtt_client::tasks::client_data::{ClientCommand, ClientData, ClientErr, MqttEvent, TraceSubscribe, TraceUnubscribe};
use for_mqtt_client::tasks::hub::{ConnectStep, Hub, HubAction};
use for_mqtt_client::tasks::hub_data::{HubError, HubMsg, HubState, HubToConnectError, KeepAliveTime, ToDisconnectReason};
use for_mqtt_client::tasks::network::{
    deal_hub_network_command, network_failure_event, next_network_step, read_connect_reply, HubNetworkCommand, NetworkDispatch, NetworkEvent,
    NetworkState, NetworkStep, NetworkTasksError, ToConnectError,
};
use for_mqtt_client::tasks::ping::{ping_start, ping_step, PingPhase, PingReport};
use for_mqtt_client::tasks::unacknowledged::UnacknowledgedClientData;
use for_mqtt_client::{QoS, QoSWithPacketId};
use std::sync::Arc;

fn publish_data(qos: QoS, id: u32) -> ClientData {
    ClientData::publish(Arc::new("t".to_string()), qos, Arc::new(Bytes::from_static(b"p")), false, Protocol::V4, id)
}

fn rx(qos: QoSWithPacketId) -> Publish {
    Publish::new(Arc::new("t".to_string()), qos, Arc::new(Bytes::from_static(b"p")), false, Protocol::V4)
}

#[test]
fn id_pool_hands_out_in_order() {
    let mut hub = Hub::new(Protocol::V4, false);
    let a = hub.deal_client_data_when_connected(publish_data(QoS::AtLeastOnce, 1)).ok().unwrap();
    assert!(matches!(a.as_slice(), [HubAction::ToAcknowledge(1)]));
    let a = hub.deal_client_data_when_connected(publish_data(QoS::AtLeastOnce, 2)).ok().unwrap();
    assert!(matches!(a.as_slice(), [HubAction::ToAcknowledge(2)]));
    assert!(hub.deal_hub_msg(HubMsg::RecoverId(1)).is_ok());
    let a = hub.deal_client_data_when_connected(publish_data(QoS::AtLeastOnce, 3)).ok().unwrap();
    assert!(matches!(a.as_slice(), [HubAction::ToAcknowledge(3)]));
}

#[test]
fn hub_starts_to_connect() {
    let hub = Hub::new(Protocol::V4, false);
    assert!(hub.state().is_to_connect());
    assert_eq!(hub.latest_keep_alive(), 0);
    assert!(hub.unacknowledged(1).is_none());
}

#[test]
fn qos1_takes_and_returns_an_id() {
    let mut hub = Hub::new(Protocol::V4, false);
    let actions = hub.deal_client_data_when_connected(publish_data(QoS::AtLeastOnce, 7)).ok().unwrap();
    assert!(matches!(actions.as_slice(), [HubAction::ToAcknowledge(1)]));
    assert!(matches!(hub.unacknowledged(1), Some(UnacknowledgedClientData::PublishQoS1(p)) if p.id == 7 && p.packet_id == 1));
    let actions = hub.deal_client_data_when_connected(publish_data(QoS::AtLeastOnce, 8)).ok().unwrap();
    assert!(matches!(actions.as_slice(), [HubAction::ToAcknowledge(2)]));
    let actions = hub.deal_hub_msg(HubMsg::RecoverId(1)).ok().unwrap();
    assert!(matches!(actions.as_slice(), [HubAction::KeepAliveCheck(KeepAliveTime(1))]));
    assert!(hub.unacknowledged(1).is_none());
    assert!(hub.unacknowledged(2).is_some());
}

#[test]
fn qos0_needs_no_id() {
    let mut hub = Hub::new(Protocol::V4, false);
    let actions = hub.deal_client_data_when_connected(publish_data(QoS::AtMostOnce, 3)).ok().unwrap();
    assert!(matches!(actions.as_slice(), [HubAction::StartPublishQos0(p)] if p.id == 3));
    let actions = hub.deal_client_data_when_connected(publish_data(QoS::AtLeastOnce, 4)).ok().unwrap();
    assert!(matches!(actions.as_slice(), [HubAction::ToAcknowledge(1)]));
}

#[test]
fn qos2_waits_for_pubcomp() {
    let mut hub = Hub::new(Protocol::V4, false);
    hub.deal_client_data_when_connected(publish_data(QoS::ExactlyOnce, 9)).ok().unwrap();
    let actions = hub.deal_hub_msg(HubMsg::RecoverId(1)).ok().unwrap();
    assert!(matches!(actions.as_slice(), [HubAction::ToAcknowledge(1)]));
    assert!(matches!(hub.unacknowledged(1), Some(UnacknowledgedClientData::PubRel(1, 9, Protocol::V4))));
    let actions = hub.deal_hub_msg(HubMsg::RecoverId(1)).ok().unwrap();
    assert!(matches!(actions.as_slice(), [HubAction::KeepAliveCheck(_)]));
    assert!(hub.unacknowledged(1).is_none());
}

#[test]
fn recover_unknown_id_does_nothing() {
    let mut hub = Hub::new(Protocol::V4, false);
    let actions = hub.deal_hub_msg(HubMsg::RecoverId(42)).ok().unwrap();
    assert!(actions.is_empty());
    assert_eq!(hub.latest_keep_alive(), 0);
}

#[test]
fn subscribe_and_unsubscribe_take_ids() {
    let mut hub = Hub::new(Protocol::V4, false);
    let sub = TraceSubscribe { id: 1, subscribe: Subscribe::V4 { packet_id: 0, payload: Bytes::new() } };
    let actions = hub.deal_client_data_when_connected(ClientData::Subscribe(sub)).ok().unwrap();
    assert!(matches!(actions.as_slice(), [HubAction::ToAcknowledge(1)]));
    let mut ids = IdCounter::new();
    let _ = ids.fresh();
    let _ = ids.fresh();
    let unsub = TraceUnubscribe::new(vec![Arc::new("a".to_string())], &mut ids);
    assert_eq!(unsub.id, 2);
    let actions = hub.deal_client_data_when_connected(ClientData::Unsubscribe(unsub)).ok().unwrap();
    assert!(matches!(actions.as_slice(), [HubAction::ToAcknowledge(2)]));
    let resend = hub.resend_pending();
    assert!(matches!(resend.as_slice(), [HubAction::ToAcknowledge(1), HubAction::ToAcknowledge(2)]));
}

#[test]
fn all_ids_in_use_is_an_error() {
    let mut hub = Hub::new(Protocol::V4, false);
    for i in 0..65535u32 {
        assert!(hub.deal_client_data_when_connected(publish_data(QoS::AtLeastOnce, i)).is_ok());
    }
    assert!(matches!(hub.deal_client_data_when_connected(publish_data(QoS::AtLeastOnce, 0)), Err(HubError::PacketIdErr(_))));
    assert!(hub.deal_hub_msg(HubMsg::RecoverId(65535)).is_ok());
    let actions = hub.deal_client_data_when_connected(publish_data(QoS::AtLeastOnce, 1)).ok().unwrap();
    assert!(matches!(actions.as_slice(), [HubAction::ToAcknowledge(65535)]));
}

#[test]
fn ping_fail_leads_to_disconnect() {
    let mut hub = Hub::new(Protocol::V4, true);
    let actions = hub.deal_hub_msg(HubMsg::PingFail).ok().unwrap();
    assert!(matches!(actions.as_slice(), [HubAction::Dispatch(MqttEvent::ConnectedErr(m))] if m == "ping fail"));
    assert!(matches!(hub.state(), HubState::ToDisconnect(ToDisconnectReason::PingFail)));
    let actions = hub.to_disconnect_step();
    assert!(matches!(actions.as_slice(), [HubAction::DisconnectNetwork]));
    assert!(hub.state().is_to_connect());
}

#[test]
fn keep_alive_only_latest_pings() {
    let mut hub = Hub::new(Protocol::V4, false);
    let a = hub.deal_hub_msg(HubMsg::PingSuccess).ok().unwrap();
    assert!(matches!(a.as_slice(), [HubAction::KeepAliveCheck(KeepAliveTime(1))]));
    let b = hub.deal_hub_msg(HubMsg::KeepAlive(KeepAliveTime(0))).ok().unwrap();
    assert!(b.is_empty());
    let c = hub.deal_hub_msg(HubMsg::KeepAlive(KeepAliveTime(1))).ok().unwrap();
    assert!(matches!(c.as_slice(), [HubAction::StartPing]));
    assert!(KeepAliveTime(1).latest(1));
    assert!(!KeepAliveTime(0).latest(1));
}

#[test]
fn received_qos1_and_duplicates() {
    let mut hub = Hub::new(Protocol::V5, false);
    let a = hub.deal_hub_msg(HubMsg::RxPublish(rx(QoSWithPacketId::AtLeastOnce(5)))).ok().unwrap();
    assert!(matches!(a.as_slice(), [HubAction::StartRxQos1(5, Protocol::V5)]));
    let b = hub.deal_hub_msg(HubMsg::RxPublish(rx(QoSWithPacketId::AtLeastOnce(5)))).ok().unwrap();
    assert!(b.is_empty());
    hub.deal_hub_msg(HubMsg::AffirmRxId(5)).ok().unwrap();
    let c = hub.deal_hub_msg(HubMsg::RxPublish(rx(QoSWithPacketId::AtLeastOnce(5)))).ok().unwrap();
    assert!(matches!(c.as_slice(), [HubAction::StartRxQos1(5, Protocol::V5)]));
}

#[test]
fn received_qos2_released_once() {
    let mut hub = Hub::new(Protocol::V4, false);
    let a = hub.deal_hub_msg(HubMsg::RxPublish(rx(QoSWithPacketId::ExactlyOnce(3)))).ok().unwrap();
    assert!(matches!(a.as_slice(), [HubAction::StartRxQos2(3, Protocol::V4)]));
    let b = hub.deal_hub_msg(HubMsg::AffirmRxPublish(3)).ok().unwrap();
    assert!(matches!(b.as_slice(), [HubAction::Dispatch(MqttEvent::Publish(p))] if p.qos == QoSWithPacketId::ExactlyOnce(3)));
    let c = hub.deal_hub_msg(HubMsg::AffirmRxPublish(3)).ok().unwrap();
    assert!(c.is_empty());
}

#[test]
fn received_qos0_goes_to_user() {
    let mut hub = Hub::new(Protocol::V4, false);
    let a = hub.deal_hub_msg(HubMsg::RxPublish(rx(QoSWithPacketId::AtMostOnce))).ok().unwrap();
    assert!(matches!(a.as_slice(), [HubAction::Dispatch(MqttEvent::Publish(_))]));
}

#[test]
fn client_commands() {
    let mut hub = Hub::new(Protocol::V4, true);
    assert!(hub.deal_client_command_when_connected(ClientCommand::DisconnectAndDrop).is_ok());
    assert!(matches!(hub.state(), HubState::ToDisconnect(ToDisconnectReason::ClientCommand)));
    hub.to_disconnect_step();
    assert!(hub.state().is_disconnected());
    let mut hub = Hub::new(Protocol::V4, true);
    assert!(matches!(hub.deal_client_command_when_connected(ClientCommand::ViolenceDisconnectAndDrop), Err(HubError::ViolenceDisconnectAndDrop)));
    assert!(hub.state().is_disconnected());
    let mut hub = Hub::new(Protocol::V4, true);
    assert!(matches!(hub.deal_client_command_when_to_connect(ClientCommand::ViolenceDisconnectAndDrop), Err(HubToConnectError::ViolenceDisconnectAndDrop)));
    assert!(hub.state().is_disconnected());
}

#[test]
fn connect_events() {
    let mut hub = Hub::new(Protocol::V4, false);
    let (a, step) = hub.on_connect_event(NetworkEvent::Connected(true));
    assert!(matches!(step, ConnectStep::Connected));
    assert!(matches!(a.as_slice(), [HubAction::KeepAliveCheck(KeepAliveTime(1)), HubAction::Dispatch(MqttEvent::ConnectSuccess(true))]));
    assert!(hub.state().is_connected());
    let mut hub = Hub::new(Protocol::V4, false);
    let (a, step) = hub.on_connect_event(NetworkEvent::ConnectFail(ToConnectError::ChannelAbnormal));
    assert!(matches!(step, ConnectStep::Failed(HubToConnectError::ChannelAbnormal)));
    assert!(matches!(a.as_slice(), [HubAction::Dispatch(MqttEvent::ConnectFail(_))]));
    assert!(hub.state().is_disconnected());
    let mut hub = Hub::new(Protocol::V4, true);
    let (_, step) = hub.on_connect_event(NetworkEvent::BrokerDisconnect(Disconnect::new(Protocol::V4)));
    assert!(matches!(step, ConnectStep::Retry));
    assert!(hub.state().is_to_connect());
}

#[test]
fn network_error_while_connected() {
    let mut hub = Hub::new(Protocol::V4, false);
    let a = hub.update_connected_state_by_network_status(NetworkEvent::ConnectedErr("gone".to_string()));
    assert!(matches!(a.as_slice(), [HubAction::Dispatch(MqttEvent::ConnectedErr(m))] if m == "gone"));
    assert!(matches!(hub.state(), HubState::ToDisconnect(ToDisconnectReason::NetworkErr(m)) if m == "gone"));
    let a = hub.to_disconnect_step();
    assert!(matches!(a.as_slice(), [HubAction::DisconnectNetwork]));
    assert!(hub.state().is_disconnected());
}

#[test]
fn connect_reply_outcomes() {
    let mut ok = BytesMut::from(&[0x20u8, 0x02, 0x01, 0x00][..]);
    assert!(matches!(read_connect_reply(&mut ok, Protocol::V4), Ok(true)));
    let mut refused = BytesMut::from(&[0x20u8, 0x02, 0x00, 0x04][..]);
    assert!(matches!(
        read_connect_reply(&mut refused, Protocol::V4),
        Err(ToConnectError::BrokerRefuse(ConnectReturnFailCode::FailV3(ConnectReturnFailCodeV3::BadUserNamePassword)))
    ));
    let mut other = BytesMut::from(&[0xD0u8, 0x00][..]);
    assert!(matches!(read_connect_reply(&mut other, Protocol::V4), Err(ToConnectError::NotConnAck(PacketType::PingResp))));
    let mut short = BytesMut::from(&[0x20u8][..]);
    assert!(matches!(read_connect_reply(&mut short, Protocol::V4), Err(ToConnectError::PacketError(_))));
}

#[test]
fn network_steps_over_buffer() {
    let mut buf = BytesMut::from(&[0xD0u8, 0x00, 0x40, 0x02, 0x00, 0x01, 0x20][..]);
    assert!(matches!(next_network_step(&mut buf, Protocol::V4), NetworkStep::Dispatch(NetworkDispatch::PingResp(_), true)));
    assert!(matches!(next_network_step(&mut buf, Protocol::V4), NetworkStep::Dispatch(NetworkDispatch::PubAck(_), false)));
    assert!(matches!(next_network_step(&mut buf, Protocol::V4), NetworkStep::Stop));
    let mut conn = BytesMut::from(&[0x20u8, 0x02, 0x00, 0x00][..]);
    assert!(matches!(next_network_step(&mut conn, Protocol::V4), NetworkStep::Dispatch(NetworkDispatch::Unexpected, false)));
}

#[test]
fn network_commands_and_failures() {
    let mut state = NetworkState::Connected;
    assert!(matches!(deal_hub_network_command(&mut state, HubNetworkCommand::Disconnect), Err(NetworkTasksError::HubCommandToDisconnect)));
    assert!(state.is_to_disconnected());
    assert!(!state.is_connected());
    assert!(matches!(network_failure_event(NetworkTasksError::NetworkError("x".to_string())), Some(NetworkEvent::ConnectedErr(m)) if m == "x"));
    assert!(network_failure_event(NetworkTasksError::ChannelAbnormal).is_none());
}

#[test]
fn ping_tries() {
    let p = ping_start();
    assert_eq!(p, PingPhase::Sending(3));
    let (p, r) = ping_step(p, true);
    assert_eq!(p, PingPhase::Waiting(3));
    assert!(r.is_empty());
    let (p, r) = ping_step(p, false);
    assert_eq!(p, PingPhase::Waiting(2));
    assert!(r.is_empty());
    let (p, r) = ping_step(p, true);
    assert_eq!(p, PingPhase::Done);
    assert_eq!(r, vec![PingReport::Success]);
    let mut p = ping_start();
    let mut reports = vec![];
    for _ in 0..3 {
        let (q, r) = ping_step(p, false);
        p = q;
        reports.extend(r);
    }
    assert_eq!(p, PingPhase::Done);
    assert_eq!(reports, vec![PingReport::Fail, PingReport::Fail]);
}

#[test]
fn publish_size_limit() {
    let big = Arc::new(Bytes::from(vec![0u8; 268_435_450]));
    assert!(matches!(ClientData::checked_publish(Arc::new("ab".to_string()), QoS::AtMostOnce, big.clone(), false, Protocol::V4, 1), Err(ClientErr::PayloadTooLong)));
    assert!(ClientData::checked_publish(Arc::new("a".to_string()), QoS::AtMostOnce, big, false, Protocol::V4, 1).is_ok());
}

#[test]
fn checked_publish_keeps_the_message() {
    let topic = Arc::new("t/x".to_string());
    let payload = Arc::new(Bytes::from_static(b"body"));
    match ClientData::checked_publish(topic.clone(), QoS::ExactlyOnce, payload.clone(), true, Protocol::V5, 11) {
        Ok(ClientData::PublishQoS2(p)) => {
            assert_eq!(p.id, 11);
            assert_eq!(p.packet_id, 0);
            assert_eq!(p.topic, topic);
            assert_eq!(p.payload, payload);
            assert!(p.retain);
            assert_eq!(p.protocol, Protocol::V5);
        }
        _ => panic!("expected a QoS 2 message"),
    }
}

#[test]
fn trace_ids_are_fresh() {
    let mut ids = IdCounter::new();
    let a = TraceUnubscribe::new(vec![Arc::new("a".to_string())], &mut ids);
    let b = TraceUnubscribe::new(vec![Arc::new("b".to_string())], &mut ids);
    assert_eq!(a.packet_id, 0);
    assert_eq!(a.topics[0].as_str(), "a");
    assert_eq!(b.topics[0].as_str(), "b");
    assert_ne!(a.id, b.id);
    assert_eq!(ids.fresh().0, 2);
}

#[test]
fn ack_wait_steps() {
    let ack = PubAck::new(5, Protocol::V4);
    assert_eq!(ack_wait_step(5, Some(&ack)), AckWait::Done);
    assert_eq!(ack_wait_step(6, Some(&ack)), AckWait::KeepWaiting);
    assert_eq!(ack_wait_step::<PubAck>(5, None), AckWait::Resend);
}

#[test]
fn hub_told_after_ack() {
    let m = hub_msgs_after_ack(Exchange::PublishQos1, 4);
    assert!(matches!(m.as_slice(), [HubMsg::RecoverId(4), HubMsg::RecoverId(4)]));
    let m = hub_msgs_after_ack(Exchange::Subscribe, 4);
    assert!(matches!(m.as_slice(), [HubMsg::RecoverId(4)]));
    let m = hub_msgs_after_ack(Exchange::RxQos1, 4);
    assert!(matches!(m.as_slice(), [HubMsg::AffirmRxPublish(4), HubMsg::AffirmRxId(4)]));
    let m = hub_msgs_after_ack(Exchange::RxQos2, 4);
    assert!(matches!(m.as_slice(), [HubMsg::AffirmRxPublish(4)]));
    assert!(reports_publish_success(Exchange::PublishQos1));
    assert!(reports_publish_success(Exchange::PubRel));
    assert!(!reports_publish_success(Exchange::PublishQos2));
    assert!(!reports_publish_success(Exchange::Unsubscribe));
}
