use bytes::Bytes;
use for_mqtt_client::datas::id::Id;
use for_mqtt_client::datas::payload::Payload;
use for_mqtt_client::datas::trace_publish::TracePublish;
use for_mqtt_client::QoS;
use std::sync::Arc;

#[test]
fn payload_text_is_its_utf8_bytes() {
    let p = Payload::String(Arc::new("héllo".to_string()));
    assert_eq!(p.len(), 6);
    assert_eq!(p.as_bytes(), "héllo".as_bytes());
}

#[test]
fn payload_bytes_are_themselves() {
    let p = Payload::Bytes(Arc::new(Bytes::from_static(&[1, 2, 3])));
    assert_eq!(p.len(), 3);
    assert_eq!(p.as_bytes(), &[1, 2, 3]);
}

#[test]
fn trace_publish_equal_by_trace_id() {
    let body = Arc::new(Payload::String(Arc::new("x".to_string())));
    let a = TracePublish::new(Arc::new("a".to_string()), QoS::AtMostOnce, body.clone(), false, Id(4));
    let b = TracePublish::new(Arc::new("b".to_string()), QoS::ExactlyOnce, body.clone(), true, Id(4));
    let c = TracePublish::new(Arc::new("a".to_string()), QoS::AtMostOnce, body, false, Id(5));
    assert_eq!(a.id(), 4);
    assert!(a == b);
    assert!(a != c);
    assert!(a == Id(4));
    assert!(!(a == Id(5)));
}
