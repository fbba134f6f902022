//! A message to publish, with the identifier that traces it.
use crate::datas::id::Id;
use crate::datas::payload::Payload;
use crate::QoS;
use std::sync::Arc;
use vstd::prelude::*;
use vstd::std_specs::cmp::PartialEqSpecImpl;

verus! {

/// A message to publish. Two of them are the same message when their trace
/// identifiers are equal.
#[derive(Debug, Clone)]
pub struct TracePublish {
    id: Id,
    pub topic: Arc<String>,
    pub qos: QoS,
    pub payload: Arc<Payload>,
    pub retain: bool,
}

impl TracePublish {
    /// The trace identifier.
    pub closed spec fn spec_id(&self) -> u32 {
        self.id.0
    }

    pub closed spec fn spec_topic(&self) -> Arc<String> {
        self.topic
    }

    pub closed spec fn spec_qos(&self) -> QoS {
        self.qos
    }

    pub closed spec fn spec_payload(&self) -> Arc<Payload> {
        self.payload
    }

    pub closed spec fn spec_retain(&self) -> bool {
        self.retain
    }

    /// A message traced by `id`.
    pub fn new(topic: Arc<String>, qos: QoS, payload: Arc<Payload>, retain: bool, id: Id) -> (r: Self)
        ensures
            r.spec_id() == id.0,
            r.spec_topic() == topic,
            r.spec_qos() == qos,
            r.spec_payload() == payload,
            r.spec_retain() == retain,
    {
        Self { id, topic, qos, payload, retain }
    }

    pub fn id(&self) -> (r: u32)
        ensures
            r == self.spec_id(),
    {
        self.id.0
    }
}

impl PartialEq for TracePublish {
    fn eq(&self, other: &Self) -> (r: bool) {
        self.id.0 == other.id.0
    }
}

impl PartialEqSpecImpl for TracePublish {
    open spec fn obeys_eq_spec() -> bool {
        true
    }

    open spec fn eq_spec(&self, other: &Self) -> bool {
        self.spec_id() == other.spec_id()
    }
}

impl PartialEq<Id> for TracePublish {
    fn eq(&self, other: &Id) -> (r: bool) {
        self.id.0 == other.0
    }
}

impl PartialEqSpecImpl<Id> for TracePublish {
    open spec fn obeys_eq_spec() -> bool {
        true
    }

    open spec fn eq_spec(&self, other: &Id) -> bool {
        self.spec_id() == other.0
    }
}

} // verus!
