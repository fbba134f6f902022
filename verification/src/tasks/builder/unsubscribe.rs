//! Building unsubscriptions.
use crate::tasks::client_data::TraceUnubscribe;
use crate::{Protocol, ProtocolV5};
use std::marker::PhantomData;
use std::sync::Arc;
use vstd::prelude::*;

verus! {

/// An unsubscription being built: its topic filters and, for MQTT 5, its
/// user properties.
pub struct UnsubscribeBuilder<T: Protocol> {
    pub trace_id: u32,
    pub user_properties: Vec<(String, String)>,
    pub filters: Vec<FilterBuilder<T>>,
}

/// A topic filter to unsubscribe from.
pub struct FilterBuilder<T: Protocol> {
    pub path: String,
    pub protocol: PhantomData<T>,
}

impl<T: Protocol> FilterBuilder<T> {
    pub fn new(path: String) -> (r: Self)
        ensures
            r.path == path,
    {
        Self { path, protocol: PhantomData }
    }

    /// An unsubscription from this one filter.
    pub fn build(self, trace_id: u32) -> (r: UnsubscribeBuilder<T>)
        ensures
            r.trace_id == trace_id,
            r.user_properties@.len() == 0,
            r.filters@.len() == 1,
            r.filters@[0].path == self.path,
    {
        let mut filters: Vec<FilterBuilder<T>> = Vec::new();
        filters.push(self);
        UnsubscribeBuilder { trace_id, user_properties: Vec::new(), filters }
    }
}

impl<T: Protocol> UnsubscribeBuilder<T> {
    pub fn add_filter(&mut self, path: String)
        ensures
            final(self).trace_id == old(self).trace_id,
            final(self).user_properties == old(self).user_properties,
            final(self).filters@.len() == old(self).filters@.len() + 1,
            final(self).filters@.drop_last() == old(self).filters@,
            final(self).filters@.last().path == path,
    {
        self.filters.push(FilterBuilder::new(path));
        assert(self.filters@.drop_last() =~= old(self).filters@);
    }

    /// The unsubscription: its topics, in order, with no packet identifier
    /// yet.
    pub fn into_trace(self) -> (r: TraceUnubscribe)
        ensures
            r.id == self.trace_id,
            r.packet_id == 0,
            r.topics@.len() == self.filters@.len(),
            forall|i: int|
                0 <= i < r.topics@.len() ==> (*#[trigger] r.topics@[i])@ == self.filters@[i].path@,
    {
        let UnsubscribeBuilder { trace_id, user_properties: _, filters } = self;
        let mut topics: Vec<Arc<String>> = Vec::new();
        let mut i: usize = 0;
        while i < filters.len()
            invariant
                i <= filters@.len(),
                topics@.len() == i,
                forall|k: int| 0 <= k < i ==> (*#[trigger] topics@[k])@ == filters@[k].path@,
            decreases filters@.len() - i,
        {
            topics.push(Arc::new(filters[i].path.clone()));
            i = i + 1;
        }
        TraceUnubscribe { id: trace_id, packet_id: 0, topics }
    }
}

impl UnsubscribeBuilder<ProtocolV5> {
    pub fn add_user_properties(&mut self, key: String, val: String)
        ensures
            final(self).user_properties.deep_view() == old(self).user_properties.deep_view().push(
                (key@, val@),
            ),
            final(self).filters == old(self).filters,
            final(self).trace_id == old(self).trace_id,
    {
        let ghost before = self.user_properties.deep_view();
        self.user_properties.push((key, val));
        assert(self.user_properties.deep_view() =~= before.push((key@, val@)));
    }
}

} // verus!
