//! Building subscriptions: topic filters with their options, MQTT 5
//! properties, and the encoded SUBSCRIBE payload.
use crate::buffer::{
    bytes_as_slice, bytes_mut_freeze, bytes_mut_new, bytes_mut_put_u8, bytes_mut_view, bytes_view,
    max_buffer_len, u16_bytes,
};
use crate::protocol::packet::property_write::{user_props_bytes, write_user_properties};
use crate::protocol::packet::subscribe::{spec_retain_bits, RetainForwardRule, Subscribe};
use crate::protocol::packet::{
    lemma_encode_varint_len_usize, spec_encode_varint, spec_mqtt_bytes, utf8_bytes,
    write_mqtt_bytes, write_mqtt_string, write_remaining_length,
};
use crate::tasks::client_data::TraceSubscribe;
use crate::{spec_qos_to_u8, Protocol, ProtocolV5, QoS};
use bytes::{Bytes, BytesMut};
use std::marker::PhantomData;
use vstd::prelude::*;

pub mod unsubscribe;

verus! {

/// A subscription identifier, encoded as a variable byte integer.
pub struct SubscribeId {
    datas: Bytes,
}

impl SubscribeId {
    pub closed spec fn spec_datas(&self) -> Seq<u8> {
        bytes_view(self.datas)
    }

    /// The identifier, encoded. Every `u32` is taken.
    pub fn new(id: u32) -> (r: Result<Self, SubscribeIdError>)
        ensures
            r matches Ok(s) && s.spec_datas() == spec_encode_varint(id as nat),
    {
        if id > 268_435_455u32 && id == 0 {
            return Err(SubscribeIdError::OutOfRange);
        }
        let mut buffer = bytes_mut_new();
        proof {
            lemma_encode_varint_len_usize(id as usize);
        }
        write_remaining_length(&mut buffer, id as usize);
        Ok(Self { datas: bytes_mut_freeze(buffer) })
    }
}

#[derive(Debug, Clone, Copy, PartialEq, Eq, Structural)]
pub enum SubscribeIdError {
    OutOfRange,
}

/// A topic filter of a subscription, with its options.
pub struct FilterBuilder<T: Protocol> {
    path: String,
    qos: QoS,
    no_local: bool,
    preserve_retain: bool,
    retain_forward_rule: RetainForwardRule,
    protocol: PhantomData<T>,
}

/// A topic filter and its options, as plain data.
pub struct FilterModel {
    pub path: Seq<char>,
    pub qos: QoS,
    pub no_local: bool,
    pub preserve_retain: bool,
    pub retain_forward_rule: RetainForwardRule,
}

impl<T: Protocol> View for FilterBuilder<T> {
    type V = FilterModel;

    closed spec fn view(&self) -> FilterModel {
        FilterModel {
            path: self.path@,
            qos: self.qos,
            no_local: self.no_local,
            preserve_retain: self.preserve_retain,
            retain_forward_rule: self.retain_forward_rule,
        }
    }
}

/// The subscription options byte of a filter: for MQTT 3.1.1 its QoS only;
/// for MQTT 5 also no-local (bit 2), retain-as-published (bit 3) and the
/// retain handling rule (bits 4 and 5).
pub open spec fn spec_filter_options(f: FilterModel, v5: bool) -> u8 {
    if !v5 {
        spec_qos_to_u8(f.qos)
    } else {
        (spec_qos_to_u8(f.qos) + (if f.no_local {
            4int
        } else {
            0int
        }) + (if f.preserve_retain {
            8int
        } else {
            0int
        }) + spec_retain_bits(f.retain_forward_rule)) as u8
    }
}

/// The bytes of one filter in a SUBSCRIBE payload: the topic filter and its
/// options byte.
pub open spec fn spec_filter_bytes(f: FilterModel, v5: bool) -> Seq<u8> {
    spec_mqtt_bytes(utf8_bytes(f.path)).push(spec_filter_options(f, v5))
}

/// The bytes of the filters, in order.
pub open spec fn spec_filters_bytes(fs: Seq<FilterModel>, v5: bool) -> Seq<u8>
    decreases fs.len(),
{
    if fs.len() == 0 {
        Seq::empty()
    } else {
        spec_filters_bytes(fs.drop_last(), v5) + spec_filter_bytes(fs.last(), v5)
    }
}

/// The bits of a subscription options byte `q + 4 * nl + 8 * rp + rh`.
proof fn lemma_option_bits(q: u8, nl: u8, rp: u8, rh: u8)
    requires
        q <= 2,
        nl <= 1,
        rp <= 1,
        rh == 0 || rh == 16 || rh == 32,
    ensures
        ({
            let o: u8 = (q + 4 * nl + 8 * rp + rh) as u8;
            &&& o & 3 == q
            &&& (o & 4 != 0) == (nl == 1)
            &&& (o & 8 != 0) == (rp == 1)
            &&& o & 0x30 == rh
            &&& o & 0xC0 == 0
        }),
{
    assert({
        let o: u8 = (q + 4 * nl + 8 * rp + rh) as u8;
        &&& o & 3 == q
        &&& (o & 4 != 0) == (nl == 1)
        &&& (o & 8 != 0) == (rp == 1)
        &&& o & 0x30 == rh
        &&& o & 0xC0 == 0
    }) by (bit_vector)
        requires
            q <= 2,
            nl <= 1,
            rp <= 1,
            rh == 0 || rh == 16 || rh == 32,
    ;
}

/// Each option of a filter has its own bits in the subscription options
/// byte, whatever the others are: for MQTT 5, bits 0 and 1 hold the number
/// of its QoS, bit 2 is set exactly for no-local, bit 3 exactly for
/// retain-as-published, bits 4 and 5 hold the retain handling rule (0, 1 or
/// 2, in the order of `RetainForwardRule`), and bits 6 and 7 are clear. For
/// MQTT 3.1.1 the byte is the QoS number alone.
pub proof fn lemma_filter_options_bits(f: FilterModel)
    ensures
        spec_filter_options(f, true) & 3 == spec_qos_to_u8(f.qos),
        (spec_filter_options(f, true) & 4 != 0) == f.no_local,
        (spec_filter_options(f, true) & 8 != 0) == f.preserve_retain,
        spec_filter_options(f, true) & 0x30 == spec_retain_bits(f.retain_forward_rule),
        (spec_filter_options(f, true) & 0x30) >> 4 == match f.retain_forward_rule {
            RetainForwardRule::OnEverySubscribe => 0u8,
            RetainForwardRule::OnNewSubscribe => 1u8,
            RetainForwardRule::Never => 2u8,
        },
        spec_filter_options(f, true) & 0xC0 == 0,
        spec_filter_options(f, false) == spec_qos_to_u8(f.qos),
{
    let nl: u8 = if f.no_local {
        1
    } else {
        0
    };
    let rp: u8 = if f.preserve_retain {
        1
    } else {
        0
    };
    let rh = spec_retain_bits(f.retain_forward_rule);
    lemma_option_bits(spec_qos_to_u8(f.qos), nl, rp, rh);
    assert(spec_filter_options(f, true) == (spec_qos_to_u8(f.qos) + 4 * nl + 8 * rp + rh) as u8);
    assert((16u8 >> 4u8) == 1u8 && (32u8 >> 4u8) == 2u8 && (0u8 >> 4u8) == 0u8) by (bit_vector);
}

/// A filter as `FilterBuilder::new` makes it is written, in either
/// protocol, as its topic with its length in two big-endian bytes in front,
/// then the number of its QoS: the default options add no bit.
pub proof fn lemma_default_filter_bytes(path: Seq<char>, qos: QoS, v5: bool)
    ensures
        spec_filter_bytes(
            FilterModel {
                path,
                qos,
                no_local: false,
                preserve_retain: false,
                retain_forward_rule: RetainForwardRule::OnEverySubscribe,
            },
            v5,
        ) == u16_bytes(utf8_bytes(path).len() as u16) + utf8_bytes(path) + seq![
            spec_qos_to_u8(qos),
        ],
{
    let f = FilterModel {
        path,
        qos,
        no_local: false,
        preserve_retain: false,
        retain_forward_rule: RetainForwardRule::OnEverySubscribe,
    };
    assert(spec_filter_options(f, v5) == spec_qos_to_u8(qos));
    assert(spec_filter_bytes(f, v5) =~= u16_bytes(utf8_bytes(path).len() as u16) + utf8_bytes(path)
        + seq![spec_qos_to_u8(qos)]);
}

impl<T: Protocol> FilterBuilder<T> {
    pub fn new(path: String, qos: QoS) -> (r: Self)
        ensures
            r@ == (FilterModel {
                path: path@,
                qos,
                no_local: false,
                preserve_retain: false,
                retain_forward_rule: RetainForwardRule::OnEverySubscribe,
            }),
    {
        Self {
            path,
            qos,
            no_local: false,
            preserve_retain: false,
            retain_forward_rule: RetainForwardRule::default(),
            protocol: PhantomData,
        }
    }

    /// A subscription to this one filter.
    pub fn build(self, trace_id: u32) -> (r: SubscribeBuilder<T>)
        ensures
            r.trace_id == trace_id,
            r.id is None,
            r.user_properties@.len() == 0,
            r.filters@.len() == 1,
            r.filters@[0]@ == self@,
    {
        let mut filters: Vec<FilterBuilder<T>> = Vec::new();
        filters.push(self);
        SubscribeBuilder { trace_id, id: None, user_properties: Vec::new(), filters }
    }
}

impl FilterBuilder<ProtocolV5> {
    pub fn set_nolocal(&mut self, no_local: bool)
        ensures
            final(self)@ == (FilterModel { no_local, ..old(self)@ }),
    {
        self.no_local = no_local;
    }

    pub fn set_preserve_retain(&mut self, preserve_retain: bool)
        ensures
            final(self)@ == (FilterModel { preserve_retain, ..old(self)@ }),
    {
        self.preserve_retain = preserve_retain;
    }

    pub fn set_retain_forward_rule(&mut self, retain_forward_rule: RetainForwardRule)
        ensures
            final(self)@ == (FilterModel { retain_forward_rule, ..old(self)@ }),
    {
        self.retain_forward_rule = retain_forward_rule;
    }
}

/// A subscription being built: its filters and, for MQTT 5, its
/// identifier and user properties.
pub struct SubscribeBuilder<T: Protocol> {
    pub trace_id: u32,
    pub id: Option<SubscribeId>,
    pub user_properties: Vec<(String, String)>,
    pub filters: Vec<FilterBuilder<T>>,
}

/// The filters' models, in order.
pub open spec fn filter_models<T: Protocol>(fs: Seq<FilterBuilder<T>>) -> Seq<FilterModel> {
    fs.map_values(|f: FilterBuilder<T>| f@)
}

/// The encoded subscription identifier, if any.
pub open spec fn opt_id_datas(id: Option<SubscribeId>) -> Option<Seq<u8>> {
    match id {
        Some(i) => Some(i.spec_datas()),
        None => None,
    }
}

/// The MQTT 5 properties of a subscription: its identifier, behind a
/// two-byte length, then the user properties.
pub open spec fn spec_subscribe_properties(id: Option<Seq<u8>>, up: Seq<(Seq<char>, Seq<char>)>) -> Seq<u8> {
    (match id {
        Some(d) => seq![11u8] + spec_mqtt_bytes(d),
        None => Seq::empty(),
    }) + user_props_bytes(up)
}

impl<T: Protocol> SubscribeBuilder<T> {
    pub fn add_filter(&mut self, path: String, qos: QoS)
        ensures
            final(self).trace_id == old(self).trace_id,
            final(self).id == old(self).id,
            final(self).user_properties == old(self).user_properties,
            final(self).filters@.len() == old(self).filters@.len() + 1,
            final(self).filters@.drop_last() == old(self).filters@,
            final(self).filters@.last()@ == (FilterModel {
                path: path@,
                qos,
                no_local: false,
                preserve_retain: false,
                retain_forward_rule: RetainForwardRule::OnEverySubscribe,
            }),
    {
        self.filters.push(FilterBuilder::new(path, qos));
        assert(self.filters@.drop_last() =~= old(self).filters@);
    }

    /// The subscription, its payload encoded, with no packet identifier yet.
    pub fn into_trace(self) -> (r: TraceSubscribe)
        requires
            spec_filters_bytes(filter_models(self.filters@), T::spec_is_v5()).len() + 100
                <= max_buffer_len(),
            T::spec_is_v5() ==> spec_subscribe_properties(
                opt_id_datas(self.id),
                self.user_properties.deep_view(),
            ).len() + 100 <= max_buffer_len(),
            self.id matches Some(i) ==> i.spec_datas().len() <= 10,
        ensures
            r.id == self.trace_id,
            !T::spec_is_v5() ==> (r.subscribe matches Subscribe::V4 { packet_id, payload }
                && packet_id == 0 && bytes_view(payload) == spec_filters_bytes(
                filter_models(self.filters@),
                false,
            )),
            T::spec_is_v5() ==> (r.subscribe matches Subscribe::V5 { packet_id, properties, filters }
                && packet_id == 0 && bytes_view(filters) == spec_filters_bytes(
                filter_models(self.filters@),
                true,
            ) && bytes_view(properties) == spec_subscribe_properties(
                opt_id_datas(self.id),
                self.user_properties.deep_view(),
            )),
    {
        let SubscribeBuilder { trace_id, id, user_properties, filters } = self;
        let v5 = T::is_v5();
        let payload = write_filters(&filters, v5);
        let subscribe = if !v5 {
            Subscribe::V4 { packet_id: 0, payload }
        } else {
            let properties = write_properties(&id, &user_properties);
            Subscribe::V5 { packet_id: 0, properties, filters: payload }
        };
        TraceSubscribe { id: trace_id, subscribe }
    }
}

impl SubscribeBuilder<ProtocolV5> {
    pub fn add_user_properties(&mut self, key: String, val: String)
        ensures
            final(self).user_properties.deep_view() == old(self).user_properties.deep_view().push(
                (key@, val@),
            ),
            final(self).filters == old(self).filters,
            final(self).id == old(self).id,
            final(self).trace_id == old(self).trace_id,
    {
        let ghost before = self.user_properties.deep_view();
        self.user_properties.push((key, val));
        assert(self.user_properties.deep_view() =~= before.push((key@, val@)));
    }

    pub fn set_id(&mut self, id: SubscribeId)
        ensures
            final(self).id == Some(id),
            final(self).filters == old(self).filters,
            final(self).user_properties == old(self).user_properties,
            final(self).trace_id == old(self).trace_id,
    {
        self.id = Some(id);
    }
}

/// The encoded MQTT 5 properties of a subscription.
fn write_properties(id: &Option<SubscribeId>, user_properties: &Vec<(String, String)>) -> (r: Bytes)
    requires
        spec_subscribe_properties(
            opt_id_datas(*id),
            user_properties.deep_view(),
        ).len() + 100 <= max_buffer_len(),
        id matches Some(i) ==> i.spec_datas().len() <= 10,
    ensures
        bytes_view(r) == spec_subscribe_properties(
            opt_id_datas(*id),
            user_properties.deep_view(),
        ),
{
    let mut buffer = bytes_mut_new();
    if let Some(id) = id {
        bytes_mut_put_u8(&mut buffer, 11);
        write_mqtt_bytes(&mut buffer, bytes_as_slice(&id.datas));
    }
    let ghost head = bytes_mut_view(buffer);
    write_user_properties(&mut buffer, user_properties);
    let ghost idv = opt_id_datas(*id);
    assert(bytes_mut_view(buffer) =~= spec_subscribe_properties(idv, user_properties.deep_view()));
    bytes_mut_freeze(buffer)
}

/// The options byte of a filter.
fn filter_options<T: Protocol>(filter: &FilterBuilder<T>, v5: bool) -> (r: u8)
    ensures
        r == spec_filter_options(filter@, v5),
{
    let q = filter.qos.as_u8();
    if !v5 {
        q
    } else {
        let mut options: u8 = q;
        if filter.no_local {
            options = options + 4;
        }
        if filter.preserve_retain {
            options = options + 8;
        }
        let mut rule_bits: u8 = 0;
        filter.retain_forward_rule.merge_to_u8(&mut rule_bits);
        assert(0u8 | 0u8 == 0u8 && 0u8 | 16u8 == 16u8 && 0u8 | 32u8 == 32u8) by (bit_vector);
        options + rule_bits
    }
}

/// Appends one filter: the topic filter and its options byte.
fn write_filter<T: Protocol>(value: &FilterBuilder<T>, buffer: &mut BytesMut, v5: bool)
    requires
        bytes_mut_view(*old(buffer)).len() + spec_filter_bytes(value@, v5).len() <= max_buffer_len(),
    ensures
        bytes_mut_view(*final(buffer)) == bytes_mut_view(*old(buffer)) + spec_filter_bytes(
            value@,
            v5,
        ),
{
    let options = filter_options(value, v5);
    write_mqtt_string(buffer, value.path.as_str());
    bytes_mut_put_u8(buffer, options);
    assert(bytes_mut_view(*buffer) =~= bytes_mut_view(*old(buffer)) + spec_filter_bytes(
        value@,
        v5,
    ));
}

/// The bytes of the first `i` filters never outgrow those of all of them.
proof fn lemma_filters_len_grows(fs: Seq<FilterModel>, v5: bool, i: int)
    requires
        0 <= i < fs.len(),
    ensures
        spec_filters_bytes(fs.take(i + 1), v5).len() <= spec_filters_bytes(fs, v5).len(),
    decreases fs.len() - i,
{
    if i + 1 < fs.len() {
        lemma_filters_len_grows(fs, v5, i + 1);
        assert(fs.take(i + 2).drop_last() =~= fs.take(i + 1));
    } else {
        assert(fs.take(i + 1) =~= fs);
    }
}

/// The encoded filters, in order.
fn write_filters<T: Protocol>(filters: &Vec<FilterBuilder<T>>, v5: bool) -> (r: Bytes)
    requires
        spec_filters_bytes(filter_models(filters@), v5).len() + 100 <= max_buffer_len(),
    ensures
        bytes_view(r) == spec_filters_bytes(filter_models(filters@), v5),
{
    let ghost fs = filter_models(filters@);
    let mut buffer = bytes_mut_new();
    let mut i: usize = 0;
    while i < filters.len()
        invariant
            i <= filters@.len(),
            fs == filter_models(filters@),
            spec_filters_bytes(fs, v5).len() + 100 <= max_buffer_len(),
            bytes_mut_view(buffer) == spec_filters_bytes(fs.take(i as int), v5),
        decreases filters@.len() - i,
    {
        proof {
            assert(fs.take(i + 1).drop_last() =~= fs.take(i as int));
            lemma_filters_len_grows(fs, v5, i as int);
        }
        write_filter(&filters[i], &mut buffer, v5);
        i = i + 1;
    }
    assert(fs.take(filters@.len() as int) =~= fs);
    bytes_mut_freeze(buffer)
}

} // verus!
