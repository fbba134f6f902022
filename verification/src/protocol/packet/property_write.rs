//! Encoding of MQTT 5 properties: each an identifier byte and its value.
use crate::buffer::{
    bytes_as_slice, bytes_len, bytes_mut_put_u16, bytes_mut_put_u32, bytes_mut_put_u8,
    bytes_mut_view, bytes_view, max_buffer_len, u16_bytes, u32_bytes,
};
use crate::protocol::packet::property::opt_bytes_view;
use crate::protocol::packet::{spec_mqtt_bytes, utf8_bytes, write_mqtt_bytes, write_mqtt_string};
use bytes::{Bytes, BytesMut};
use vstd::prelude::*;

verus! {

/// A one-byte property, when present.
pub open spec fn opt_u8_field(id: u8, v: Option<u8>) -> Seq<u8> {
    match v {
        Some(x) => seq![id, x],
        None => Seq::empty(),
    }
}

/// A two-byte property, when present.
pub open spec fn opt_u16_field(id: u8, v: Option<u16>) -> Seq<u8> {
    match v {
        Some(x) => seq![id] + u16_bytes(x),
        None => Seq::empty(),
    }
}

/// A four-byte property, when present.
pub open spec fn opt_u32_field(id: u8, v: Option<u32>) -> Seq<u8> {
    match v {
        Some(x) => seq![id] + u32_bytes(x),
        None => Seq::empty(),
    }
}

/// A text property, when present.
pub open spec fn opt_str_field(id: u8, v: Option<Seq<char>>) -> Seq<u8> {
    match v {
        Some(t) => seq![id] + spec_mqtt_bytes(utf8_bytes(t)),
        None => Seq::empty(),
    }
}

/// A binary property, when present.
pub open spec fn opt_bin_field(id: u8, v: Option<Seq<u8>>) -> Seq<u8> {
    match v {
        Some(b) => seq![id] + spec_mqtt_bytes(b),
        None => Seq::empty(),
    }
}

/// The user properties, one after the other, in order.
pub open spec fn user_props_bytes(ps: Seq<(Seq<char>, Seq<char>)>) -> Seq<u8>
    decreases ps.len(),
{
    if ps.len() == 0 {
        Seq::empty()
    } else {
        user_props_bytes(ps.drop_last()) + seq![38u8] + spec_mqtt_bytes(utf8_bytes(ps.last().0))
            + spec_mqtt_bytes(utf8_bytes(ps.last().1))
    }
}

pub fn write_opt_u8(buffer: &mut BytesMut, id: u8, v: &Option<u8>)
    requires
        bytes_mut_view(*old(buffer)).len() + 2 <= max_buffer_len(),
    ensures
        bytes_mut_view(*final(buffer)) == bytes_mut_view(*old(buffer)) + opt_u8_field(id, *v),
{
    if let Some(x) = v {
        bytes_mut_put_u8(buffer, id);
        bytes_mut_put_u8(buffer, *x);
    }
    assert(bytes_mut_view(*buffer) =~= bytes_mut_view(*old(buffer)) + opt_u8_field(id, *v));
}

pub fn write_opt_u16(buffer: &mut BytesMut, id: u8, v: &Option<u16>)
    requires
        bytes_mut_view(*old(buffer)).len() + 3 <= max_buffer_len(),
    ensures
        bytes_mut_view(*final(buffer)) == bytes_mut_view(*old(buffer)) + opt_u16_field(id, *v),
{
    if let Some(x) = v {
        bytes_mut_put_u8(buffer, id);
        bytes_mut_put_u16(buffer, *x);
    }
    assert(bytes_mut_view(*buffer) =~= bytes_mut_view(*old(buffer)) + opt_u16_field(id, *v));
}

pub fn write_opt_u32(buffer: &mut BytesMut, id: u8, v: &Option<u32>)
    requires
        bytes_mut_view(*old(buffer)).len() + 5 <= max_buffer_len(),
    ensures
        bytes_mut_view(*final(buffer)) == bytes_mut_view(*old(buffer)) + opt_u32_field(id, *v),
{
    if let Some(x) = v {
        bytes_mut_put_u8(buffer, id);
        bytes_mut_put_u32(buffer, *x);
    }
    assert(bytes_mut_view(*buffer) =~= bytes_mut_view(*old(buffer)) + opt_u32_field(id, *v));
}

pub fn write_opt_str(buffer: &mut BytesMut, id: u8, v: &Option<String>)
    requires
        bytes_mut_view(*old(buffer)).len() + opt_str_field(id, v.deep_view()).len()
            <= max_buffer_len(),
    ensures
        bytes_mut_view(*final(buffer)) == bytes_mut_view(*old(buffer)) + opt_str_field(
            id,
            v.deep_view(),
        ),
{
    if let Some(x) = v {
        bytes_mut_put_u8(buffer, id);
        write_mqtt_string(buffer, x.as_str());
    }
    assert(bytes_mut_view(*buffer) =~= bytes_mut_view(*old(buffer)) + opt_str_field(
        id,
        v.deep_view(),
    ));
}

pub fn write_opt_bin(buffer: &mut BytesMut, id: u8, v: &Option<Bytes>)
    requires
        bytes_mut_view(*old(buffer)).len() + opt_bin_field(id, opt_bytes_view(*v)).len()
            <= max_buffer_len(),
    ensures
        bytes_mut_view(*final(buffer)) == bytes_mut_view(*old(buffer)) + opt_bin_field(
            id,
            opt_bytes_view(*v),
        ),
{
    if let Some(x) = v {
        bytes_mut_put_u8(buffer, id);
        write_mqtt_bytes(buffer, bytes_as_slice(x));
    }
    assert(bytes_mut_view(*buffer) =~= bytes_mut_view(*old(buffer)) + opt_bin_field(
        id,
        opt_bytes_view(*v),
    ));
}

/// How many bytes the user properties take: the sum over the pairs, or
/// `None` where that does not fit a `usize` added to `base`.
pub fn user_properties_len(ps: &Vec<(String, String)>, base: usize) -> (r: Option<usize>)
    ensures
        match r {
            Some(n) => n == base + user_props_bytes(ps.deep_view()).len(),
            None => base + user_props_bytes(ps.deep_view()).len() > usize::MAX,
        },
{
    let mut len: usize = base;
    let mut i: usize = 0;
    while i < ps.len()
        invariant
            i <= ps.len(),
            len == base + user_props_bytes(ps.deep_view().take(i as int)).len(),
        decreases ps.len() - i,
    {
        let ghost before = ps.deep_view().take(i as int);
        let (key, value) = &ps[i];
        let k = key.as_str().as_bytes().len();
        let v = value.as_str().as_bytes().len();
        proof {
            let t = ps.deep_view().take(i as int + 1);
            assert(t.drop_last() =~= before);
            assert(t.last() == (key@, value@));
            lemma_user_props_len_grows(ps.deep_view(), i as int);
        }
        if k > usize::MAX - len || v > usize::MAX - len - k || 5 > usize::MAX - len - k - v {
            return None;
        }
        len = len + 1 + 2 + k + 2 + v;
        assert(utf8_bytes(key@).len() == k);
        assert(utf8_bytes(value@).len() == v);
        assert(spec_mqtt_bytes(utf8_bytes(key@)).len() == 2 + k);
        assert(user_props_bytes(ps.deep_view().take(i as int + 1)).len() == user_props_bytes(
            before,
        ).len() + 1 + (2 + k) + (2 + v));
        i = i + 1;
    }
    assert(ps.deep_view().take(ps.len() as int) =~= ps.deep_view());
    Some(len)
}

/// The bytes of the first `i` pairs never outgrow those of all of them.
proof fn lemma_user_props_len_grows(ps: Seq<(Seq<char>, Seq<char>)>, i: int)
    requires
        0 <= i < ps.len(),
    ensures
        user_props_bytes(ps.take(i + 1)).len() <= user_props_bytes(ps).len(),
    decreases ps.len() - i,
{
    if i + 1 < ps.len() {
        lemma_user_props_len_grows(ps, i + 1);
        assert(ps.take(i + 2).drop_last() =~= ps.take(i + 1));
    } else {
        assert(ps.take(i + 1) =~= ps);
    }
}

/// Appends the user properties, in order.
pub fn write_user_properties(buffer: &mut BytesMut, ps: &Vec<(String, String)>)
    requires
        bytes_mut_view(*old(buffer)).len() + user_props_bytes(ps.deep_view()).len()
            <= max_buffer_len(),
    ensures
        bytes_mut_view(*final(buffer)) == bytes_mut_view(*old(buffer)) + user_props_bytes(
            ps.deep_view(),
        ),
{
    let ghost start = bytes_mut_view(*buffer);
    let mut i: usize = 0;
    while i < ps.len()
        invariant
            i <= ps.len(),
            start == bytes_mut_view(*old(buffer)),
            start.len() + user_props_bytes(ps.deep_view()).len() <= max_buffer_len(),
            bytes_mut_view(*buffer) == start + user_props_bytes(ps.deep_view().take(i as int)),
        decreases ps.len() - i,
    {
        let ghost before = ps.deep_view().take(i as int);
        let (key, value) = &ps[i];
        proof {
            let t = ps.deep_view().take(i as int + 1);
            assert(t.drop_last() =~= before);
            assert(t.last() == (key@, value@));
            lemma_user_props_len_grows(ps.deep_view(), i as int);
        }
        bytes_mut_put_u8(buffer, 38);
        write_mqtt_string(buffer, key.as_str());
        write_mqtt_string(buffer, value.as_str());
        assert(bytes_mut_view(*buffer) =~= start + user_props_bytes(
            ps.deep_view().take(i as int + 1),
        ));
        i = i + 1;
    }
    assert(ps.deep_view().take(ps.len() as int) =~= ps.deep_view());
}

/// A copy of the user properties, in order.
pub fn clone_user_properties(ps: &Vec<(String, String)>) -> (r: Vec<(String, String)>)
    ensures
        r.deep_view() == ps.deep_view(),
{
    let mut r: Vec<(String, String)> = Vec::new();
    let mut i: usize = 0;
    while i < ps.len()
        invariant
            i <= ps.len(),
            r.deep_view() == ps.deep_view().take(i as int),
        decreases ps.len() - i,
    {
        let (k, v) = &ps[i];
        let ghost before = r.deep_view();
        r.push((k.clone(), v.clone()));
        assert(r.deep_view() =~= before.push((k@, v@)));
        assert(ps.deep_view().take(i as int + 1) =~= ps.deep_view().take(i as int).push((k@, v@)));
        i = i + 1;
    }
    assert(ps.deep_view().take(ps.len() as int) =~= ps.deep_view());
    r
}

/// A copy of an optional text.
pub fn clone_opt_string(v: &Option<String>) -> (r: Option<String>)
    ensures
        r.deep_view() == v.deep_view(),
{
    match v {
        Some(s) => Some(s.clone()),
        None => None,
    }
}

/// Another handle on optional bytes.
pub fn clone_opt_bytes(v: &Option<Bytes>) -> (r: Option<Bytes>)
    ensures
        opt_bytes_view(r) == opt_bytes_view(*v),
{
    match v {
        Some(b) => Some(crate::buffer::bytes_clone(b)),
        None => None,
    }
}

} // verus!
