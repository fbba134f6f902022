//! What the property readers give back of what the property writers wrote.
use crate::buffer::{lemma_u16_bytes_roundtrip, lemma_u32_bytes_roundtrip, u16_bytes, u32_bytes};
use crate::protocol::packet::property::{
    last_prop, spec_property_allowed, spec_property_kind, spec_read_props_loop,
    spec_read_props_section, spec_read_value, user_props, well_kinded, PropertyContext,
    PropertyKind, PropertyModel,
};
use crate::protocol::packet::property_write::user_props_bytes;
use crate::protocol::packet::{
    lemma_encode_varint_len, lemma_mqtt_bytes_roundtrip, lemma_mqtt_string_roundtrip,
    lemma_varint_roundtrip, spec_encode_varint, spec_mqtt_bytes, utf8_bytes,
};
use crate::protocol::PacketParseError;
use vstd::prelude::*;

verus! {

/// The bytes of a property's value.
pub open spec fn value_bytes(v: PropertyModel) -> Seq<u8> {
    match v {
        PropertyModel::Byte(x) => seq![x],
        PropertyModel::Short(x) => u16_bytes(x),
        PropertyModel::Int(x) => u32_bytes(x),
        PropertyModel::Str(t) => spec_mqtt_bytes(utf8_bytes(t)),
        PropertyModel::Bin(b) => spec_mqtt_bytes(b),
        PropertyModel::Pair(k, v) => spec_mqtt_bytes(utf8_bytes(k)) + spec_mqtt_bytes(utf8_bytes(v)),
    }
}

/// The bytes of a property: its identifier and its value.
pub open spec fn prop_bytes(p: (u8, PropertyModel)) -> Seq<u8> {
    seq![p.0] + value_bytes(p.1)
}

/// The bytes of properties, in order.
pub open spec fn props_bytes(ps: Seq<(u8, PropertyModel)>) -> Seq<u8>
    decreases ps.len(),
{
    if ps.len() == 0 {
        Seq::empty()
    } else {
        prop_bytes(ps[0]) + props_bytes(ps.skip(1))
    }
}

/// Whether a value's texts and bytes fit their two-byte lengths.
pub open spec fn value_fits(v: PropertyModel) -> bool {
    match v {
        PropertyModel::Str(t) => utf8_bytes(t).len() <= 65535,
        PropertyModel::Bin(b) => b.len() <= 65535,
        PropertyModel::Pair(k, v) => utf8_bytes(k).len() <= 65535 && utf8_bytes(v).len() <= 65535,
        _ => true,
    }
}

/// Whether a property can stand in a list of the given packet and be read
/// back.
pub open spec fn prop_ok(ctx: PropertyContext, p: (u8, PropertyModel)) -> bool {
    spec_property_allowed(ctx, p.0) && well_kinded(p) && value_fits(p.1)
}

/// A value that fits reads back, whatever follows it.
proof fn lemma_value_roundtrip(p: (u8, PropertyModel), rest: Seq<u8>)
    requires
        well_kinded(p),
        value_fits(p.1),
    ensures
        spec_read_value(spec_property_kind(p.0), value_bytes(p.1) + rest) == Ok::<
            (PropertyModel, nat),
            PacketParseError,
        >((p.1, value_bytes(p.1).len())),
{
    let s = value_bytes(p.1) + rest;
    match p.1 {
        PropertyModel::Byte(x) => {
            assert(s[0] == x);
        },
        PropertyModel::Short(x) => {
            lemma_u16_bytes_roundtrip(x);
            assert(s[0] == u16_bytes(x)[0] && s[1] == u16_bytes(x)[1]);
        },
        PropertyModel::Int(x) => {
            lemma_u32_bytes_roundtrip(x);
            assert(s[0] == u32_bytes(x)[0] && s[1] == u32_bytes(x)[1] && s[2] == u32_bytes(x)[2]
                && s[3] == u32_bytes(x)[3]);
        },
        PropertyModel::Str(t) => {
            lemma_mqtt_string_roundtrip(t, rest);
        },
        PropertyModel::Bin(b) => {
            lemma_mqtt_bytes_roundtrip(b, rest);
        },
        PropertyModel::Pair(k, v) => {
            let tail = spec_mqtt_bytes(utf8_bytes(v)) + rest;
            assert(s =~= spec_mqtt_bytes(utf8_bytes(k)) + tail);
            lemma_mqtt_string_roundtrip(k, tail);
            lemma_mqtt_string_roundtrip(v, rest);
        },
    }
}

/// Properties that can stand in a list read back in order, whatever
/// follows them, when the reader is told their length.
#[verifier::spinoff_prover]
#[verifier::rlimit(40)]
proof fn lemma_props_loop_roundtrip(
    ctx: PropertyContext,
    ps: Seq<(u8, PropertyModel)>,
    acc: Seq<(u8, PropertyModel)>,
    rest: Seq<u8>,
)
    requires
        forall|i: int| 0 <= i < ps.len() ==> prop_ok(ctx, #[trigger] ps[i]),
    ensures
        spec_read_props_loop(ctx, props_bytes(ps) + rest, props_bytes(ps).len(), acc) == Ok::<
            (Seq<(u8, PropertyModel)>, Seq<u8>),
            PacketParseError,
        >((acc + ps, rest)),
    decreases ps.len(),
{
    if ps.len() == 0 {
        assert(acc + ps =~= acc);
        assert(props_bytes(ps) + rest =~= rest);
    } else {
        let p = ps[0];
        assert(prop_ok(ctx, p));
        let tail = props_bytes(ps.skip(1)) + rest;
        let s = props_bytes(ps) + rest;
        assert(s =~= seq![p.0] + (value_bytes(p.1) + tail));
        assert(s.skip(1) =~= value_bytes(p.1) + tail);
        lemma_value_roundtrip(p, tail);
        let k = value_bytes(p.1).len();
        assert((value_bytes(p.1) + tail).skip(k as int) =~= tail);
        assert forall|i: int| 0 <= i < ps.skip(1).len() implies prop_ok(ctx, #[trigger] ps.skip(1)[i]) by {
            assert(ps.skip(1)[i] == ps[i + 1]);
        }
        lemma_props_loop_roundtrip(ctx, ps.skip(1), acc.push(p), rest);
        assert(acc.push(p) + ps.skip(1) =~= acc + ps);
    }
}

/// A property list that the library writes, its length in front, reads
/// back: as no list when it is empty, whatever follows it.
pub proof fn lemma_props_section_roundtrip(
    ctx: PropertyContext,
    ps: Seq<(u8, PropertyModel)>,
    rest: Seq<u8>,
)
    requires
        forall|i: int| 0 <= i < ps.len() ==> prop_ok(ctx, #[trigger] ps[i]),
        props_bytes(ps).len() < 268_435_456,
    ensures
        spec_read_props_section(
            ctx,
            spec_encode_varint(props_bytes(ps).len()) + props_bytes(ps) + rest,
        ) == Ok::<(Option<Seq<(u8, PropertyModel)>>, Seq<u8>), PacketParseError>(
            (
                if ps.len() == 0 {
                    None
                } else {
                    Some(ps)
                },
                rest,
            ),
        ),
{
    let body = props_bytes(ps);
    let s = spec_encode_varint(body.len()) + body + rest;
    assert(s =~= spec_encode_varint(body.len()) + (body + rest));
    lemma_varint_roundtrip(body.len(), body + rest);
    lemma_encode_varint_len(body.len());
    let n = spec_encode_varint(body.len()).len() as int;
    assert(s.skip(n) =~= body + rest);
    if ps.len() == 0 {
        assert(body =~= Seq::<u8>::empty());
        assert(body + rest =~= rest);
    } else {
        assert(body.len() > 0) by {
            assert(body =~= prop_bytes(ps[0]) + props_bytes(ps.skip(1)));
        }
        lemma_props_loop_roundtrip(ctx, ps, Seq::empty(), rest);
        assert(Seq::<(u8, PropertyModel)>::empty() + ps =~= ps);
    }
}

/// The bytes of two lists, one after the other.
pub proof fn lemma_props_bytes_concat(a: Seq<(u8, PropertyModel)>, b: Seq<(u8, PropertyModel)>)
    ensures
        props_bytes(a + b) == props_bytes(a) + props_bytes(b),
    decreases a.len(),
{
    if a.len() == 0 {
        assert(a + b =~= b);
        assert(props_bytes(a) + props_bytes(b) =~= props_bytes(b));
    } else {
        assert((a + b).skip(1) =~= a.skip(1) + b);
        assert((a + b)[0] == a[0]);
        lemma_props_bytes_concat(a.skip(1), b);
        assert(props_bytes(a + b) =~= props_bytes(a) + props_bytes(b));
    }
}

/// User properties as a list of properties.
pub open spec fn user_prop_list(up: Seq<(Seq<char>, Seq<char>)>) -> Seq<(u8, PropertyModel)> {
    up.map_values(|kv: (Seq<char>, Seq<char>)| (38u8, PropertyModel::Pair(kv.0, kv.1)))
}

/// The user properties, written one after the other, are the list's bytes.
pub proof fn lemma_user_props_bytes(up: Seq<(Seq<char>, Seq<char>)>)
    ensures
        props_bytes(user_prop_list(up)) == user_props_bytes(up),
        user_props(user_prop_list(up)) == up,
    decreases up.len(),
{
    if up.len() == 0 {
        assert(user_prop_list(up) =~= Seq::<(u8, PropertyModel)>::empty());
        assert(up =~= Seq::<(Seq<char>, Seq<char>)>::empty());
    } else {
        let front = up.drop_last();
        let last = up.last();
        lemma_user_props_bytes(front);
        assert(user_prop_list(up) =~= user_prop_list(front) + seq![
            (38u8, PropertyModel::Pair(last.0, last.1)),
        ]);
        lemma_props_bytes_concat(user_prop_list(front), seq![(38u8, PropertyModel::Pair(last.0, last.1))]);
        let one = seq![(38u8, PropertyModel::Pair(last.0, last.1))];
        assert(one.skip(1) =~= Seq::<(u8, PropertyModel)>::empty());
        assert(props_bytes(one.skip(1)) =~= Seq::<u8>::empty());
        assert(one[0] == (38u8, PropertyModel::Pair(last.0, last.1)));
        assert(props_bytes(one) =~= seq![38u8] + spec_mqtt_bytes(utf8_bytes(last.0)) + spec_mqtt_bytes(
            utf8_bytes(last.1),
        ));
        assert(user_prop_list(up).drop_last() =~= user_prop_list(front));
        assert(up =~= front.push(last));
    }
}

/// The last occurrence of a property in two lists, one after the other.
pub proof fn lemma_last_prop_concat(a: Seq<(u8, PropertyModel)>, b: Seq<(u8, PropertyModel)>, id: u8)
    ensures
        last_prop(a + b, id) == match last_prop(b, id) {
            Some(v) => Some(v),
            None => last_prop(a, id),
        },
    decreases b.len(),
{
    if b.len() == 0 {
        assert(a + b =~= a);
    } else {
        assert((a + b).drop_last() =~= a + b.drop_last());
        assert((a + b).last() == b.last());
        lemma_last_prop_concat(a, b.drop_last(), id);
    }
}

/// The user properties in two lists, one after the other.
pub proof fn lemma_user_props_concat(a: Seq<(u8, PropertyModel)>, b: Seq<(u8, PropertyModel)>)
    ensures
        user_props(a + b) == user_props(a) + user_props(b),
    decreases b.len(),
{
    if b.len() == 0 {
        assert(a + b =~= a);
        assert(user_props(a) + user_props(b) =~= user_props(a));
    } else {
        assert((a + b).drop_last() =~= a + b.drop_last());
        assert((a + b).last() == b.last());
        lemma_user_props_concat(a, b.drop_last());
        assert(user_props(a + b) =~= user_props(a) + user_props(b));
    }
}

/// No user property has an identifier other than 38.
pub proof fn lemma_user_list_last_prop(up: Seq<(Seq<char>, Seq<char>)>, id: u8)
    requires
        id != 38,
    ensures
        last_prop(user_prop_list(up), id) is None,
    decreases up.len(),
{
    if up.len() > 0 {
        assert(user_prop_list(up).drop_last() =~= user_prop_list(up.drop_last()));
        lemma_user_list_last_prop(up.drop_last(), id);
    }
}

/// A property, when present, as a list of at most one.
pub open spec fn opt_prop(id: u8, v: Option<PropertyModel>) -> Seq<(u8, PropertyModel)> {
    match v {
        Some(x) => seq![(id, x)],
        None => Seq::empty(),
    }
}

/// What a list of at most one property says.
pub proof fn lemma_opt_prop(id: u8, v: Option<PropertyModel>)
    ensures
        forall|x: u8| #[trigger] last_prop(opt_prop(id, v), x) == if x == id {
            v
        } else {
            None
        },
        id != 38 ==> user_props(opt_prop(id, v)) == Seq::<(Seq<char>, Seq<char>)>::empty(),
        props_bytes(opt_prop(id, v)) == match v {
            Some(x) => seq![id] + value_bytes(x),
            None => Seq::<u8>::empty(),
        },
{
    match v {
        Some(x) => {
            let l = opt_prop(id, v);
            assert(l.drop_last() =~= Seq::<(u8, PropertyModel)>::empty());
            assert(l.skip(1) =~= Seq::<(u8, PropertyModel)>::empty());
            assert(props_bytes(l.skip(1)) =~= Seq::<u8>::empty());
            assert(props_bytes(l) =~= seq![id] + value_bytes(x));
            assert forall|y: u8| #[trigger] last_prop(l, y) == if y == id {
                v
            } else {
                None
            } by {
                assert(last_prop(l.drop_last(), y) is None);
            }
            assert(user_props(l.drop_last()) =~= Seq::<(Seq<char>, Seq<char>)>::empty());
            if id != 38 {
                assert(user_props(l) =~= Seq::<(Seq<char>, Seq<char>)>::empty());
            }
        },
        None => {
            assert(props_bytes(opt_prop(id, v)) =~= Seq::<u8>::empty());
        },
    }
}

/// The bytes and user properties of a list of at most one property.
pub proof fn lemma_opt_prop_plain(id: u8, v: Option<PropertyModel>)
    ensures
        id != 38 ==> user_props(opt_prop(id, v)) == Seq::<(Seq<char>, Seq<char>)>::empty(),
        props_bytes(opt_prop(id, v)) == match v {
            Some(x) => seq![id] + value_bytes(x),
            None => Seq::<u8>::empty(),
        },
{
    lemma_opt_prop(id, v);
}

/// Whether every property of a list can stand in a list of the packet and
/// be read back.
pub open spec fn all_ok(ctx: PropertyContext, ps: Seq<(u8, PropertyModel)>) -> bool {
    forall|i: int| 0 <= i < ps.len() ==> prop_ok(ctx, #[trigger] ps[i])
}

pub proof fn lemma_all_ok_concat(
    ctx: PropertyContext,
    a: Seq<(u8, PropertyModel)>,
    b: Seq<(u8, PropertyModel)>,
)
    requires
        all_ok(ctx, a),
        all_ok(ctx, b),
    ensures
        all_ok(ctx, a + b),
{
    assert forall|i: int| 0 <= i < (a + b).len() implies prop_ok(ctx, #[trigger] (a + b)[i]) by {
        if i < a.len() {
            assert((a + b)[i] == a[i]);
        } else {
            assert((a + b)[i] == b[i - a.len()]);
        }
    }
}

pub proof fn lemma_opt_prop_ok(ctx: PropertyContext, id: u8, v: Option<PropertyModel>)
    requires
        v matches Some(x) ==> prop_ok(ctx, (id, x)),
    ensures
        all_ok(ctx, opt_prop(id, v)),
{
}

/// Whether every user property fits its two-byte lengths.
pub open spec fn user_props_fit(up: Seq<(Seq<char>, Seq<char>)>) -> bool {
    forall|i: int|
        0 <= i < up.len() ==> utf8_bytes((#[trigger] up[i]).0).len() <= 65535 && utf8_bytes(
            up[i].1,
        ).len() <= 65535
}

pub proof fn lemma_user_list_ok(ctx: PropertyContext, up: Seq<(Seq<char>, Seq<char>)>)
    requires
        spec_property_allowed(ctx, 38),
        user_props_fit(up),
    ensures
        all_ok(ctx, user_prop_list(up)),
{
    assert forall|i: int| 0 <= i < user_prop_list(up).len() implies prop_ok(
        ctx,
        #[trigger] user_prop_list(up)[i],
    ) by {
        assert(user_prop_list(up)[i] == (38u8, PropertyModel::Pair(up[i].0, up[i].1)));
    }
}

} // verus!
