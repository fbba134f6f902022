//! The property list of MQTT 5 packets: a variable byte integer length, then
//! properties, each an identifier byte and a value whose form the identifier
//! fixes. Which identifiers a list may hold depends on the packet it stands
//! in; the readers of the packets' properties share the parser here.
use crate::buffer::{bytes_advance, bytes_as_slice, bytes_clone, bytes_len, bytes_view};
use crate::protocol::packet::{
    length, read_mqtt_bytes, read_mqtt_string, read_u16, read_u32, read_u8,
    spec_fixed_header_error, spec_length, spec_read_mqtt_bytes, spec_read_mqtt_string,
    spec_read_u16, spec_read_u32, spec_read_u8,
};
use crate::protocol::PacketParseError;
use bytes::Bytes;
use vstd::prelude::*;

verus! {

/// The packet a property list stands in, which decides the properties it may
/// hold.
#[derive(Debug, Clone, Copy, PartialEq, Eq, Structural)]
pub enum PropertyContext {
    Connect,
    ConnAck,
    Will,
    /// The acknowledgements: reason string and user properties only.
    Ack,
}

/// The form of a property's value.
#[derive(Debug, Clone, Copy, PartialEq, Eq, Structural)]
pub enum PropertyKind {
    Byte,
    Short,
    Int,
    Str,
    Bin,
    Pair,
}

/// The value of a property.
pub enum PropertyValue {
    Byte(u8),
    Short(u16),
    Int(u32),
    Str(String),
    Bin(Bytes),
    Pair(String, String),
}

/// A property as it stands in a list: its identifier and its value.
pub struct Property {
    pub id: u8,
    pub value: PropertyValue,
}

/// The value of a property, as plain data.
pub enum PropertyModel {
    Byte(u8),
    Short(u16),
    Int(u32),
    Str(Seq<char>),
    Bin(Seq<u8>),
    Pair(Seq<char>, Seq<char>),
}

impl View for PropertyValue {
    type V = PropertyModel;

    open spec fn view(&self) -> PropertyModel {
        match self {
            PropertyValue::Byte(v) => PropertyModel::Byte(*v),
            PropertyValue::Short(v) => PropertyModel::Short(*v),
            PropertyValue::Int(v) => PropertyModel::Int(*v),
            PropertyValue::Str(s) => PropertyModel::Str(s@),
            PropertyValue::Bin(b) => PropertyModel::Bin(bytes_view(*b)),
            PropertyValue::Pair(k, v) => PropertyModel::Pair(k@, v@),
        }
    }
}

impl View for Property {
    type V = (u8, PropertyModel);

    open spec fn view(&self) -> (u8, PropertyModel) {
        (self.id, self.value@)
    }
}

/// The properties of a list, as plain data.
pub open spec fn props_model(v: Seq<Property>) -> Seq<(u8, PropertyModel)> {
    v.map_values(|p: Property| p@)
}

/// Whether a property may stand in the list of a packet.
pub open spec fn spec_property_allowed(ctx: PropertyContext, id: u8) -> bool {
    match ctx {
        PropertyContext::Connect => id == 17 || id == 33 || id == 39 || id == 34 || id == 25 || id
            == 23 || id == 38 || id == 21 || id == 22,
        PropertyContext::ConnAck => id == 17 || id == 33 || id == 36 || id == 37 || id == 18 || id
            == 39 || id == 34 || id == 31 || id == 38 || id == 40 || id == 41 || id == 42 || id
            == 19 || id == 26 || id == 28 || id == 21 || id == 22,
        PropertyContext::Will => id == 24 || id == 1 || id == 2 || id == 3 || id == 8 || id == 9
            || id == 38,
        PropertyContext::Ack => id == 31 || id == 38,
    }
}

/// The form of the value of the property with this identifier.
pub open spec fn spec_property_kind(id: u8) -> PropertyKind {
    if id == 19 || id == 33 || id == 34 || id == 35 {
        PropertyKind::Short
    } else if id == 2 || id == 17 || id == 24 || id == 39 {
        PropertyKind::Int
    } else if id == 3 || id == 8 || id == 18 || id == 21 || id == 26 || id == 28 || id == 31 {
        PropertyKind::Str
    } else if id == 9 || id == 22 {
        PropertyKind::Bin
    } else if id == 38 {
        PropertyKind::Pair
    } else {
        PropertyKind::Byte
    }
}

/// Whether a value has the form that its identifier fixes.
pub open spec fn well_kinded(p: (u8, PropertyModel)) -> bool {
    match p.1 {
        PropertyModel::Byte(_) => spec_property_kind(p.0) == PropertyKind::Byte,
        PropertyModel::Short(_) => spec_property_kind(p.0) == PropertyKind::Short,
        PropertyModel::Int(_) => spec_property_kind(p.0) == PropertyKind::Int,
        PropertyModel::Str(_) => spec_property_kind(p.0) == PropertyKind::Str,
        PropertyModel::Bin(_) => spec_property_kind(p.0) == PropertyKind::Bin,
        PropertyModel::Pair(_, _) => spec_property_kind(p.0) == PropertyKind::Pair,
    }
}

/// Reads a value of the given form: the value and the number of bytes it
/// takes.
pub open spec fn spec_read_value(kind: PropertyKind, s: Seq<u8>) -> Result<
    (PropertyModel, nat),
    PacketParseError,
> {
    match kind {
        PropertyKind::Byte => match spec_read_u8(s) {
            Ok((v, _)) => Ok((PropertyModel::Byte(v), 1)),
            Err(e) => Err(e),
        },
        PropertyKind::Short => match spec_read_u16(s) {
            Ok((v, _)) => Ok((PropertyModel::Short(v), 2)),
            Err(e) => Err(e),
        },
        PropertyKind::Int => match spec_read_u32(s) {
            Ok((v, _)) => Ok((PropertyModel::Int(v), 4)),
            Err(e) => Err(e),
        },
        PropertyKind::Str => match spec_read_mqtt_string(s) {
            Ok((t, rest)) => Ok((PropertyModel::Str(t), (s.len() - rest.len()) as nat)),
            Err(e) => Err(e),
        },
        PropertyKind::Bin => match spec_read_mqtt_bytes(s) {
            Ok((b, _)) => Ok((PropertyModel::Bin(b), 2 + b.len())),
            Err(e) => Err(e),
        },
        PropertyKind::Pair => match spec_read_mqtt_string(s) {
            Ok((k, rest)) => match spec_read_mqtt_string(rest) {
                Ok((v, rest2)) => Ok((PropertyModel::Pair(k, v), (s.len() - rest2.len()) as nat)),
                Err(e) => Err(e),
            },
            Err(e) => Err(e),
        },
    }
}

/// Reads properties until `remaining` bytes have been taken, adding them to
/// `acc`: the properties and what follows them.
pub open spec fn spec_read_props_loop(
    ctx: PropertyContext,
    s: Seq<u8>,
    remaining: nat,
    acc: Seq<(u8, PropertyModel)>,
) -> Result<(Seq<(u8, PropertyModel)>, Seq<u8>), PacketParseError>
    decreases remaining,
{
    if remaining == 0 {
        Ok((acc, s))
    } else {
        match spec_read_u8(s) {
            Err(e) => Err(e),
            Ok((id, r1)) => if !spec_property_allowed(ctx, id) {
                Err(PacketParseError::InvalidPropertyType(id))
            } else {
                match spec_read_value(spec_property_kind(id), r1) {
                    Err(e) => Err(e),
                    Ok((v, k)) => {
                        let n = 1 + k;
                        spec_read_props_loop(
                            ctx,
                            r1.skip(k as int),
                            if remaining <= n {
                                0
                            } else {
                                (remaining - n) as nat
                            },
                            acc.push((id, v)),
                        )
                    },
                }
            },
        }
    }
}

/// Reads a property list: its length, then its properties. An empty list
/// reads as `None`.
pub open spec fn spec_read_props_section(ctx: PropertyContext, s: Seq<u8>) -> Result<
    (Option<Seq<(u8, PropertyModel)>>, Seq<u8>),
    PacketParseError,
> {
    match spec_length(s) {
        Err(e) => Err(spec_fixed_header_error(e)),
        Ok((n, len)) => if len == 0 {
            Ok((None, s.skip(n)))
        } else {
            match spec_read_props_loop(ctx, s.skip(n), len as nat, Seq::empty()) {
                Ok((ps, rest)) => Ok((Some(ps), rest)),
                Err(e) => Err(e),
            }
        },
    }
}

/// Whether a property may stand in the list of a packet.
pub fn property_allowed(ctx: PropertyContext, id: u8) -> (r: bool)
    ensures
        r == spec_property_allowed(ctx, id),
{
    match ctx {
        PropertyContext::Connect => id == 17 || id == 33 || id == 39 || id == 34 || id == 25 || id
            == 23 || id == 38 || id == 21 || id == 22,
        PropertyContext::ConnAck => id == 17 || id == 33 || id == 36 || id == 37 || id == 18 || id
            == 39 || id == 34 || id == 31 || id == 38 || id == 40 || id == 41 || id == 42 || id
            == 19 || id == 26 || id == 28 || id == 21 || id == 22,
        PropertyContext::Will => id == 24 || id == 1 || id == 2 || id == 3 || id == 8 || id == 9
            || id == 38,
        PropertyContext::Ack => id == 31 || id == 38,
    }
}

/// The form of the value of the property with this identifier.
pub fn property_kind(id: u8) -> (r: PropertyKind)
    ensures
        r == spec_property_kind(id),
{
    if id == 19 || id == 33 || id == 34 || id == 35 {
        PropertyKind::Short
    } else if id == 2 || id == 17 || id == 24 || id == 39 {
        PropertyKind::Int
    } else if id == 3 || id == 8 || id == 18 || id == 21 || id == 26 || id == 28 || id == 31 {
        PropertyKind::Str
    } else if id == 9 || id == 22 {
        PropertyKind::Bin
    } else if id == 38 {
        PropertyKind::Pair
    } else {
        PropertyKind::Byte
    }
}

proof fn lemma_mqtt_bytes_len(s: Seq<u8>)
    ensures
        spec_read_mqtt_bytes(s) matches Ok((b, rest)) ==> b.len() <= 65535 && rest =~= s.skip(
            2 + b.len() as int,
        ) && 2 + b.len() <= s.len(),
        spec_read_mqtt_string(s) matches Ok((t, rest)) ==> rest.len() <= s.len() && s.len()
            - rest.len() <= 65537 && rest =~= s.skip(s.len() - rest.len()),
{
}

/// Reads a value of the given form.
pub fn read_property_value(kind: PropertyKind, bytes: &mut Bytes) -> (r: Result<
    PropertyValue,
    PacketParseError,
>)
    ensures
        match spec_read_value(kind, bytes_view(*old(bytes))) {
            Ok((v, k)) => r matches Ok(x) && x@ == v && k <= bytes_view(*old(bytes)).len()
                && k <= 131074 && bytes_view(*final(bytes)) == bytes_view(*old(bytes)).skip(
                k as int,
            ),
            Err(e) => r == Err::<PropertyValue, PacketParseError>(e),
        },
{
    proof {
        lemma_mqtt_bytes_len(bytes_view(*bytes));
    }
    match kind {
        PropertyKind::Byte => Ok(PropertyValue::Byte(read_u8(bytes)?)),
        PropertyKind::Short => Ok(PropertyValue::Short(read_u16(bytes)?)),
        PropertyKind::Int => Ok(PropertyValue::Int(read_u32(bytes)?)),
        PropertyKind::Str => Ok(PropertyValue::Str(read_mqtt_string(bytes)?)),
        PropertyKind::Bin => Ok(PropertyValue::Bin(read_mqtt_bytes(bytes)?)),
        PropertyKind::Pair => {
            let key = read_mqtt_string(bytes)?;
            proof {
                lemma_mqtt_bytes_len(bytes_view(*bytes));
            }
            let value = read_mqtt_string(bytes)?;
            Ok(PropertyValue::Pair(key, value))
        },
    }
}

/// Reads a property list: `None` for an empty list, the properties in the
/// order they stand otherwise.
pub fn read_properties(bytes: &mut Bytes, ctx: PropertyContext) -> (r: Result<
    Option<Vec<Property>>,
    PacketParseError,
>)
    ensures
        match spec_read_props_section(ctx, bytes_view(*old(bytes))) {
            Ok((None, rest)) => r matches Ok(None) && bytes_view(*final(bytes)) == rest,
            Ok((Some(ps), rest)) => r matches Ok(Some(v)) && props_model(v@) == ps
                && bytes_view(*final(bytes)) == rest,
            Err(e) => r == Err::<Option<Vec<Property>>, PacketParseError>(e),
        },
        r matches Ok(Some(v)) ==> forall|i: int|
            0 <= i < v@.len() ==> #[trigger] well_kinded(v@[i]@),
{
    let (properties_len_len, properties_len) = match length(bytes_as_slice(bytes)) {
        Ok(x) => x,
        Err(e) => return Err(e.into_packet_error()),
    };
    bytes_advance(bytes, properties_len_len);
    if properties_len == 0 {
        return Ok(None);
    }
    let ghost start = bytes_view(*bytes);
    let mut props: Vec<Property> = Vec::new();
    let mut cursor: usize = 0;
    assert(props_model(props@) =~= Seq::empty());
    // read until cursor reaches property length
    while cursor < properties_len
        invariant
            properties_len < 268_435_456,
            properties_len > 0,
            cursor < properties_len + 131076,
            spec_read_props_section(ctx, bytes_view(*old(bytes))) == match spec_read_props_loop(
                ctx,
                start,
                properties_len as nat,
                Seq::empty(),
            ) {
                Ok((ps, rest)) => Ok((Some(ps), rest)),
                Err(e) => Err(e),
            },
            spec_read_props_loop(ctx, start, properties_len as nat, Seq::empty())
                == spec_read_props_loop(
                ctx,
                bytes_view(*bytes),
                (if cursor < properties_len {
                    (properties_len - cursor) as nat
                } else {
                    0nat
                }),
                props_model(props@),
            ),
            forall|i: int| 0 <= i < props@.len() ==> #[trigger] well_kinded(props@[i]@),
        decreases properties_len + 131076 - cursor,
    {
        let ghost s0 = bytes_view(*bytes);
        let ghost m0 = props_model(props@);
        let prop = read_u8(bytes)?;
        cursor += 1;
        if !property_allowed(ctx, prop) {
            return Err(PacketParseError::InvalidPropertyType(prop));
        }
        let kind = property_kind(prop);
        let before = bytes_len(bytes);
        let value = read_property_value(kind, bytes)?;
        let after = bytes_len(bytes);
        cursor += before - after;
        props.push(Property { id: prop, value });
        proof {
            assert(props_model(props@) =~= m0.push((prop, value@)));
            assert(well_kinded(props@[props@.len() - 1]@));
        }
    }
    Ok(Some(props))
}

// ---------------------------------------------------------------------------
// What a list says of each property
// ---------------------------------------------------------------------------

/// The value of the last property with identifier `id` in the list, if any.
pub open spec fn last_prop(ps: Seq<(u8, PropertyModel)>, id: u8) -> Option<PropertyModel>
    decreases ps.len(),
{
    if ps.len() == 0 {
        None
    } else if ps.last().0 == id {
        Some(ps.last().1)
    } else {
        last_prop(ps.drop_last(), id)
    }
}

pub open spec fn opt_byte(o: Option<PropertyModel>) -> Option<u8> {
    match o {
        Some(PropertyModel::Byte(v)) => Some(v),
        _ => None,
    }
}

pub open spec fn opt_short(o: Option<PropertyModel>) -> Option<u16> {
    match o {
        Some(PropertyModel::Short(v)) => Some(v),
        _ => None,
    }
}

pub open spec fn opt_int(o: Option<PropertyModel>) -> Option<u32> {
    match o {
        Some(PropertyModel::Int(v)) => Some(v),
        _ => None,
    }
}

pub open spec fn opt_str(o: Option<PropertyModel>) -> Option<Seq<char>> {
    match o {
        Some(PropertyModel::Str(v)) => Some(v),
        _ => None,
    }
}

pub open spec fn opt_bin(o: Option<PropertyModel>) -> Option<Seq<u8>> {
    match o {
        Some(PropertyModel::Bin(v)) => Some(v),
        _ => None,
    }
}

/// The user properties of a list, in the order they stand.
pub open spec fn user_props(ps: Seq<(u8, PropertyModel)>) -> Seq<(Seq<char>, Seq<char>)>
    decreases ps.len(),
{
    if ps.len() == 0 {
        Seq::empty()
    } else {
        let rest = user_props(ps.drop_last());
        match ps.last() {
            (38, PropertyModel::Pair(k, v)) => rest.push((k, v)),
            _ => rest,
        }
    }
}

/// The value of the last byte property with identifier `id`.
pub fn last_byte(ps: &Vec<Property>, id: u8) -> (r: Option<u8>)
    ensures
        r == opt_byte(last_prop(props_model(ps@), id)),
{
    let mut r: Option<u8> = None;
    let mut i: usize = 0;
    while i < ps.len()
        invariant
            i <= ps@.len(),
            r == opt_byte(last_prop(props_model(ps@).take(i as int), id)),
        decreases ps@.len() - i,
    {
        proof {
            assert(props_model(ps@).take(i + 1).drop_last() =~= props_model(ps@).take(i as int));
        }
        if ps[i].id == id {
            r = match &ps[i].value {
                PropertyValue::Byte(v) => Some(*v),
                _ => None,
            };
        }
        i = i + 1;
    }
    assert(props_model(ps@).take(i as int) =~= props_model(ps@));
    r
}

/// The value of the last two-byte property with identifier `id`.
pub fn last_short(ps: &Vec<Property>, id: u8) -> (r: Option<u16>)
    ensures
        r == opt_short(last_prop(props_model(ps@), id)),
{
    let mut r: Option<u16> = None;
    let mut i: usize = 0;
    while i < ps.len()
        invariant
            i <= ps@.len(),
            r == opt_short(last_prop(props_model(ps@).take(i as int), id)),
        decreases ps@.len() - i,
    {
        proof {
            assert(props_model(ps@).take(i + 1).drop_last() =~= props_model(ps@).take(i as int));
        }
        if ps[i].id == id {
            r = match &ps[i].value {
                PropertyValue::Short(v) => Some(*v),
                _ => None,
            };
        }
        i = i + 1;
    }
    assert(props_model(ps@).take(i as int) =~= props_model(ps@));
    r
}

/// The value of the last four-byte property with identifier `id`.
pub fn last_int(ps: &Vec<Property>, id: u8) -> (r: Option<u32>)
    ensures
        r == opt_int(last_prop(props_model(ps@), id)),
{
    let mut r: Option<u32> = None;
    let mut i: usize = 0;
    while i < ps.len()
        invariant
            i <= ps@.len(),
            r == opt_int(last_prop(props_model(ps@).take(i as int), id)),
        decreases ps@.len() - i,
    {
        proof {
            assert(props_model(ps@).take(i + 1).drop_last() =~= props_model(ps@).take(i as int));
        }
        if ps[i].id == id {
            r = match &ps[i].value {
                PropertyValue::Int(v) => Some(*v),
                _ => None,
            };
        }
        i = i + 1;
    }
    assert(props_model(ps@).take(i as int) =~= props_model(ps@));
    r
}

/// The value of the last string property with identifier `id`.
pub fn last_str(ps: &Vec<Property>, id: u8) -> (r: Option<String>)
    ensures
        r.deep_view() == opt_str(last_prop(props_model(ps@), id)),
{
    let mut r: Option<String> = None;
    let mut i: usize = 0;
    while i < ps.len()
        invariant
            i <= ps@.len(),
            r.deep_view() == opt_str(last_prop(props_model(ps@).take(i as int), id)),
        decreases ps@.len() - i,
    {
        proof {
            assert(props_model(ps@).take(i + 1).drop_last() =~= props_model(ps@).take(i as int));
        }
        if ps[i].id == id {
            r = match &ps[i].value {
                PropertyValue::Str(v) => Some(v.clone()),
                _ => None,
            };
        }
        i = i + 1;
    }
    assert(props_model(ps@).take(i as int) =~= props_model(ps@));
    r
}

/// The value of the last binary property with identifier `id`.
pub fn last_bin(ps: &Vec<Property>, id: u8) -> (r: Option<Bytes>)
    ensures
        opt_bytes_view(r) == opt_bin(last_prop(props_model(ps@), id)),
{
    let mut r: Option<Bytes> = None;
    let mut i: usize = 0;
    while i < ps.len()
        invariant
            i <= ps@.len(),
            opt_bytes_view(r) == opt_bin(last_prop(props_model(ps@).take(i as int), id)),
        decreases ps@.len() - i,
    {
        proof {
            assert(props_model(ps@).take(i + 1).drop_last() =~= props_model(ps@).take(i as int));
        }
        if ps[i].id == id {
            r = match &ps[i].value {
                PropertyValue::Bin(v) => Some(bytes_clone(v)),
                _ => None,
            };
        }
        i = i + 1;
    }
    assert(props_model(ps@).take(i as int) =~= props_model(ps@));
    r
}

/// The bytes of an optional buffer.
pub open spec fn opt_bytes_view(o: Option<Bytes>) -> Option<Seq<u8>> {
    match o {
        Some(b) => Some(bytes_view(b)),
        None => None,
    }
}

/// The user properties of a list, in the order they stand.
pub fn user_properties(ps: &Vec<Property>) -> (r: Vec<(String, String)>)
    ensures
        r.deep_view() == user_props(props_model(ps@)),
{
    let mut r: Vec<(String, String)> = Vec::new();
    let mut i: usize = 0;
    while i < ps.len()
        invariant
            i <= ps@.len(),
            r.deep_view() == user_props(props_model(ps@).take(i as int)),
        decreases ps@.len() - i,
    {
        proof {
            assert(props_model(ps@).take(i + 1).drop_last() =~= props_model(ps@).take(i as int));
        }
        if ps[i].id == 38 {
            match &ps[i].value {
                PropertyValue::Pair(k, v) => {
                    let ghost before = r.deep_view();
                    r.push((k.clone(), v.clone()));
                    assert(r.deep_view() =~= before.push((k@, v@)));
                },
                _ => {},
            }
        }
        i = i + 1;
    }
    assert(props_model(ps@).take(i as int) =~= props_model(ps@));
    r
}

/// A property list that holds only a reason string and user properties, as
/// plain data.
pub struct ReasonPropertiesModel {
    pub reason_string: Option<Seq<char>>,
    pub user_properties: Seq<(Seq<char>, Seq<char>)>,
}

/// What an acknowledgement's property list says.
pub open spec fn reason_properties_of(ps: Seq<(u8, PropertyModel)>) -> ReasonPropertiesModel {
    ReasonPropertiesModel { reason_string: opt_str(last_prop(ps, 31)), user_properties: user_props(ps) }
}

/// Reads the property list of an acknowledgement: what it says, and what
/// follows it.
pub open spec fn spec_read_reason_properties(s: Seq<u8>) -> Result<
    (Option<ReasonPropertiesModel>, Seq<u8>),
    PacketParseError,
> {
    match spec_read_props_section(PropertyContext::Ack, s) {
        Ok((None, rest)) => Ok((None, rest)),
        Ok((Some(ps), rest)) => Ok((Some(reason_properties_of(ps)), rest)),
        Err(e) => Err(e),
    }
}

/// Reads the property list of an acknowledgement: its reason string and
/// user properties.
pub fn read_reason_properties(bytes: &mut Bytes) -> (r: Result<
    Option<(Option<String>, Vec<(String, String)>)>,
    PacketParseError,
>)
    ensures
        match spec_read_reason_properties(bytes_view(*old(bytes))) {
            Ok((None, rest)) => r matches Ok(None) && bytes_view(*final(bytes)) == rest,
            Ok((Some(m), rest)) => r matches Ok(Some((rs, up))) && rs.deep_view() == m.reason_string
                && up.deep_view() == m.user_properties && bytes_view(*final(bytes)) == rest,
            Err(e) => r == Err::<Option<(Option<String>, Vec<(String, String)>)>, PacketParseError>(
                e,
            ),
        },
{
    let ps = match read_properties(bytes, PropertyContext::Ack)? {
        None => return Ok(None),
        Some(ps) => ps,
    };
    Ok(Some((last_str(&ps, 31), user_properties(&ps))))
}

} // verus!
