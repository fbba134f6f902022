//! The property list of a CONNECT packet.
use crate::buffer::{bytes_mut_view, bytes_view, max_buffer_len};
use crate::protocol::packet::property::{
    last_bin, last_int, last_prop, last_short, last_str, last_byte, opt_bin, opt_byte,
    opt_bytes_view, opt_int, opt_short, opt_str, read_properties, spec_read_props_section,
    user_properties, user_props, PropertyContext, PropertyModel,
};
use crate::protocol::packet::property_write::{
    opt_bin_field, opt_str_field, opt_u16_field, opt_u32_field, opt_u8_field, user_props_bytes,
    user_properties_len, write_opt_bin, write_opt_str, write_opt_u16, write_opt_u32, write_opt_u8,
    write_user_properties,
};
use crate::protocol::packet::{
    lemma_encode_varint_len_usize, spec_encode_varint, spec_mqtt_bytes, utf8_bytes,
    write_remaining_length,
};
use crate::protocol::packet::property_laws::{
    all_ok, lemma_all_ok_concat, lemma_last_prop_concat, lemma_opt_prop, lemma_opt_prop_ok,
    lemma_opt_prop_plain,
    lemma_props_bytes_concat, lemma_user_props_concat,
    lemma_props_section_roundtrip, lemma_user_list_last_prop, lemma_user_list_ok,
    lemma_user_props_bytes, opt_prop, props_bytes, user_prop_list, user_props_fit,
};
use crate::protocol::PacketParseError;
use bytes::{Bytes, BytesMut};
use vstd::prelude::*;

verus! {

pub struct ConnectProperties {
    /// Expiry interval property after loosing connection
    pub session_expiry_interval: Option<u32>,
    /// Maximum simultaneous packets
    pub receive_maximum: Option<u16>,
    /// Maximum packet size
    pub max_packet_size: Option<u32>,
    /// Maximum mapping integer for a topic
    pub topic_alias_max: Option<u16>,
    pub request_response_info: Option<u8>,
    pub request_problem_info: Option<u8>,
    /// List of user properties
    pub user_properties: Vec<(String, String)>,
    /// Method of authentication
    pub authentication_method: Option<String>,
    /// Authentication data
    pub authentication_data: Option<Bytes>,
}

/// The properties of a CONNECT packet, as plain data.
pub struct ConnectPropertiesModel {
    pub session_expiry_interval: Option<u32>,
    pub receive_maximum: Option<u16>,
    pub max_packet_size: Option<u32>,
    pub topic_alias_max: Option<u16>,
    pub request_response_info: Option<u8>,
    pub request_problem_info: Option<u8>,
    pub user_properties: Seq<(Seq<char>, Seq<char>)>,
    pub authentication_method: Option<Seq<char>>,
    pub authentication_data: Option<Seq<u8>>,
}

impl View for ConnectProperties {
    type V = ConnectPropertiesModel;

    open spec fn view(&self) -> ConnectPropertiesModel {
        ConnectPropertiesModel {
            session_expiry_interval: self.session_expiry_interval,
            receive_maximum: self.receive_maximum,
            max_packet_size: self.max_packet_size,
            topic_alias_max: self.topic_alias_max,
            request_response_info: self.request_response_info,
            request_problem_info: self.request_problem_info,
            user_properties: self.user_properties.deep_view(),
            authentication_method: self.authentication_method.deep_view(),
            authentication_data: opt_bytes_view(self.authentication_data),
        }
    }
}

/// What a CONNECT property list says: for each property the value of its
/// last occurrence, and the user properties in order.
pub open spec fn connect_properties_of(ps: Seq<(u8, PropertyModel)>) -> ConnectPropertiesModel {
    ConnectPropertiesModel {
        session_expiry_interval: opt_int(last_prop(ps, 17)),
        receive_maximum: opt_short(last_prop(ps, 33)),
        max_packet_size: opt_int(last_prop(ps, 39)),
        topic_alias_max: opt_short(last_prop(ps, 34)),
        request_response_info: opt_byte(last_prop(ps, 25)),
        request_problem_info: opt_byte(last_prop(ps, 23)),
        user_properties: user_props(ps),
        authentication_method: opt_str(last_prop(ps, 21)),
        authentication_data: opt_bin(last_prop(ps, 22)),
    }
}

/// Reads the property list of a CONNECT packet: what it says, and what
/// follows it.
pub open spec fn spec_read_connect_properties(s: Seq<u8>) -> Result<
    (Option<ConnectPropertiesModel>, Seq<u8>),
    PacketParseError,
> {
    match spec_read_props_section(PropertyContext::Connect, s) {
        Ok((None, rest)) => Ok((None, rest)),
        Ok((Some(ps), rest)) => Ok((Some(connect_properties_of(ps)), rest)),
        Err(e) => Err(e),
    }
}

/// The encoded properties, without the length in front: each present
/// property in a fixed order, the user properties in their order.
pub open spec fn spec_connect_properties_body(m: ConnectPropertiesModel) -> Seq<u8> {
    opt_u32_field(17, m.session_expiry_interval) + opt_u16_field(33, m.receive_maximum)
        + opt_u32_field(39, m.max_packet_size) + opt_u16_field(34, m.topic_alias_max)
        + opt_u8_field(25, m.request_response_info) + opt_u8_field(23, m.request_problem_info)
        + user_props_bytes(m.user_properties) + opt_str_field(21, m.authentication_method)
        + opt_bin_field(22, m.authentication_data)
}

/// The encoded property list: its length, then the properties.
pub open spec fn spec_connect_properties_bytes(m: ConnectPropertiesModel) -> Seq<u8> {
    spec_encode_varint(spec_connect_properties_body(m).len()) + spec_connect_properties_body(m)
}

impl ConnectProperties {
    pub fn read(bytes: &mut Bytes) -> (r: Result<Option<ConnectProperties>, PacketParseError>)
        ensures
            match spec_read_connect_properties(bytes_view(*old(bytes))) {
                Ok((None, rest)) => r matches Ok(None) && bytes_view(*final(bytes)) == rest,
                Ok((Some(m), rest)) => r matches Ok(Some(p)) && p@ == m && bytes_view(
                    *final(bytes),
                ) == rest,
                Err(e) => r == Err::<Option<ConnectProperties>, PacketParseError>(e),
            },
    {
        let ps = match read_properties(bytes, PropertyContext::Connect)? {
            None => return Ok(None),
            Some(ps) => ps,
        };
        Ok(
            Some(
                ConnectProperties {
                    session_expiry_interval: last_int(&ps, 17),
                    receive_maximum: last_short(&ps, 33),
                    max_packet_size: last_int(&ps, 39),
                    topic_alias_max: last_short(&ps, 34),
                    request_response_info: last_byte(&ps, 25),
                    request_problem_info: last_byte(&ps, 23),
                    user_properties: user_properties(&ps),
                    authentication_method: last_str(&ps, 21),
                    authentication_data: last_bin(&ps, 22),
                },
            ),
        )
    }

    /// The length of the encoded properties, without the length in front.
    #[verifier::spinoff_prover]
    #[verifier::rlimit(40)]
    pub fn len(&self) -> (r: usize)
        requires
            spec_connect_properties_body(self@).len() <= usize::MAX,
        ensures
            r == spec_connect_properties_body(self@).len(),
    {
        let mut len: usize = 0;
        if self.session_expiry_interval.is_some() {
            len = len + 1 + 4;
        }
        if self.receive_maximum.is_some() {
            len = len + 1 + 2;
        }
        if self.max_packet_size.is_some() {
            len = len + 1 + 4;
        }
        if self.topic_alias_max.is_some() {
            len = len + 1 + 2;
        }
        if self.request_response_info.is_some() {
            len = len + 1 + 1;
        }
        if self.request_problem_info.is_some() {
            len = len + 1 + 1;
        }
        let ghost fixed = len;
        let mut len = match user_properties_len(&self.user_properties, len) {
            Some(n) => n,
            None => 0,
        };
        assert(len == fixed + user_props_bytes(self@.user_properties).len());
        if let Some(authentication_method) = &self.authentication_method {
            len = len + 1 + 2 + authentication_method.as_str().as_bytes().len();
        }
        if let Some(authentication_data) = &self.authentication_data {
            len = len + 1 + 2 + crate::buffer::bytes_len(authentication_data);
        }
        len
    }

    /// Appends the encoded property list: its length, then the properties.
    #[verifier::spinoff_prover]
    #[verifier::rlimit(60)]
    pub fn write(&self, buffer: &mut BytesMut) -> (r: Result<(), PacketParseError>)
        requires
            bytes_mut_view(*old(buffer)).len() + 10 + spec_connect_properties_body(self@).len()
                <= max_buffer_len(),
        ensures
            r is Ok,
            bytes_mut_view(*final(buffer)) == bytes_mut_view(*old(buffer))
                + spec_connect_properties_bytes(self@),
    {
        let ghost start = bytes_mut_view(*buffer);
        let ghost body = spec_connect_properties_body(self@);
        let len = self.len();
        proof {
            lemma_encode_varint_len_usize(len);
        }
        write_remaining_length(buffer, len);
        let ghost m = self@;
        let ghost after_len = bytes_mut_view(*buffer);
        let ghost f1 = opt_u32_field(17, m.session_expiry_interval);
        let ghost f2 = opt_u16_field(33, m.receive_maximum);
        let ghost f3 = opt_u32_field(39, m.max_packet_size);
        let ghost f4 = opt_u16_field(34, m.topic_alias_max);
        let ghost f5 = opt_u8_field(25, m.request_response_info);
        let ghost f6 = opt_u8_field(23, m.request_problem_info);
        let ghost f7 = user_props_bytes(m.user_properties);
        let ghost f8 = opt_str_field(21, m.authentication_method);
        let ghost f9 = opt_bin_field(22, m.authentication_data);
        assert(body == f1 + f2 + f3 + f4 + f5 + f6 + f7 + f8 + f9);
        assert(after_len.len() + body.len() <= max_buffer_len());
        write_opt_u32(buffer, 17, &self.session_expiry_interval);
        write_opt_u16(buffer, 33, &self.receive_maximum);
        assert(bytes_mut_view(*buffer) =~= after_len + f1 + f2);
        write_opt_u32(buffer, 39, &self.max_packet_size);
        write_opt_u16(buffer, 34, &self.topic_alias_max);
        assert(bytes_mut_view(*buffer) =~= after_len + f1 + f2 + f3 + f4);
        write_opt_u8(buffer, 25, &self.request_response_info);
        write_opt_u8(buffer, 23, &self.request_problem_info);
        assert(bytes_mut_view(*buffer) =~= after_len + f1 + f2 + f3 + f4 + f5 + f6);
        write_user_properties(buffer, &self.user_properties);
        assert(bytes_mut_view(*buffer) =~= after_len + f1 + f2 + f3 + f4 + f5 + f6 + f7);
        write_opt_str(buffer, 21, &self.authentication_method);
        write_opt_bin(buffer, 22, &self.authentication_data);
        assert(bytes_mut_view(*buffer) =~= after_len + body);
        assert(bytes_mut_view(*buffer) =~= start + spec_connect_properties_bytes(self@));
        Ok(())
    }
}

/// The properties as a list, in the order they are written.
pub open spec fn connect_prop_list(m: ConnectPropertiesModel) -> Seq<(u8, PropertyModel)> {
    opt_prop(17, int_prop(m.session_expiry_interval)) + opt_prop(33, short_prop(m.receive_maximum))
        + opt_prop(39, int_prop(m.max_packet_size)) + opt_prop(34, short_prop(m.topic_alias_max))
        + opt_prop(25, byte_prop(m.request_response_info)) + opt_prop(
        23,
        byte_prop(m.request_problem_info),
    ) + user_prop_list(m.user_properties) + opt_prop(21, str_prop(m.authentication_method))
        + opt_prop(22, bin_prop(m.authentication_data))
}

pub open spec fn int_prop(v: Option<u32>) -> Option<PropertyModel> {
    match v {
        Some(x) => Some(PropertyModel::Int(x)),
        None => None,
    }
}

pub open spec fn short_prop(v: Option<u16>) -> Option<PropertyModel> {
    match v {
        Some(x) => Some(PropertyModel::Short(x)),
        None => None,
    }
}

pub open spec fn byte_prop(v: Option<u8>) -> Option<PropertyModel> {
    match v {
        Some(x) => Some(PropertyModel::Byte(x)),
        None => None,
    }
}

pub open spec fn str_prop(v: Option<Seq<char>>) -> Option<PropertyModel> {
    match v {
        Some(x) => Some(PropertyModel::Str(x)),
        None => None,
    }
}

pub open spec fn bin_prop(v: Option<Seq<u8>>) -> Option<PropertyModel> {
    match v {
        Some(x) => Some(PropertyModel::Bin(x)),
        None => None,
    }
}

/// Whether the properties can be written and read back: every text and
/// binary value fits its two-byte length, and the list fits the largest
/// length.
pub open spec fn connect_properties_fit(m: ConnectPropertiesModel) -> bool {
    &&& spec_connect_properties_body(m).len() < 268_435_456
    &&& user_props_fit(m.user_properties)
    &&& (m.authentication_method matches Some(t) ==> utf8_bytes(t).len() <= 65535)
    &&& (m.authentication_data matches Some(b) ==> b.len() <= 65535)
}

/// The later of two findings.
pub open spec fn pick(l: Option<PropertyModel>, r: Option<PropertyModel>) -> Option<PropertyModel> {
    match r {
        Some(v) => Some(v),
        None => l,
    }
}

/// The last occurrence of a property in nine lists, one after the other.
proof fn lemma_last_of_parts(
    a1: Seq<(u8, PropertyModel)>,
    a2: Seq<(u8, PropertyModel)>,
    a3: Seq<(u8, PropertyModel)>,
    a4: Seq<(u8, PropertyModel)>,
    a5: Seq<(u8, PropertyModel)>,
    a6: Seq<(u8, PropertyModel)>,
    a7: Seq<(u8, PropertyModel)>,
    a8: Seq<(u8, PropertyModel)>,
    a9: Seq<(u8, PropertyModel)>,
    x: u8,
)
    ensures
        last_prop(a1 + a2 + a3 + a4 + a5 + a6 + a7 + a8 + a9, x) == pick(
            pick(
                pick(
                    pick(
                        pick(
                            pick(pick(pick(last_prop(a1, x), last_prop(a2, x)), last_prop(a3, x)), last_prop(a4, x)),
                            last_prop(a5, x),
                        ),
                        last_prop(a6, x),
                    ),
                    last_prop(a7, x),
                ),
                last_prop(a8, x),
            ),
            last_prop(a9, x),
        ),
{
    lemma_last_prop_concat(a1, a2, x);
    lemma_last_prop_concat(a1 + a2, a3, x);
    lemma_last_prop_concat(a1 + a2 + a3, a4, x);
    lemma_last_prop_concat(a1 + a2 + a3 + a4, a5, x);
    lemma_last_prop_concat(a1 + a2 + a3 + a4 + a5, a6, x);
    lemma_last_prop_concat(a1 + a2 + a3 + a4 + a5 + a6, a7, x);
    lemma_last_prop_concat(a1 + a2 + a3 + a4 + a5 + a6 + a7, a8, x);
    lemma_last_prop_concat(a1 + a2 + a3 + a4 + a5 + a6 + a7 + a8, a9, x);
}

/// The list's bytes are what `ConnectProperties::write` puts after the
/// length.
#[verifier::spinoff_prover]
#[verifier::rlimit(40)]
proof fn lemma_connect_prop_list_bytes(m: ConnectPropertiesModel)
    ensures
        props_bytes(connect_prop_list(m)) == spec_connect_properties_body(m),
{
    let a1 = opt_prop(17, int_prop(m.session_expiry_interval));
    let a2 = opt_prop(33, short_prop(m.receive_maximum));
    let a3 = opt_prop(39, int_prop(m.max_packet_size));
    let a4 = opt_prop(34, short_prop(m.topic_alias_max));
    let a5 = opt_prop(25, byte_prop(m.request_response_info));
    let a6 = opt_prop(23, byte_prop(m.request_problem_info));
    let a7 = user_prop_list(m.user_properties);
    let a8 = opt_prop(21, str_prop(m.authentication_method));
    let a9 = opt_prop(22, bin_prop(m.authentication_data));
    lemma_opt_prop_plain(17, int_prop(m.session_expiry_interval));
    lemma_opt_prop_plain(33, short_prop(m.receive_maximum));
    lemma_opt_prop_plain(39, int_prop(m.max_packet_size));
    lemma_opt_prop_plain(34, short_prop(m.topic_alias_max));
    lemma_opt_prop_plain(25, byte_prop(m.request_response_info));
    lemma_opt_prop_plain(23, byte_prop(m.request_problem_info));
    lemma_opt_prop_plain(21, str_prop(m.authentication_method));
    lemma_opt_prop_plain(22, bin_prop(m.authentication_data));
    lemma_user_props_bytes(m.user_properties);
    let f1 = opt_u32_field(17, m.session_expiry_interval);
    let f2 = opt_u16_field(33, m.receive_maximum);
    let f3 = opt_u32_field(39, m.max_packet_size);
    let f4 = opt_u16_field(34, m.topic_alias_max);
    let f5 = opt_u8_field(25, m.request_response_info);
    let f6 = opt_u8_field(23, m.request_problem_info);
    let f7 = user_props_bytes(m.user_properties);
    let f8 = opt_str_field(21, m.authentication_method);
    let f9 = opt_bin_field(22, m.authentication_data);
    assert(props_bytes(a1) =~= f1);
    assert(props_bytes(a2) =~= f2);
    assert(props_bytes(a3) =~= f3);
    assert(props_bytes(a4) =~= f4);
    assert(props_bytes(a5) =~= f5);
    assert(props_bytes(a6) =~= f6);
    assert(props_bytes(a8) =~= f8);
    assert(props_bytes(a9) =~= f9);
    lemma_props_bytes_concat(a1, a2);
    let p2 = a1 + a2;
    lemma_props_bytes_concat(p2, a3);
    let p3 = p2 + a3;
    lemma_props_bytes_concat(p3, a4);
    let p4 = p3 + a4;
    lemma_props_bytes_concat(p4, a5);
    let p5 = p4 + a5;
    lemma_props_bytes_concat(p5, a6);
    let p6 = p5 + a6;
    lemma_props_bytes_concat(p6, a7);
    let p7 = p6 + a7;
    lemma_props_bytes_concat(p7, a8);
    let p8 = p7 + a8;
    lemma_props_bytes_concat(p8, a9);
    assert(props_bytes(p8 + a9) == f1 + f2 + f3 + f4 + f5 + f6 + f7 + f8 + f9);
}

/// The list's user properties are the model's.
proof fn lemma_connect_prop_list_users(m: ConnectPropertiesModel)
    ensures
        user_props(connect_prop_list(m)) == m.user_properties,
{
    let a1 = opt_prop(17, int_prop(m.session_expiry_interval));
    let a2 = opt_prop(33, short_prop(m.receive_maximum));
    let a3 = opt_prop(39, int_prop(m.max_packet_size));
    let a4 = opt_prop(34, short_prop(m.topic_alias_max));
    let a5 = opt_prop(25, byte_prop(m.request_response_info));
    let a6 = opt_prop(23, byte_prop(m.request_problem_info));
    let a7 = user_prop_list(m.user_properties);
    let a8 = opt_prop(21, str_prop(m.authentication_method));
    let a9 = opt_prop(22, bin_prop(m.authentication_data));
    lemma_opt_prop_plain(17, int_prop(m.session_expiry_interval));
    lemma_opt_prop_plain(33, short_prop(m.receive_maximum));
    lemma_opt_prop_plain(39, int_prop(m.max_packet_size));
    lemma_opt_prop_plain(34, short_prop(m.topic_alias_max));
    lemma_opt_prop_plain(25, byte_prop(m.request_response_info));
    lemma_opt_prop_plain(23, byte_prop(m.request_problem_info));
    lemma_opt_prop_plain(21, str_prop(m.authentication_method));
    lemma_opt_prop_plain(22, bin_prop(m.authentication_data));
    lemma_user_props_bytes(m.user_properties);
    lemma_user_props_concat(a1, a2);
    lemma_user_props_concat(a1 + a2, a3);
    lemma_user_props_concat(a1 + a2 + a3, a4);
    lemma_user_props_concat(a1 + a2 + a3 + a4, a5);
    lemma_user_props_concat(a1 + a2 + a3 + a4 + a5, a6);
    lemma_user_props_concat(a1 + a2 + a3 + a4 + a5 + a6, a7);
    lemma_user_props_concat(a1 + a2 + a3 + a4 + a5 + a6 + a7, a8);
    lemma_user_props_concat(a1 + a2 + a3 + a4 + a5 + a6 + a7 + a8, a9);
    assert(user_props(connect_prop_list(m)) =~= m.user_properties);
}

/// The list says the properties back.
#[verifier::spinoff_prover]
#[verifier::rlimit(40)]
proof fn lemma_connect_prop_list(m: ConnectPropertiesModel)
    ensures
        props_bytes(connect_prop_list(m)) == spec_connect_properties_body(m),
        connect_properties_of(connect_prop_list(m)) == m,
{
    lemma_connect_prop_list_bytes(m);
    lemma_connect_prop_list_users(m);
    let a1 = opt_prop(17, int_prop(m.session_expiry_interval));
    let a2 = opt_prop(33, short_prop(m.receive_maximum));
    let a3 = opt_prop(39, int_prop(m.max_packet_size));
    let a4 = opt_prop(34, short_prop(m.topic_alias_max));
    let a5 = opt_prop(25, byte_prop(m.request_response_info));
    let a6 = opt_prop(23, byte_prop(m.request_problem_info));
    let a7 = user_prop_list(m.user_properties);
    let a8 = opt_prop(21, str_prop(m.authentication_method));
    let a9 = opt_prop(22, bin_prop(m.authentication_data));
    lemma_opt_prop(17, int_prop(m.session_expiry_interval));
    lemma_opt_prop(33, short_prop(m.receive_maximum));
    lemma_opt_prop(39, int_prop(m.max_packet_size));
    lemma_opt_prop(34, short_prop(m.topic_alias_max));
    lemma_opt_prop(25, byte_prop(m.request_response_info));
    lemma_opt_prop(23, byte_prop(m.request_problem_info));
    lemma_opt_prop(21, str_prop(m.authentication_method));
    lemma_opt_prop(22, bin_prop(m.authentication_data));
    lemma_user_list_last_prop(m.user_properties, 17);
    lemma_user_list_last_prop(m.user_properties, 33);
    lemma_user_list_last_prop(m.user_properties, 39);
    lemma_user_list_last_prop(m.user_properties, 34);
    lemma_user_list_last_prop(m.user_properties, 25);
    lemma_user_list_last_prop(m.user_properties, 23);
    lemma_user_list_last_prop(m.user_properties, 21);
    lemma_user_list_last_prop(m.user_properties, 22);
    lemma_last_of_parts(a1, a2, a3, a4, a5, a6, a7, a8, a9, 17);
    lemma_last_of_parts(a1, a2, a3, a4, a5, a6, a7, a8, a9, 33);
    lemma_last_of_parts(a1, a2, a3, a4, a5, a6, a7, a8, a9, 39);
    lemma_last_of_parts(a1, a2, a3, a4, a5, a6, a7, a8, a9, 34);
    lemma_last_of_parts(a1, a2, a3, a4, a5, a6, a7, a8, a9, 25);
    lemma_last_of_parts(a1, a2, a3, a4, a5, a6, a7, a8, a9, 23);
    lemma_last_of_parts(a1, a2, a3, a4, a5, a6, a7, a8, a9, 21);
    lemma_last_of_parts(a1, a2, a3, a4, a5, a6, a7, a8, a9, 22);
}

/// CONNECT properties that the library writes read back as themselves, or
/// as no properties when there are none to write, whatever follows them.
pub proof fn lemma_connect_properties_roundtrip(m: ConnectPropertiesModel, rest: Seq<u8>)
    requires
        connect_properties_fit(m),
    ensures
        spec_read_connect_properties(spec_connect_properties_bytes(m) + rest) == Ok::<
            (Option<ConnectPropertiesModel>, Seq<u8>),
            PacketParseError,
        >(
            (
                if spec_connect_properties_body(m).len() == 0 {
                    None
                } else {
                    Some(m)
                },
                rest,
            ),
        ),
{
    let ps = connect_prop_list(m);
    lemma_connect_prop_list(m);
    let ctx = PropertyContext::Connect;
    lemma_opt_prop_ok(ctx, 17, int_prop(m.session_expiry_interval));
    lemma_opt_prop_ok(ctx, 33, short_prop(m.receive_maximum));
    lemma_opt_prop_ok(ctx, 39, int_prop(m.max_packet_size));
    lemma_opt_prop_ok(ctx, 34, short_prop(m.topic_alias_max));
    lemma_opt_prop_ok(ctx, 25, byte_prop(m.request_response_info));
    lemma_opt_prop_ok(ctx, 23, byte_prop(m.request_problem_info));
    lemma_user_list_ok(ctx, m.user_properties);
    lemma_opt_prop_ok(ctx, 21, str_prop(m.authentication_method));
    lemma_opt_prop_ok(ctx, 22, bin_prop(m.authentication_data));
    let a1 = opt_prop(17, int_prop(m.session_expiry_interval));
    let a2 = opt_prop(33, short_prop(m.receive_maximum));
    let a3 = opt_prop(39, int_prop(m.max_packet_size));
    let a4 = opt_prop(34, short_prop(m.topic_alias_max));
    let a5 = opt_prop(25, byte_prop(m.request_response_info));
    let a6 = opt_prop(23, byte_prop(m.request_problem_info));
    let a7 = user_prop_list(m.user_properties);
    let a8 = opt_prop(21, str_prop(m.authentication_method));
    let a9 = opt_prop(22, bin_prop(m.authentication_data));
    lemma_all_ok_concat(ctx, a1, a2);
    lemma_all_ok_concat(ctx, a1 + a2, a3);
    lemma_all_ok_concat(ctx, a1 + a2 + a3, a4);
    lemma_all_ok_concat(ctx, a1 + a2 + a3 + a4, a5);
    lemma_all_ok_concat(ctx, a1 + a2 + a3 + a4 + a5, a6);
    lemma_all_ok_concat(ctx, a1 + a2 + a3 + a4 + a5 + a6, a7);
    lemma_all_ok_concat(ctx, a1 + a2 + a3 + a4 + a5 + a6 + a7, a8);
    lemma_all_ok_concat(ctx, a1 + a2 + a3 + a4 + a5 + a6 + a7 + a8, a9);
    assert(all_ok(ctx, ps));
    lemma_props_section_roundtrip(ctx, ps, rest);
    assert(spec_connect_properties_bytes(m) + rest =~= spec_encode_varint(props_bytes(ps).len())
        + props_bytes(ps) + rest);
    if ps.len() != 0 {
        assert(props_bytes(ps).len() > 0) by {
            assert(props_bytes(ps) =~= crate::protocol::packet::property_laws::prop_bytes(ps[0])
                + props_bytes(ps.skip(1)));
        }
    } else {
        assert(props_bytes(ps) =~= Seq::<u8>::empty());
    }
}

} // verus!
