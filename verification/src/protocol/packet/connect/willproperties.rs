//! The property list of a last will.
use crate::buffer::{bytes_mut_view, bytes_view, max_buffer_len};
use crate::protocol::packet::property::{
    last_bin, last_byte, last_int, last_prop, last_str, opt_bin, opt_byte, opt_bytes_view, opt_int,
    opt_str, read_properties, spec_read_props_section, user_properties, user_props,
    PropertyContext, PropertyModel,
};
use crate::protocol::packet::property_write::{
    clone_opt_bytes, clone_opt_string, clone_user_properties,
    opt_bin_field, opt_str_field, opt_u32_field, opt_u8_field, user_properties_len,
    user_props_bytes, write_opt_bin, write_opt_str, write_opt_u32, write_opt_u8,
    write_user_properties,
};
use crate::protocol::packet::{lemma_encode_varint_len_usize, spec_encode_varint,
    write_remaining_length};
use crate::protocol::packet::connect::properties::{bin_prop, byte_prop, int_prop, str_prop};
use crate::protocol::packet::property_laws::{
    all_ok, lemma_all_ok_concat, lemma_last_prop_concat, lemma_opt_prop, lemma_opt_prop_ok,
    lemma_opt_prop_plain, lemma_props_bytes_concat, lemma_props_section_roundtrip,
    lemma_user_list_last_prop, lemma_user_list_ok, lemma_user_props_bytes,
    lemma_user_props_concat, opt_prop, prop_bytes, props_bytes, user_prop_list, user_props_fit,
};
use crate::protocol::packet::utf8_bytes;
use crate::protocol::PacketParseError;
use bytes::{Bytes, BytesMut};
use vstd::prelude::*;

verus! {

pub struct LastWillProperties {
    pub delay_interval: Option<u32>,
    pub payload_format_indicator: Option<u8>,
    pub message_expiry_interval: Option<u32>,
    pub content_type: Option<String>,
    pub response_topic: Option<String>,
    pub correlation_data: Option<Bytes>,
    pub user_properties: Vec<(String, String)>,
}

/// The properties of a last will, as plain data.
pub struct LastWillPropertiesModel {
    pub delay_interval: Option<u32>,
    pub payload_format_indicator: Option<u8>,
    pub message_expiry_interval: Option<u32>,
    pub content_type: Option<Seq<char>>,
    pub response_topic: Option<Seq<char>>,
    pub correlation_data: Option<Seq<u8>>,
    pub user_properties: Seq<(Seq<char>, Seq<char>)>,
}

impl View for LastWillProperties {
    type V = LastWillPropertiesModel;

    open spec fn view(&self) -> LastWillPropertiesModel {
        LastWillPropertiesModel {
            delay_interval: self.delay_interval,
            payload_format_indicator: self.payload_format_indicator,
            message_expiry_interval: self.message_expiry_interval,
            content_type: self.content_type.deep_view(),
            response_topic: self.response_topic.deep_view(),
            correlation_data: opt_bytes_view(self.correlation_data),
            user_properties: self.user_properties.deep_view(),
        }
    }
}

/// What a will property list says: for each property the value of its last
/// occurrence, and the user properties in order.
pub open spec fn will_properties_of(ps: Seq<(u8, PropertyModel)>) -> LastWillPropertiesModel {
    LastWillPropertiesModel {
        delay_interval: opt_int(last_prop(ps, 24)),
        payload_format_indicator: opt_byte(last_prop(ps, 1)),
        message_expiry_interval: opt_int(last_prop(ps, 2)),
        content_type: opt_str(last_prop(ps, 3)),
        response_topic: opt_str(last_prop(ps, 8)),
        correlation_data: opt_bin(last_prop(ps, 9)),
        user_properties: user_props(ps),
    }
}

/// Reads the property list of a last will: what it says, and what follows
/// it.
pub open spec fn spec_read_will_properties(s: Seq<u8>) -> Result<
    (Option<LastWillPropertiesModel>, Seq<u8>),
    PacketParseError,
> {
    match spec_read_props_section(PropertyContext::Will, s) {
        Ok((None, rest)) => Ok((None, rest)),
        Ok((Some(ps), rest)) => Ok((Some(will_properties_of(ps)), rest)),
        Err(e) => Err(e),
    }
}

/// The encoded properties, without the length in front.
pub open spec fn spec_will_properties_body(m: LastWillPropertiesModel) -> Seq<u8> {
    opt_u32_field(24, m.delay_interval) + opt_u8_field(1, m.payload_format_indicator)
        + opt_u32_field(2, m.message_expiry_interval) + opt_str_field(3, m.content_type)
        + opt_str_field(8, m.response_topic) + opt_bin_field(9, m.correlation_data)
        + user_props_bytes(m.user_properties)
}

/// The encoded property list: its length, then the properties.
pub open spec fn spec_will_properties_bytes(m: LastWillPropertiesModel) -> Seq<u8> {
    spec_encode_varint(spec_will_properties_body(m).len()) + spec_will_properties_body(m)
}

impl Clone for LastWillProperties {
    fn clone(&self) -> (r: Self)
        ensures
            r@ == self@,
    {
        LastWillProperties {
            delay_interval: self.delay_interval,
            payload_format_indicator: self.payload_format_indicator,
            message_expiry_interval: self.message_expiry_interval,
            content_type: clone_opt_string(&self.content_type),
            response_topic: clone_opt_string(&self.response_topic),
            correlation_data: clone_opt_bytes(&self.correlation_data),
            user_properties: clone_user_properties(&self.user_properties),
        }
    }
}

impl LastWillProperties {
    /// The length of the encoded properties, without the length in front.
    #[verifier::spinoff_prover]
    #[verifier::rlimit(40)]
    pub fn len(&self) -> (r: usize)
        requires
            spec_will_properties_body(self@).len() <= usize::MAX,
        ensures
            r == spec_will_properties_body(self@).len(),
    {
        let mut len: usize = 0;
        if self.delay_interval.is_some() {
            len = len + 1 + 4;
        }
        if self.payload_format_indicator.is_some() {
            len = len + 1 + 1;
        }
        if self.message_expiry_interval.is_some() {
            len = len + 1 + 4;
        }
        if let Some(typ) = &self.content_type {
            len = len + 1 + 2 + typ.as_str().as_bytes().len();
        }
        if let Some(topic) = &self.response_topic {
            len = len + 1 + 2 + topic.as_str().as_bytes().len();
        }
        if let Some(data) = &self.correlation_data {
            len = len + 1 + 2 + crate::buffer::bytes_len(data);
        }
        let ghost fixed = len;
        let len = match user_properties_len(&self.user_properties, len) {
            Some(n) => n,
            None => 0,
        };
        assert(len == fixed + user_props_bytes(self@.user_properties).len());
        len
    }

    pub fn read(bytes: &mut Bytes) -> (r: Result<Option<LastWillProperties>, PacketParseError>)
        ensures
            match spec_read_will_properties(bytes_view(*old(bytes))) {
                Ok((None, rest)) => r matches Ok(None) && bytes_view(*final(bytes)) == rest,
                Ok((Some(m), rest)) => r matches Ok(Some(p)) && p@ == m && bytes_view(
                    *final(bytes),
                ) == rest,
                Err(e) => r == Err::<Option<LastWillProperties>, PacketParseError>(e),
            },
    {
        let ps = match read_properties(bytes, PropertyContext::Will)? {
            None => return Ok(None),
            Some(ps) => ps,
        };
        Ok(
            Some(
                LastWillProperties {
                    delay_interval: last_int(&ps, 24),
                    payload_format_indicator: last_byte(&ps, 1),
                    message_expiry_interval: last_int(&ps, 2),
                    content_type: last_str(&ps, 3),
                    response_topic: last_str(&ps, 8),
                    correlation_data: last_bin(&ps, 9),
                    user_properties: user_properties(&ps),
                },
            ),
        )
    }

    /// Appends the encoded property list: its length, then the properties.
    #[verifier::spinoff_prover]
    #[verifier::rlimit(60)]
    pub fn write(&self, buffer: &mut BytesMut) -> (r: Result<(), PacketParseError>)
        requires
            bytes_mut_view(*old(buffer)).len() + 10 + spec_will_properties_body(self@).len()
                <= max_buffer_len(),
        ensures
            r is Ok,
            bytes_mut_view(*final(buffer)) == bytes_mut_view(*old(buffer))
                + spec_will_properties_bytes(self@),
    {
        let ghost start = bytes_mut_view(*buffer);
        let ghost body = spec_will_properties_body(self@);
        let len = self.len();
        proof {
            lemma_encode_varint_len_usize(len);
        }
        write_remaining_length(buffer, len);
        let ghost m = self@;
        let ghost after_len = bytes_mut_view(*buffer);
        let ghost f1 = opt_u32_field(24, m.delay_interval);
        let ghost f2 = opt_u8_field(1, m.payload_format_indicator);
        let ghost f3 = opt_u32_field(2, m.message_expiry_interval);
        let ghost f4 = opt_str_field(3, m.content_type);
        let ghost f5 = opt_str_field(8, m.response_topic);
        let ghost f6 = opt_bin_field(9, m.correlation_data);
        let ghost f7 = user_props_bytes(m.user_properties);
        assert(body == f1 + f2 + f3 + f4 + f5 + f6 + f7);
        assert(after_len.len() + body.len() <= max_buffer_len());
        write_opt_u32(buffer, 24, &self.delay_interval);
        write_opt_u8(buffer, 1, &self.payload_format_indicator);
        write_opt_u32(buffer, 2, &self.message_expiry_interval);
        assert(bytes_mut_view(*buffer) =~= after_len + f1 + f2 + f3);
        write_opt_str(buffer, 3, &self.content_type);
        write_opt_str(buffer, 8, &self.response_topic);
        assert(bytes_mut_view(*buffer) =~= after_len + f1 + f2 + f3 + f4 + f5);
        write_opt_bin(buffer, 9, &self.correlation_data);
        write_user_properties(buffer, &self.user_properties);
        assert(bytes_mut_view(*buffer) =~= after_len + body);
        assert(bytes_mut_view(*buffer) =~= start + spec_will_properties_bytes(self@));
        Ok(())
    }
}

/// The properties as a list, in the order they are written.
pub open spec fn will_prop_list(m: LastWillPropertiesModel) -> Seq<(u8, PropertyModel)> {
    opt_prop(24, int_prop(m.delay_interval)) + opt_prop(1, byte_prop(m.payload_format_indicator))
        + opt_prop(2, int_prop(m.message_expiry_interval)) + opt_prop(3, str_prop(m.content_type))
        + opt_prop(8, str_prop(m.response_topic)) + opt_prop(9, bin_prop(m.correlation_data))
        + user_prop_list(m.user_properties)
}

/// Whether the properties can be written and read back.
pub open spec fn will_properties_fit(m: LastWillPropertiesModel) -> bool {
    &&& spec_will_properties_body(m).len() < 268_435_456
    &&& user_props_fit(m.user_properties)
    &&& (m.content_type matches Some(t) ==> utf8_bytes(t).len() <= 65535)
    &&& (m.response_topic matches Some(t) ==> utf8_bytes(t).len() <= 65535)
    &&& (m.correlation_data matches Some(b) ==> b.len() <= 65535)
}

#[verifier::spinoff_prover]
#[verifier::rlimit(40)]
proof fn lemma_will_prop_list_bytes(m: LastWillPropertiesModel)
    ensures
        props_bytes(will_prop_list(m)) == spec_will_properties_body(m),
        user_props(will_prop_list(m)) == m.user_properties,
{
    let a1 = opt_prop(24, int_prop(m.delay_interval));
    let a2 = opt_prop(1, byte_prop(m.payload_format_indicator));
    let a3 = opt_prop(2, int_prop(m.message_expiry_interval));
    let a4 = opt_prop(3, str_prop(m.content_type));
    let a5 = opt_prop(8, str_prop(m.response_topic));
    let a6 = opt_prop(9, bin_prop(m.correlation_data));
    let a7 = user_prop_list(m.user_properties);
    lemma_opt_prop_plain(24, int_prop(m.delay_interval));
    lemma_opt_prop_plain(1, byte_prop(m.payload_format_indicator));
    lemma_opt_prop_plain(2, int_prop(m.message_expiry_interval));
    lemma_opt_prop_plain(3, str_prop(m.content_type));
    lemma_opt_prop_plain(8, str_prop(m.response_topic));
    lemma_opt_prop_plain(9, bin_prop(m.correlation_data));
    lemma_user_props_bytes(m.user_properties);
    let f1 = opt_u32_field(24, m.delay_interval);
    let f2 = opt_u8_field(1, m.payload_format_indicator);
    let f3 = opt_u32_field(2, m.message_expiry_interval);
    let f4 = opt_str_field(3, m.content_type);
    let f5 = opt_str_field(8, m.response_topic);
    let f6 = opt_bin_field(9, m.correlation_data);
    let f7 = user_props_bytes(m.user_properties);
    assert(props_bytes(a1) =~= f1);
    assert(props_bytes(a2) =~= f2);
    assert(props_bytes(a3) =~= f3);
    assert(props_bytes(a4) =~= f4);
    assert(props_bytes(a5) =~= f5);
    assert(props_bytes(a6) =~= f6);
    lemma_props_bytes_concat(a1, a2);
    let p2 = a1 + a2;
    lemma_props_bytes_concat(p2, a3);
    let p3 = p2 + a3;
    lemma_props_bytes_concat(p3, a4);
    let p4 = p3 + a4;
    lemma_props_bytes_concat(p4, a5);
    let p5 = p4 + a5;
    lemma_props_bytes_concat(p5, a6);
    let p6 = p5 + a6;
    lemma_props_bytes_concat(p6, a7);
    assert(props_bytes(p6 + a7) == f1 + f2 + f3 + f4 + f5 + f6 + f7);
    lemma_user_props_concat(a1, a2);
    lemma_user_props_concat(p2, a3);
    lemma_user_props_concat(p3, a4);
    lemma_user_props_concat(p4, a5);
    lemma_user_props_concat(p5, a6);
    lemma_user_props_concat(p6, a7);
    assert(user_props(p6 + a7) =~= m.user_properties);
}

/// The last occurrence of a property in seven lists, one after the other.
proof fn lemma_last_of_seven(
    a1: Seq<(u8, PropertyModel)>,
    a2: Seq<(u8, PropertyModel)>,
    a3: Seq<(u8, PropertyModel)>,
    a4: Seq<(u8, PropertyModel)>,
    a5: Seq<(u8, PropertyModel)>,
    a6: Seq<(u8, PropertyModel)>,
    a7: Seq<(u8, PropertyModel)>,
    x: u8,
)
    requires
        last_prop(a7, x) is None,
    ensures
        last_prop(a1 + a2 + a3 + a4 + a5 + a6 + a7, x) == (if last_prop(a6, x) is Some {
            last_prop(a6, x)
        } else if last_prop(a5, x) is Some {
            last_prop(a5, x)
        } else if last_prop(a4, x) is Some {
            last_prop(a4, x)
        } else if last_prop(a3, x) is Some {
            last_prop(a3, x)
        } else if last_prop(a2, x) is Some {
            last_prop(a2, x)
        } else {
            last_prop(a1, x)
        }),
{
    lemma_last_prop_concat(a1, a2, x);
    lemma_last_prop_concat(a1 + a2, a3, x);
    lemma_last_prop_concat(a1 + a2 + a3, a4, x);
    lemma_last_prop_concat(a1 + a2 + a3 + a4, a5, x);
    lemma_last_prop_concat(a1 + a2 + a3 + a4 + a5, a6, x);
    lemma_last_prop_concat(a1 + a2 + a3 + a4 + a5 + a6, a7, x);
}

#[verifier::spinoff_prover]
#[verifier::rlimit(40)]
proof fn lemma_will_prop_list(m: LastWillPropertiesModel)
    ensures
        props_bytes(will_prop_list(m)) == spec_will_properties_body(m),
        will_properties_of(will_prop_list(m)) == m,
{
    lemma_will_prop_list_bytes(m);
    let a1 = opt_prop(24, int_prop(m.delay_interval));
    let a2 = opt_prop(1, byte_prop(m.payload_format_indicator));
    let a3 = opt_prop(2, int_prop(m.message_expiry_interval));
    let a4 = opt_prop(3, str_prop(m.content_type));
    let a5 = opt_prop(8, str_prop(m.response_topic));
    let a6 = opt_prop(9, bin_prop(m.correlation_data));
    let a7 = user_prop_list(m.user_properties);
    lemma_opt_prop(24, int_prop(m.delay_interval));
    lemma_opt_prop(1, byte_prop(m.payload_format_indicator));
    lemma_opt_prop(2, int_prop(m.message_expiry_interval));
    lemma_opt_prop(3, str_prop(m.content_type));
    lemma_opt_prop(8, str_prop(m.response_topic));
    lemma_opt_prop(9, bin_prop(m.correlation_data));
    lemma_user_list_last_prop(m.user_properties, 24);
    lemma_user_list_last_prop(m.user_properties, 1);
    lemma_user_list_last_prop(m.user_properties, 2);
    lemma_user_list_last_prop(m.user_properties, 3);
    lemma_user_list_last_prop(m.user_properties, 8);
    lemma_user_list_last_prop(m.user_properties, 9);
    lemma_last_of_seven(a1, a2, a3, a4, a5, a6, a7, 24);
    lemma_last_of_seven(a1, a2, a3, a4, a5, a6, a7, 1);
    lemma_last_of_seven(a1, a2, a3, a4, a5, a6, a7, 2);
    lemma_last_of_seven(a1, a2, a3, a4, a5, a6, a7, 3);
    lemma_last_of_seven(a1, a2, a3, a4, a5, a6, a7, 8);
    lemma_last_of_seven(a1, a2, a3, a4, a5, a6, a7, 9);
}

/// Will properties that the library writes read back as themselves, or as
/// no properties when there are none to write, whatever follows them.
pub proof fn lemma_will_properties_roundtrip(m: LastWillPropertiesModel, rest: Seq<u8>)
    requires
        will_properties_fit(m),
    ensures
        spec_read_will_properties(spec_will_properties_bytes(m) + rest) == Ok::<
            (Option<LastWillPropertiesModel>, Seq<u8>),
            PacketParseError,
        >(
            (
                if spec_will_properties_body(m).len() == 0 {
                    None
                } else {
                    Some(m)
                },
                rest,
            ),
        ),
{
    let ps = will_prop_list(m);
    lemma_will_prop_list(m);
    let ctx = PropertyContext::Will;
    lemma_opt_prop_ok(ctx, 24, int_prop(m.delay_interval));
    lemma_opt_prop_ok(ctx, 1, byte_prop(m.payload_format_indicator));
    lemma_opt_prop_ok(ctx, 2, int_prop(m.message_expiry_interval));
    lemma_opt_prop_ok(ctx, 3, str_prop(m.content_type));
    lemma_opt_prop_ok(ctx, 8, str_prop(m.response_topic));
    lemma_opt_prop_ok(ctx, 9, bin_prop(m.correlation_data));
    lemma_user_list_ok(ctx, m.user_properties);
    let a1 = opt_prop(24, int_prop(m.delay_interval));
    let a2 = opt_prop(1, byte_prop(m.payload_format_indicator));
    let a3 = opt_prop(2, int_prop(m.message_expiry_interval));
    let a4 = opt_prop(3, str_prop(m.content_type));
    let a5 = opt_prop(8, str_prop(m.response_topic));
    let a6 = opt_prop(9, bin_prop(m.correlation_data));
    let a7 = user_prop_list(m.user_properties);
    lemma_all_ok_concat(ctx, a1, a2);
    lemma_all_ok_concat(ctx, a1 + a2, a3);
    lemma_all_ok_concat(ctx, a1 + a2 + a3, a4);
    lemma_all_ok_concat(ctx, a1 + a2 + a3 + a4, a5);
    lemma_all_ok_concat(ctx, a1 + a2 + a3 + a4 + a5, a6);
    lemma_all_ok_concat(ctx, a1 + a2 + a3 + a4 + a5 + a6, a7);
    assert(all_ok(ctx, ps));
    lemma_props_section_roundtrip(ctx, ps, rest);
    assert(spec_will_properties_bytes(m) + rest =~= spec_encode_varint(props_bytes(ps).len())
        + props_bytes(ps) + rest);
    if ps.len() != 0 {
        assert(props_bytes(ps).len() > 0) by {
            assert(props_bytes(ps) =~= prop_bytes(ps[0]) + props_bytes(ps.skip(1)));
        }
    } else {
        assert(props_bytes(ps) =~= Seq::<u8>::empty());
    }
}

} // verus!
