//! The property list of a PUBACK: a reason string and user properties.
use crate::buffer::{bytes_mut_view, bytes_view, max_buffer_len};
use crate::protocol::packet::property::{
    read_reason_properties, spec_read_reason_properties, ReasonPropertiesModel,
};
use crate::protocol::packet::property_write::{
    opt_str_field, user_properties_len, user_props_bytes, write_opt_str, write_user_properties,
};
use crate::protocol::packet::{lemma_encode_varint_len_usize, spec_encode_varint,
    write_remaining_length};
use crate::protocol::PacketParseError;
use bytes::{Bytes, BytesMut};
use vstd::prelude::*;

verus! {

pub struct PubAckProperties {
    pub reason_string: Option<String>,
    pub user_properties: Vec<(String, String)>,
}

impl View for PubAckProperties {
    type V = ReasonPropertiesModel;

    open spec fn view(&self) -> ReasonPropertiesModel {
        ReasonPropertiesModel {
            reason_string: self.reason_string.deep_view(),
            user_properties: self.user_properties.deep_view(),
        }
    }
}

/// The encoded properties, without the length in front: the reason string,
/// then the user properties in order.
pub open spec fn spec_reason_properties_body(m: ReasonPropertiesModel) -> Seq<u8> {
    opt_str_field(31, m.reason_string) + user_props_bytes(m.user_properties)
}

impl PubAckProperties {
    /// The length of the encoded properties, without the length in front.
    pub fn len(&self) -> (r: usize)
        requires
            spec_reason_properties_body(self@).len() <= usize::MAX,
        ensures
            r == spec_reason_properties_body(self@).len(),
    {
        let mut len: usize = 0;
        if let Some(reason) = &self.reason_string {
            len = len + 1 + 2 + reason.as_str().as_bytes().len();
        }
        match user_properties_len(&self.user_properties, len) {
            Some(n) => n,
            None => 0,
        }
    }

    /// Appends the encoded property list: its length, then the properties.
    pub fn write(&self, buffer: &mut BytesMut)
        requires
            bytes_mut_view(*old(buffer)).len() + 10 + spec_reason_properties_body(self@).len()
                <= max_buffer_len(),
        ensures
            bytes_mut_view(*final(buffer)) == bytes_mut_view(*old(buffer)) + spec_encode_varint(
                spec_reason_properties_body(self@).len(),
            ) + spec_reason_properties_body(self@),
    {
        let ghost start = bytes_mut_view(*buffer);
        let len = self.len();
        proof {
            lemma_encode_varint_len_usize(len);
        }
        write_remaining_length(buffer, len);
        write_opt_str(buffer, 31, &self.reason_string);
        write_user_properties(buffer, &self.user_properties);
        assert(bytes_mut_view(*buffer) =~= start + spec_encode_varint(
            spec_reason_properties_body(self@).len(),
        ) + spec_reason_properties_body(self@));
    }

    pub fn read(bytes: &mut Bytes) -> (r: Result<Option<Self>, PacketParseError>)
        ensures
            match spec_read_reason_properties(bytes_view(*old(bytes))) {
                Ok((None, rest)) => r matches Ok(None) && bytes_view(*final(bytes)) == rest,
                Ok((Some(m), rest)) => r matches Ok(Some(p)) && p@ == m && bytes_view(
                    *final(bytes),
                ) == rest,
                Err(e) => r == Err::<Option<PubAckProperties>, PacketParseError>(e),
            },
    {
        match read_reason_properties(bytes)? {
            None => Ok(None),
            Some((reason_string, user_properties)) => Ok(
                Some(PubAckProperties { reason_string, user_properties }),
            ),
        }
    }
}

pub struct PubRecProperties {
    pub reason_string: Option<String>,
    pub user_properties: Vec<(String, String)>,
}

} // verus!
