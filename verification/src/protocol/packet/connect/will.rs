//! The last will of a CONNECT packet: what the broker publishes for the
//! client when the client goes away without a DISCONNECT.
use crate::buffer::{bytes_as_slice, bytes_from_vec, bytes_len, bytes_mut_view, bytes_view,
    max_buffer_len};
use crate::protocol::packet::connect::willproperties::{
    lemma_will_properties_roundtrip, spec_read_will_properties, spec_will_properties_body,
    spec_will_properties_bytes, will_properties_fit, LastWillProperties, LastWillPropertiesModel,
};
use crate::protocol::packet::{
    lemma_encode_varint_len_usize, lemma_mqtt_bytes_roundtrip, lemma_mqtt_string_roundtrip, read_mqtt_bytes, read_mqtt_string, spec_encode_varint,
    spec_mqtt_bytes, spec_read_mqtt_bytes, spec_read_mqtt_string, utf8_bytes, write_mqtt_bytes,
    write_mqtt_string, write_remaining_length,
};
use crate::protocol::{len_len, spec_len_len, PacketParseError};
use crate::{qos, spec_qos, spec_qos_to_u8, QoS};
use bytes::{Bytes, BytesMut};
use vstd::prelude::*;

verus! {

/// LastWill that broker forwards on behalf of the client
pub struct LastWill {
    pub topic: String,
    pub message: Bytes,
    pub qos: QoS,
    pub retain: bool,
    pub properties: Option<LastWillProperties>,
}

/// A last will, as plain data.
pub struct LastWillModel {
    pub topic: Seq<char>,
    pub message: Seq<u8>,
    pub qos: QoS,
    pub retain: bool,
    pub properties: Option<LastWillPropertiesModel>,
}

impl View for LastWill {
    type V = LastWillModel;

    open spec fn view(&self) -> LastWillModel {
        LastWillModel {
            topic: self.topic@,
            message: bytes_view(self.message),
            qos: self.qos,
            retain: self.retain,
            properties: match self.properties {
                Some(p) => Some(p@),
                None => None,
            },
        }
    }
}

/// How many bytes `LastWill::len` counts for a will: the property list (its
/// length counted by `len_len`), the topic and the message, each behind a
/// two-byte length.
pub open spec fn spec_will_len(m: LastWillModel) -> int {
    (match m.properties {
        Some(p) => spec_len_len(spec_will_properties_body(p).len() as int)
            + spec_will_properties_body(p).len(),
        None => 1,
    }) + 2 + utf8_bytes(m.topic).len() + 2 + m.message.len()
}

/// The bytes of a will in a CONNECT packet: the property list (an empty one
/// when there is none), the topic and the message.
pub open spec fn spec_will_bytes(m: LastWillModel) -> Seq<u8> {
    (match m.properties {
        Some(p) => spec_will_properties_bytes(p),
        None => seq![0u8],
    }) + spec_mqtt_bytes(utf8_bytes(m.topic)) + spec_mqtt_bytes(m.message)
}

/// The connect flags that a will sets: will present, its QoS, and retain.
pub open spec fn spec_will_flags(m: LastWillModel) -> u8 {
    (4 + 8 * spec_qos_to_u8(m.qos) + (if m.retain {
        32int
    } else {
        0int
    })) as u8
}

/// Reads the will that the connect flags announce (bit 2), with its QoS
/// (bits 3 and 4) and retain flag (bit 5); without bit 2, bits 3 to 5 must
/// be clear.
pub open spec fn spec_read_will(connect_flags: u8, s: Seq<u8>) -> Result<
    (Option<LastWillModel>, Seq<u8>),
    PacketParseError,
> {
    if connect_flags & 0b100 == 0 {
        if connect_flags & 0b0011_1000 != 0 {
            Err(PacketParseError::IncorrectPacketFormat)
        } else {
            Ok((None, s))
        }
    } else {
        match spec_read_will_properties(s) {
            Err(e) => Err(e),
            Ok((properties, s1)) => match spec_read_mqtt_string(s1) {
                Err(e) => Err(e),
                Ok((topic, s2)) => match spec_read_mqtt_bytes(s2) {
                    Err(e) => Err(e),
                    Ok((message, s3)) => match spec_qos((connect_flags & 0b11000) >> 3) {
                        None => Err(PacketParseError::InvalidQoS((connect_flags & 0b11000) >> 3)),
                        Some(q) => Ok(
                            (
                                Some(
                                    LastWillModel {
                                        topic,
                                        message,
                                        qos: q,
                                        retain: connect_flags & 0b0010_0000 != 0,
                                        properties,
                                    },
                                ),
                                s3,
                            ),
                        ),
                    },
                },
            },
        }
    }
}

/// The flag bits of a byte `4 + 8 * q + 32 * r`.
proof fn lemma_will_flag_bits(q: u8, rv: u8)
    requires
        q <= 2,
        rv <= 1,
    ensures
        ({
            let f: u8 = (4 + 8 * q + 32 * rv) as u8;
            &&& f & 0b100 != 0
            &&& (f & 0b11000) >> 3 == q
            &&& (f & 0b10_0000 != 0) == (rv == 1)
            &&& f & 0b1100_0011 == 0
        }),
{
    assert({
        let f: u8 = (4 + 8 * q + 32 * rv) as u8;
        &&& f & 0b100 != 0
        &&& (f & 0b11000) >> 3 == q
        &&& (f & 0b10_0000 != 0) == (rv == 1)
        &&& f & 0b1100_0011 == 0
    }) by (bit_vector)
        requires
            q <= 2,
            rv <= 1,
    ;
}

/// The connect flags of a will: bit 2 announces it, bits 3 and 4 hold the
/// number of its QoS, bit 5 its retain flag, and it sets no other bit.
pub proof fn lemma_will_flags_bits(m: LastWillModel)
    ensures
        spec_will_flags(m) & 0b100 != 0,
        (spec_will_flags(m) & 0b11000) >> 3 == spec_qos_to_u8(m.qos),
        spec_qos((spec_will_flags(m) & 0b11000) >> 3) == Some(m.qos),
        (spec_will_flags(m) & 0b10_0000 != 0) == m.retain,
        spec_will_flags(m) & 0b1100_0011 == 0,
{
    let rv: u8 = if m.retain {
        1
    } else {
        0
    };
    lemma_will_flag_bits(spec_qos_to_u8(m.qos), rv);
    assert(spec_will_flags(m) == (4 + 8 * spec_qos_to_u8(m.qos) + 32 * rv) as u8);
    crate::lemma_qos_roundtrip(m.qos);
}

/// A will that the library writes, with the connect flags it returns, reads
/// back as itself whatever follows it: its topic, message, QoS, retain flag
/// and properties.
pub proof fn lemma_will_roundtrip(m: LastWillModel, rest: Seq<u8>)
    requires
        utf8_bytes(m.topic).len() <= 65535,
        m.message.len() <= 65535,
        m.properties matches Some(p) ==> will_properties_fit(p) && spec_will_properties_body(p).len()
            > 0,
    ensures
        spec_read_will(spec_will_flags(m), spec_will_bytes(m) + rest) == Ok::<
            (Option<LastWillModel>, Seq<u8>),
            PacketParseError,
        >((Some(m), rest)),
{
    lemma_will_flags_bits(m);
    let t2 = spec_mqtt_bytes(m.message) + rest;
    let tail = spec_mqtt_bytes(utf8_bytes(m.topic)) + t2;
    let props = match m.properties {
        Some(p) => spec_will_properties_bytes(p),
        None => seq![0u8],
    };
    assert(spec_will_bytes(m) + rest =~= props + tail);
    assert(spec_read_will_properties(props + tail) == Ok::<
        (Option<LastWillPropertiesModel>, Seq<u8>),
        PacketParseError,
    >((m.properties, tail))) by {
        lemma_will_properties_read(m.properties, tail);
    }
    assert(spec_read_mqtt_string(tail) == Ok::<(Seq<char>, Seq<u8>), PacketParseError>(
        (m.topic, t2),
    )) by {
        lemma_mqtt_string_roundtrip(m.topic, t2);
    }
    assert(spec_read_mqtt_bytes(t2) == Ok::<(Seq<u8>, Seq<u8>), PacketParseError>(
        (m.message, rest),
    )) by {
        lemma_mqtt_bytes_roundtrip(m.message, rest);
    }
}

/// The property list that a will writes reads back as the will's
/// properties.
proof fn lemma_will_properties_read(props: Option<LastWillPropertiesModel>, tail: Seq<u8>)
    requires
        props matches Some(p) ==> will_properties_fit(p) && spec_will_properties_body(p).len() > 0,
    ensures
        spec_read_will_properties(
            match props {
                Some(p) => spec_will_properties_bytes(p),
                None => seq![0u8],
            } + tail,
        ) == Ok::<(Option<LastWillPropertiesModel>, Seq<u8>), PacketParseError>((props, tail)),
{
    match props {
        Some(p) => {
            lemma_will_properties_roundtrip(p, tail);
        },
        None => {
            let e = LastWillPropertiesModel {
                delay_interval: None,
                payload_format_indicator: None,
                message_expiry_interval: None,
                content_type: None,
                response_topic: None,
                correlation_data: None,
                user_properties: Seq::empty(),
            };
            assert(spec_will_properties_body(e) =~= Seq::<u8>::empty());
            reveal_with_fuel(spec_encode_varint, 2);
            assert(spec_will_properties_bytes(e) =~= seq![0u8]);
            lemma_will_properties_roundtrip(e, tail);
        },
    }
}

impl Clone for LastWill {
    fn clone(&self) -> (r: Self)
        ensures
            r@ == self@,
    {
        LastWill {
            topic: self.topic.clone(),
            message: crate::buffer::bytes_clone(&self.message),
            qos: self.qos,
            retain: self.retain,
            properties: match &self.properties {
                Some(p) => Some(p.clone()),
                None => None,
            },
        }
    }
}

impl LastWill {
    pub fn new(topic: String, payload: Vec<u8>, qos: QoS, retain: bool) -> (r: LastWill)
        ensures
            r@ == (LastWillModel {
                topic: topic@,
                message: payload@,
                qos,
                retain,
                properties: None,
            }),
    {
        LastWill { topic, message: bytes_from_vec(payload), qos, retain, properties: None }
    }

    pub fn len(&self) -> (r: usize)
        requires
            spec_will_len(self@) <= usize::MAX,
            self@.properties matches Some(p) ==> spec_will_properties_body(p).len() <= usize::MAX,
        ensures
            r == spec_will_len(self@),
    {
        let mut len: usize = 0;
        if let Some(p) = &self.properties {
            let properties_len = p.len();
            let properties_len_len = len_len(properties_len);
            len = len + properties_len_len + properties_len;
        } else {
            len = len + 1;
        }
        len = len + 2 + self.topic.as_str().as_bytes().len() + 2 + bytes_len(&self.message);
        len
    }

    pub fn read(connect_flags: u8, bytes: &mut Bytes) -> (r: Result<
        Option<LastWill>,
        PacketParseError,
    >)
        ensures
            match spec_read_will(connect_flags, bytes_view(*old(bytes))) {
                Ok((None, rest)) => r matches Ok(None) && bytes_view(*final(bytes)) == rest,
                Ok((Some(m), rest)) => r matches Ok(Some(w)) && w@ == m && bytes_view(*final(bytes))
                    == rest,
                Err(e) => r == Err::<Option<LastWill>, PacketParseError>(e),
            },
    {
        let o = if connect_flags & 0b100 == 0 {
            if connect_flags & 0b0011_1000 != 0 {
                return Err(PacketParseError::IncorrectPacketFormat);
            }
            None
        } else {
            let properties = LastWillProperties::read(bytes)?;
            let will_topic = read_mqtt_string(bytes)?;
            let will_message = read_mqtt_bytes(bytes)?;
            let qos_num = (connect_flags & 0b11000) >> 3;
            let will_qos = qos(qos_num)?;
            Some(
                LastWill {
                    topic: will_topic,
                    message: will_message,
                    qos: will_qos,
                    retain: (connect_flags & 0b0010_0000) != 0,
                    properties,
                },
            )
        };
        Ok(o)
    }

    /// Appends the will's properties, topic and message; returns the connect
    /// flags that announce the will.
    pub fn write(&self, buffer: &mut BytesMut) -> (r: Result<u8, PacketParseError>)
        requires
            bytes_mut_view(*old(buffer)).len() + 14 + spec_will_bytes(self@).len()
                <= max_buffer_len(),
            self@.properties matches Some(p) ==> spec_will_properties_body(p).len() <= usize::MAX,
        ensures
            r == Ok::<u8, PacketParseError>(spec_will_flags(self@)),
            bytes_mut_view(*final(buffer)) == bytes_mut_view(*old(buffer)) + spec_will_bytes(
                self@,
            ),
    {
        let ghost start = bytes_mut_view(*buffer);
        let q = self.qos.as_u8();
        let mut connect_flags: u8 = 4 + 8 * q;
        if self.retain {
            connect_flags = connect_flags + 32;
        }
        let ghost props_bytes = match self@.properties {
            Some(p) => spec_will_properties_bytes(p),
            None => seq![0u8],
        };
        if let Some(p) = &self.properties {
            p.write(buffer)?;
        } else {
            proof {
                reveal_with_fuel(spec_encode_varint, 2);
            }
            write_remaining_length(buffer, 0);
        }
        assert(bytes_mut_view(*buffer) =~= start + props_bytes);
        write_mqtt_string(buffer, self.topic.as_str());
        write_mqtt_bytes(buffer, bytes_as_slice(&self.message));
        assert(bytes_mut_view(*buffer) =~= start + spec_will_bytes(self@));
        Ok(connect_flags)
    }
}

} // verus!
