//! The CONNECT packet and its parts.
use crate::buffer::{
    bytes_mut_freeze, bytes_mut_new, bytes_mut_put_u16, bytes_mut_put_u8, bytes_mut_set,
    bytes_mut_view, bytes_view, max_buffer_len, u16_bytes,
};
use crate::protocol::packet::connect::login::{
    spec_login_bytes, spec_login_flags, spec_login_len, Login, LoginModel,
};
use crate::protocol::packet::connect::properties::{
    spec_connect_properties_body, spec_connect_properties_bytes, ConnectProperties,
    ConnectPropertiesModel,
};
use crate::protocol::packet::connect::will::{
    spec_will_bytes, spec_will_flags, spec_will_len, LastWill, LastWillModel,
};
use crate::protocol::packet::connect::willproperties::{
    spec_will_properties_body, LastWillProperties, LastWillPropertiesModel,
};
use crate::protocol::packet::{
    lemma_encode_varint_len_usize, spec_encode_varint, spec_mqtt_bytes, utf8_bytes,
    write_mqtt_string, write_remaining_length,
};
use crate::protocol::options::{MqttOptions, MqttOptionsModel};
use crate::protocol::{len_len, spec_len_len, PacketParseError, Protocol};
use crate::spec_qos_to_u8;
use bytes::{Bytes, BytesMut};
use std::sync::Arc;
use vstd::prelude::*;

pub mod login;
pub mod properties;
pub mod will;
pub mod willproperties;

verus! {

/// Connection packet initiated by the client
pub struct Connect {
    /// Mqtt protocol version
    pub protocol: Protocol,
    /// Mqtt keep alive time
    pub keep_alive: u16,
    /// Client Id
    pub client_id: Arc<String>,
    /// Clean session. Asks the broker to clear previous state
    pub clean_session: bool,
    /// Will that broker needs to publish when the client disconnects
    pub last_will: Option<LastWill>,
    /// Login credentials
    pub login: Option<Login>,
    will_properties: Option<LastWillProperties>,
    connect_properties: Option<ConnectProperties>,
}

/// A CONNECT packet, as plain data.
pub struct ConnectModel {
    pub protocol: Protocol,
    pub keep_alive: u16,
    pub client_id: Seq<char>,
    pub clean_session: bool,
    pub last_will: Option<LastWillModel>,
    pub login: Option<LoginModel>,
    pub connect_properties: Option<ConnectPropertiesModel>,
}

impl View for Connect {
    type V = ConnectModel;

    closed spec fn view(&self) -> ConnectModel {
        ConnectModel {
            protocol: self.protocol,
            keep_alive: self.keep_alive,
            client_id: (*self.client_id)@,
            clean_session: self.clean_session,
            last_will: match self.last_will {
                Some(w) => Some(w@),
                None => None,
            },
            login: match self.login {
                Some(l) => Some(l@),
                None => None,
            },
            connect_properties: match self.connect_properties {
                Some(p) => Some(p@),
                None => None,
            },
        }
    }
}

/// The remaining length that `Connect::write` announces: protocol name,
/// version, flags and keep alive, the MQTT 5 property list (its length
/// counted by `len_len`), the client identifier, the will and the login.
pub open spec fn spec_connect_len(c: ConnectModel) -> int {
    2 + 4 + 1 + 1 + 2 + (match c.protocol {
        Protocol::V4 => 0,
        Protocol::V5 => match c.connect_properties {
            Some(p) => spec_len_len(spec_connect_properties_body(p).len() as int)
                + spec_connect_properties_body(p).len(),
            None => 1,
        },
    }) + 2 + utf8_bytes(c.client_id).len() + (match c.last_will {
        Some(w) => spec_will_len(w),
        None => 0,
    }) + (match c.login {
        Some(l) => spec_login_len(l) as int,
        None => 0,
    })
}

/// The connect flags: clean session, the will's flags and the login's flags.
pub open spec fn spec_connect_flags(c: ConnectModel) -> u8 {
    (if c.clean_session {
        2u8
    } else {
        0u8
    }) | (match c.last_will {
        Some(w) => spec_will_flags(w),
        None => 0u8,
    }) | (match c.login {
        Some(l) => spec_login_flags(l),
        None => 0u8,
    })
}

/// The start of the encoded packet, with `flags` as its connect flags byte:
/// type byte, remaining length, protocol name, version, flags, keep alive and
/// the MQTT 5 property list.
pub open spec fn spec_connect_head(c: ConnectModel, flags: u8) -> Seq<u8> {
    seq![0x10u8] + spec_encode_varint(spec_connect_len(c) as nat) + seq![0u8, 4u8, 77u8, 81u8, 84u8, 84u8]
        + seq![
        (match c.protocol {
            Protocol::V4 => 4u8,
            Protocol::V5 => 5u8,
        }),
        flags,
    ] + u16_bytes(c.keep_alive) + (match c.protocol {
        Protocol::V4 => Seq::<u8>::empty(),
        Protocol::V5 => match c.connect_properties {
            Some(p) => spec_connect_properties_bytes(p),
            None => seq![0u8],
        },
    })
}

/// The rest of the encoded packet: client identifier, will and login.
pub open spec fn spec_connect_tail(c: ConnectModel) -> Seq<u8> {
    spec_mqtt_bytes(utf8_bytes(c.client_id)) + (match c.last_will {
        Some(w) => spec_will_bytes(w),
        None => Seq::<u8>::empty(),
    }) + (match c.login {
        Some(l) => spec_login_bytes(l),
        None => Seq::<u8>::empty(),
    })
}

/// The encoded packet, with `flags` as its connect flags byte.
pub open spec fn spec_connect_bytes(c: ConnectModel, flags: u8) -> Seq<u8> {
    spec_connect_head(c, flags) + spec_connect_tail(c)
}

/// What `Connect::write` needs so that no count overflows and the buffer
/// can grow.
pub open spec fn connect_fits(c: ConnectModel, buffered: int) -> bool {
    &&& spec_connect_len(c) <= usize::MAX
    &&& buffered + 30 + spec_connect_bytes(c, 0).len() <= max_buffer_len()
    &&& (c.connect_properties matches Some(p) ==> spec_connect_properties_body(p).len()
        <= usize::MAX)
    &&& (c.last_will matches Some(w) ==> (w.properties matches Some(p)
        ==> spec_will_properties_body(p).len() <= usize::MAX))
}

/// The bits of a connect flags byte made of a clean session flag `cl`, will
/// flags `wf` and login flags `lf`.
proof fn lemma_connect_flag_bits(cl: bool, wp: bool, q: u8, wr: bool, un: bool, pw: bool)
    requires
        q <= 2,
    ensures
        ({
            let wf: u8 = if wp {
                (4 + 8 * q + (if wr {
                    32u8
                } else {
                    0u8
                })) as u8
            } else {
                0u8
            };
            let lf: u8 = (if un {
                0x80u8
            } else {
                0u8
            }) | (if pw {
                0x40u8
            } else {
                0u8
            });
            let f: u8 = (if cl {
                2u8
            } else {
                0u8
            }) | wf | lf;
            &&& (f & 0x02 != 0) == cl
            &&& (f & 0x04 != 0) == wp
            &&& (wp ==> (f & 0x18) >> 3 == q)
            &&& (wp ==> (f & 0x20 != 0) == wr)
            &&& (!wp ==> f & 0x38 == 0)
            &&& (f & 0x80 != 0) == un
            &&& (f & 0x40 != 0) == pw
            &&& f & 0x01 == 0
        }),
{
    assert({
        let wf: u8 = if wp {
            (4 + 8 * q + (if wr {
                32u8
            } else {
                0u8
            })) as u8
        } else {
            0u8
        };
        let lf: u8 = (if un {
            0x80u8
        } else {
            0u8
        }) | (if pw {
            0x40u8
        } else {
            0u8
        });
        let f: u8 = (if cl {
            2u8
        } else {
            0u8
        }) | wf | lf;
        &&& (f & 0x02 != 0) == cl
        &&& (f & 0x04 != 0) == wp
        &&& (wp ==> (f & 0x18) >> 3 == q)
        &&& (wp ==> (f & 0x20 != 0) == wr)
        &&& (!wp ==> f & 0x38 == 0)
        &&& (f & 0x80 != 0) == un
        &&& (f & 0x40 != 0) == pw
        &&& f & 0x01 == 0
    }) by (bit_vector)
        requires
            q <= 2,
    ;
}

/// Each part of a CONNECT has its own bits in the connect flags byte: bit 1
/// is set exactly for a clean session, bit 2 exactly when there is a will,
/// bits 3 and 4 hold the number of the will's QoS and bit 5 its retain flag
/// (all three clear without a will), bit 7 is set exactly for a non-empty
/// user name and bit 6 for a non-empty password, and bit 0 is clear.
pub proof fn lemma_connect_flags_bits(c: ConnectModel)
    ensures
        (spec_connect_flags(c) & 0x02 != 0) == c.clean_session,
        (spec_connect_flags(c) & 0x04 != 0) == (c.last_will is Some),
        match c.last_will {
            Some(w) => (spec_connect_flags(c) & 0x18) >> 3 == spec_qos_to_u8(w.qos) && (
            spec_connect_flags(c) & 0x20 != 0) == w.retain,
            None => spec_connect_flags(c) & 0x38 == 0,
        },
        (spec_connect_flags(c) & 0x80 != 0) == (c.login matches Some(l) && l.username.len() > 0),
        (spec_connect_flags(c) & 0x40 != 0) == (c.login matches Some(l) && l.password.len() > 0),
        spec_connect_flags(c) & 0x01 == 0,
{
    let q: u8 = match c.last_will {
        Some(w) => spec_qos_to_u8(w.qos),
        None => 0,
    };
    let wr = match c.last_will {
        Some(w) => w.retain,
        None => false,
    };
    let un = c.login matches Some(l) && l.username.len() > 0;
    let pw = c.login matches Some(l) && l.password.len() > 0;
    let wf: u8 = if c.last_will is Some {
        (4 + 8 * q + (if wr {
            32u8
        } else {
            0u8
        })) as u8
    } else {
        0u8
    };
    let lf: u8 = (if un {
        0x80u8
    } else {
        0u8
    }) | (if pw {
        0x40u8
    } else {
        0u8
    });
    assert(match c.last_will {
        Some(w) => spec_will_flags(w),
        None => 0u8,
    } == wf);
    assert(match c.login {
        Some(l) => spec_login_flags(l),
        None => 0u8,
    } == lf) by {
        assert((0u8 | 0u8) == 0u8) by (bit_vector);
    }
    assert(spec_connect_flags(c) == (if c.clean_session {
        2u8
    } else {
        0u8
    }) | wf | lf);
    lemma_connect_flag_bits(c.clean_session, c.last_will is Some, q, wr, un, pw);
}

/// The CONNECT packet that a client with these options sends.
pub open spec fn spec_connect_of(o: MqttOptionsModel, protocol: Protocol) -> ConnectModel {
    ConnectModel {
        protocol,
        keep_alive: o.keep_alive,
        client_id: o.client_id,
        clean_session: o.clean_session,
        last_will: o.last_will,
        login: match o.credentials {
            Some((u, p)) => Some(LoginModel { username: u, password: p }),
            None => None,
        },
        connect_properties: None,
    }
}

/// Putting the full connect flags in place of the clean session flag gives
/// the packet with the full flags.
proof fn lemma_flags_in_place(c: ConnectModel, clean: u8, flags: u8)
    ensures
        spec_connect_bytes(c, clean).update(
            1 + spec_encode_varint(spec_connect_len(c) as nat).len() as int + 7,
            flags,
        ) == spec_connect_bytes(c, flags),
{
    assert(spec_connect_bytes(c, clean).update(
        1 + spec_encode_varint(spec_connect_len(c) as nat).len() as int + 7,
        flags,
    ) =~= spec_connect_bytes(c, flags));
}

impl Connect {
    /// The encoded CONNECT packet for these options.
    pub fn new(option: &MqttOptions, protocol: Protocol) -> (r: Result<Bytes, PacketParseError>)
        requires
            connect_fits(spec_connect_of(option@, protocol), 0),
        ensures
            r matches Ok(b) && bytes_view(b) == spec_connect_bytes(
                spec_connect_of(option@, protocol),
                spec_connect_flags(spec_connect_of(option@, protocol)),
            ),
    {
        let login = match option.credentials() {
            None => None,
            Some((u, p)) => Some(Login { username: u, password: p }),
        };
        let packet = Connect {
            protocol,
            keep_alive: option.keep_alive(),
            client_id: option.client_id(),
            clean_session: option.clean_session(),
            last_will: option.last_will(),
            login,
            will_properties: None,
            connect_properties: None,
        };
        assert(packet@ == spec_connect_of(option@, protocol));
        let mut bytes = bytes_mut_new();
        let ghost clean: u8 = if packet@.clean_session {
            2u8
        } else {
            0u8
        };
        packet.write(&mut bytes)?;
        proof {
            assert(Seq::<u8>::empty() + spec_connect_bytes(packet@, clean) =~= spec_connect_bytes(
                packet@,
                clean,
            ));
            lemma_flags_in_place(packet@, clean, spec_connect_flags(packet@));
        }
        Ok(bytes_mut_freeze(bytes))
    }

    /// The remaining length of the encoded packet.
    fn remaining_len(&self) -> (r: usize)
        requires
            connect_fits(self@, 0),
        ensures
            r == spec_connect_len(self@),
    {
        let mut len: usize = 2 + 4 + 1 + 1 + 2;
        match self.protocol {
            Protocol::V4 => {},
            Protocol::V5 => {
                if let Some(p) = &self.connect_properties {
                    let properties_len = p.len();
                    let properties_len_len = len_len(properties_len);
                    len = len + properties_len_len + properties_len;
                } else {
                    len = len + 1;
                }
            },
        }
        len = len + 2 + self.client_id.as_str().as_bytes().len();
        if let Some(w) = &self.last_will {
            len = len + w.len();
        }
        if let Some(l) = &self.login {
            len = len + l.len();
        }
        len
    }

    /// Appends the start of the packet; returns how many bytes the remaining
    /// length takes.
    fn write_head(&self, buffer: &mut BytesMut, len: usize, flags: u8) -> (count: usize)
        requires
            len == spec_connect_len(self@),
            connect_fits(self@, bytes_mut_view(*old(buffer)).len() as int),
        ensures
            bytes_mut_view(*final(buffer)) == bytes_mut_view(*old(buffer)) + spec_connect_head(
                self@,
                flags,
            ),
            count == spec_encode_varint(len as nat).len(),
    {
        let ghost start = bytes_mut_view(*buffer);
        proof {
            lemma_encode_varint_len_usize(len);
        }
        bytes_mut_put_u8(buffer, 0x10);
        let count = write_remaining_length(buffer, len);
        bytes_mut_put_u16(buffer, 4);
        bytes_mut_put_u8(buffer, 77);
        bytes_mut_put_u8(buffer, 81);
        bytes_mut_put_u8(buffer, 84);
        bytes_mut_put_u8(buffer, 84);
        let version: u8 = match self.protocol {
            Protocol::V4 => 0x04,
            Protocol::V5 => 0x05,
        };
        bytes_mut_put_u8(buffer, version);
        bytes_mut_put_u8(buffer, flags);
        bytes_mut_put_u16(buffer, self.keep_alive);
        let ghost fixed = bytes_mut_view(*buffer);
        assert(fixed =~= start + seq![0x10u8] + spec_encode_varint(len as nat) + seq![0u8, 4u8, 77u8, 81u8, 84u8, 84u8]
            + seq![version, flags] + u16_bytes(self.keep_alive));
        match self.protocol {
            Protocol::V4 => {},
            Protocol::V5 => {
                match &self.connect_properties {
                    Some(p) => {
                        let _ = p.write(buffer);
                    },
                    None => {
                        proof {
                            reveal_with_fuel(spec_encode_varint, 2);
                        }
                        write_remaining_length(buffer, 0);
                    },
                };
            },
        }
        assert(bytes_mut_view(*buffer) =~= start + spec_connect_head(self@, flags));
        count
    }

    /// Appends the client identifier, the will and the login; returns the
    /// connect flags of the will and the login.
    fn write_tail(&self, buffer: &mut BytesMut) -> (flags: u8)
        requires
            bytes_mut_view(*old(buffer)).len() + 14 + spec_connect_tail(self@).len()
                <= max_buffer_len(),
            self@.last_will matches Some(w) ==> (w.properties matches Some(p)
                ==> spec_will_properties_body(p).len() <= usize::MAX),
        ensures
            bytes_mut_view(*final(buffer)) == bytes_mut_view(*old(buffer)) + spec_connect_tail(
                self@,
            ),
            flags == (match self@.last_will {
                Some(w) => spec_will_flags(w),
                None => 0u8,
            }) | (match self@.login {
                Some(l) => spec_login_flags(l),
                None => 0u8,
            }),
    {
        let ghost start = bytes_mut_view(*buffer);
        write_mqtt_string(buffer, self.client_id.as_str());
        let ghost after_id = bytes_mut_view(*buffer);
        let mut will_flags: u8 = 0;
        if let Some(w) = &self.last_will {
            will_flags = match w.write(buffer) {
                Ok(f) => f,
                Err(_) => 0,
            };
        }
        let ghost after_will = bytes_mut_view(*buffer);
        assert(after_will =~= start + spec_mqtt_bytes(utf8_bytes(self@.client_id)) + (
        match self@.last_will {
            Some(w) => spec_will_bytes(w),
            None => Seq::<u8>::empty(),
        }));
        let mut login_flags: u8 = 0;
        if let Some(l) = &self.login {
            login_flags = l.write(buffer);
        }
        assert(bytes_mut_view(*buffer) =~= start + spec_connect_tail(self@));
        will_flags | login_flags
    }

    /// Appends the encoded packet; returns the remaining length it announces.
    /// The connect flags are written last, at the place they take in a packet
    /// written to an empty buffer.
    pub fn write(&self, buffer: &mut BytesMut) -> (r: Result<usize, PacketParseError>)
        requires
            connect_fits(self@, bytes_mut_view(*old(buffer)).len() as int),
        ensures
            r == Ok::<usize, PacketParseError>(spec_connect_len(self@) as usize),
            bytes_mut_view(*final(buffer)) == (bytes_mut_view(*old(buffer)) + spec_connect_bytes(
                self@,
                if self@.clean_session {
                    2u8
                } else {
                    0u8
                },
            )).update(
                1 + spec_encode_varint(spec_connect_len(self@) as nat).len() as int + 7,
                spec_connect_flags(self@),
            ),
    {
        let ghost start = bytes_mut_view(*buffer);
        let len = self.remaining_len();
        let clean_flag: u8 = if self.clean_session {
            2
        } else {
            0
        };
        proof {
            lemma_encode_varint_len_usize(len);
        }
        let count = self.write_head(buffer, len, clean_flag);
        let flags_index = 1 + count + 2 + 4 + 1;
        let other_flags = self.write_tail(buffer);
        assert(bytes_mut_view(*buffer) =~= start + spec_connect_bytes(self@, clean_flag));
        let connect_flags = clean_flag | other_flags;
        assert(clean_flag | other_flags == spec_connect_flags(self@)) by {
            let a = clean_flag;
            let b: u8 = match self@.last_will {
                Some(w) => spec_will_flags(w),
                None => 0u8,
            };
            let c: u8 = match self@.login {
                Some(l) => spec_login_flags(l),
                None => 0u8,
            };
            assert(a | (b | c) == (a | b) | c) by (bit_vector);
        }
        bytes_mut_set(buffer, flags_index, connect_flags);
        Ok(len)
    }
}

} // verus!
