//! The user name and password of a CONNECT packet.
use crate::buffer::{bytes_mut_view, bytes_view, max_buffer_len};
use crate::protocol::packet::{
    lemma_mqtt_string_roundtrip, read_mqtt_string, spec_mqtt_bytes, spec_read_mqtt_string,
    utf8_bytes, write_mqtt_string,
};
use crate::protocol::PacketParseError;
use bytes::{Bytes, BytesMut};
use std::sync::Arc;
use vstd::prelude::*;

verus! {

pub struct Login {
    pub username: Arc<String>,
    pub password: Arc<String>,
}

/// A user name and password, as text.
pub struct LoginModel {
    pub username: Seq<char>,
    pub password: Seq<char>,
}

impl View for Login {
    type V = LoginModel;

    open spec fn view(&self) -> LoginModel {
        LoginModel { username: (*self.username)@, password: (*self.password)@ }
    }
}

/// Reads the user name when bit 7 of the connect flags is set and the
/// password when bit 6 is; both absent or empty make no login.
pub open spec fn spec_read_login(connect_flags: u8, s: Seq<u8>) -> Result<
    (Option<LoginModel>, Seq<u8>),
    PacketParseError,
> {
    let user = if connect_flags & 0x80 == 0 {
        Ok((Seq::<char>::empty(), s))
    } else {
        spec_read_mqtt_string(s)
    };
    match user {
        Err(e) => Err(e),
        Ok((username, s1)) => {
            let pass = if connect_flags & 0x40 == 0 {
                Ok((Seq::<char>::empty(), s1))
            } else {
                spec_read_mqtt_string(s1)
            };
            match pass {
                Err(e) => Err(e),
                Ok((password, s2)) => if username.len() == 0 && password.len() == 0 {
                    Ok((None, s2))
                } else {
                    Ok((Some(LoginModel { username, password }), s2))
                },
            }
        },
    }
}

/// The bytes that a non-empty text takes in a CONNECT packet: none when it
/// is empty.
pub open spec fn spec_opt_string_field(t: Seq<char>) -> Seq<u8> {
    if t.len() == 0 {
        Seq::empty()
    } else {
        spec_mqtt_bytes(utf8_bytes(t))
    }
}

/// How many bytes the login takes in a CONNECT packet.
pub open spec fn spec_login_len(l: LoginModel) -> nat {
    spec_opt_string_field(l.username).len() + spec_opt_string_field(l.password).len()
}

/// The bytes of the login in a CONNECT packet.
pub open spec fn spec_login_bytes(l: LoginModel) -> Seq<u8> {
    spec_opt_string_field(l.username) + spec_opt_string_field(l.password)
}

/// The connect flags that a login sets.
pub open spec fn spec_login_flags(l: LoginModel) -> u8 {
    (if l.username.len() == 0 {
        0u8
    } else {
        0x80u8
    }) | (if l.password.len() == 0 {
        0u8
    } else {
        0x40u8
    })
}

/// The bytes that a login writes are as many as `len` counts: for each of
/// the two texts that is not empty, two bytes of length and its bytes.
pub proof fn lemma_login_bytes_len(l: LoginModel)
    ensures
        spec_login_bytes(l).len() == spec_login_len(l),
        spec_login_len(l) == (if l.username.len() == 0 {
            0
        } else {
            2 + utf8_bytes(l.username).len()
        }) + (if l.password.len() == 0 {
            0
        } else {
            2 + utf8_bytes(l.password).len()
        }),
{
}

impl Login {
    pub fn new(u: String, p: String) -> (r: Login)
        ensures
            r@.username == u@,
            r@.password == p@,
    {
        Login { username: Arc::new(u), password: Arc::new(p) }
    }

    pub fn read(connect_flags: u8, bytes: &mut Bytes) -> (r: Result<Option<Login>, PacketParseError>)
        ensures
            match spec_read_login(connect_flags, bytes_view(*old(bytes))) {
                Ok((None, rest)) => r matches Ok(None) && bytes_view(*final(bytes)) == rest,
                Ok((Some(m), rest)) => r matches Ok(Some(l)) && l@ == m && bytes_view(*final(bytes))
                    == rest,
                Err(e) => r == Err::<Option<Login>, PacketParseError>(e),
            },
    {
        let username = if connect_flags & 0b1000_0000 == 0 {
            String::new()
        } else {
            read_mqtt_string(bytes)?
        };
        let password = if connect_flags & 0b0100_0000 == 0 {
            String::new()
        } else {
            read_mqtt_string(bytes)?
        };
        if username.as_str().is_empty() && password.as_str().is_empty() {
            Ok(None)
        } else {
            Ok(Some(Login { username: Arc::new(username), password: Arc::new(password) }))
        }
    }

    pub fn len(&self) -> (r: usize)
        requires
            spec_login_len(self@) <= usize::MAX,
        ensures
            r == spec_login_len(self@),
    {
        let mut len: usize = 0;
        if !self.username.as_str().is_empty() {
            len = len + 2 + self.username.as_str().len();
        }
        if !self.password.as_str().is_empty() {
            len = len + 2 + self.password.as_str().len();
        }
        len
    }

    /// Appends the non-empty user name and password; returns the connect
    /// flags that announce them.
    pub fn write(&self, buffer: &mut BytesMut) -> (r: u8)
        requires
            bytes_mut_view(*old(buffer)).len() + spec_login_len(self@) <= max_buffer_len(),
        ensures
            bytes_mut_view(*final(buffer)) == bytes_mut_view(*old(buffer)) + spec_login_bytes(
                self@,
            ),
            r == spec_login_flags(self@),
    {
        let mut user_flag: u8 = 0;
        if !self.username.as_str().is_empty() {
            user_flag = 0x80;
            write_mqtt_string(buffer, self.username.as_str());
        }
        let mut password_flag: u8 = 0;
        if !self.password.as_str().is_empty() {
            password_flag = 0x40;
            write_mqtt_string(buffer, self.password.as_str());
        }
        assert(bytes_mut_view(*buffer) =~= bytes_mut_view(*old(buffer)) + spec_login_bytes(self@));
        user_flag | password_flag
    }

    pub fn validate(&self, username: &str, password: &str) -> (r: bool)
        ensures
            r == (self@.username == username@ && self@.password == password@),
    {
        let u = username.to_owned();
        let p = password.to_owned();
        (*self.username == u) && (*self.password == p)
    }
}

/// A login that the library writes reads back from the flags and bytes it
/// wrote, whatever follows: as no login when both texts are empty.
pub proof fn lemma_login_roundtrip(l: LoginModel, rest: Seq<u8>)
    requires
        utf8_bytes(l.username).len() <= 65535,
        utf8_bytes(l.password).len() <= 65535,
    ensures
        spec_read_login(spec_login_flags(l), spec_login_bytes(l) + rest) == Ok::<
            (Option<LoginModel>, Seq<u8>),
            PacketParseError,
        >(
            (
                if l.username.len() == 0 && l.password.len() == 0 {
                    None
                } else {
                    Some(l)
                },
                rest,
            ),
        ),
{
    let u: u8 = if l.username.len() == 0 {
        0
    } else {
        0x80
    };
    let p: u8 = if l.password.len() == 0 {
        0
    } else {
        0x40
    };
    assert(((u | p) & 0x80 == 0) == (u == 0) && ((u | p) & 0x40 == 0) == (p == 0)) by (bit_vector)
        requires
            u == 0 || u == 0x80,
            p == 0 || p == 0x40,
    ;
    let pass_part = spec_opt_string_field(l.password) + rest;
    assert(spec_login_bytes(l) + rest =~= spec_opt_string_field(l.username) + pass_part);
    if l.username.len() != 0 {
        lemma_mqtt_string_roundtrip(l.username, pass_part);
    } else {
        assert(spec_opt_string_field(l.username) + pass_part =~= pass_part);
        assert(l.username =~= Seq::<char>::empty());
    }
    if l.password.len() != 0 {
        lemma_mqtt_string_roundtrip(l.password, rest);
    } else {
        assert(spec_opt_string_field(l.password) + rest =~= rest);
        assert(l.password =~= Seq::<char>::empty());
    }
}

} // verus!
