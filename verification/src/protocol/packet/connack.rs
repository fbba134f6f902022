//! The CONNACK packet: the broker's answer to a connection request.
use crate::buffer::{bytes_advance, bytes_view};
use crate::protocol::packet::property::{
    last_bin, last_byte, last_int, last_short, last_str, opt_bin, opt_byte, opt_bytes_view,
    opt_int, opt_short, opt_str, last_prop, props_model, read_properties, spec_read_props_section,
    user_properties, user_props, PropertyContext, PropertyModel,
};
use crate::protocol::packet::{read_u8, spec_read_u8};
use crate::protocol::{FixedHeader, PacketParseError, Protocol};
use bytes::Bytes;
use vstd::prelude::*;

verus! {

/// Acknowledgement to connect packet
pub struct ConnAck {
    pub session_present: bool,
    pub code: ConnectReturnCode,
    pub properties: Option<ConnAckProperties>,
}

pub struct ConnAckProperties {
    pub session_expiry_interval: Option<u32>,
    pub receive_max: Option<u16>,
    pub max_qos: Option<u8>,
    pub retain_available: Option<u8>,
    pub max_packet_size: Option<u32>,
    pub assigned_client_identifier: Option<String>,
    pub topic_alias_max: Option<u16>,
    pub reason_string: Option<String>,
    pub user_properties: Vec<(String, String)>,
    pub wildcard_subscription_available: Option<u8>,
    pub subscription_identifiers_available: Option<u8>,
    pub shared_subscription_available: Option<u8>,
    pub server_keep_alive: Option<u16>,
    pub response_information: Option<String>,
    pub server_reference: Option<String>,
    pub authentication_method: Option<String>,
    pub authentication_data: Option<Bytes>,
}

/// The properties of a CONNACK packet, as plain data.
pub struct ConnAckPropertiesModel {
    pub session_expiry_interval: Option<u32>,
    pub receive_max: Option<u16>,
    pub max_qos: Option<u8>,
    pub retain_available: Option<u8>,
    pub max_packet_size: Option<u32>,
    pub assigned_client_identifier: Option<Seq<char>>,
    pub topic_alias_max: Option<u16>,
    pub reason_string: Option<Seq<char>>,
    pub user_properties: Seq<(Seq<char>, Seq<char>)>,
    pub wildcard_subscription_available: Option<u8>,
    pub subscription_identifiers_available: Option<u8>,
    pub shared_subscription_available: Option<u8>,
    pub server_keep_alive: Option<u16>,
    pub response_information: Option<Seq<char>>,
    pub server_reference: Option<Seq<char>>,
    pub authentication_method: Option<Seq<char>>,
    pub authentication_data: Option<Seq<u8>>,
}

impl View for ConnAckProperties {
    type V = ConnAckPropertiesModel;

    open spec fn view(&self) -> ConnAckPropertiesModel {
        ConnAckPropertiesModel {
            session_expiry_interval: self.session_expiry_interval,
            receive_max: self.receive_max,
            max_qos: self.max_qos,
            retain_available: self.retain_available,
            max_packet_size: self.max_packet_size,
            assigned_client_identifier: self.assigned_client_identifier.deep_view(),
            topic_alias_max: self.topic_alias_max,
            reason_string: self.reason_string.deep_view(),
            user_properties: self.user_properties.deep_view(),
            wildcard_subscription_available: self.wildcard_subscription_available,
            subscription_identifiers_available: self.subscription_identifiers_available,
            shared_subscription_available: self.shared_subscription_available,
            server_keep_alive: self.server_keep_alive,
            response_information: self.response_information.deep_view(),
            server_reference: self.server_reference.deep_view(),
            authentication_method: self.authentication_method.deep_view(),
            authentication_data: opt_bytes_view(self.authentication_data),
        }
    }
}

/// What a CONNACK property list says: for each property the value of its last
/// occurrence, and the user properties in order.
pub open spec fn connack_properties_of(ps: Seq<(u8, PropertyModel)>) -> ConnAckPropertiesModel {
    ConnAckPropertiesModel {
        session_expiry_interval: opt_int(last_prop(ps, 17)),
        receive_max: opt_short(last_prop(ps, 33)),
        max_qos: opt_byte(last_prop(ps, 36)),
        retain_available: opt_byte(last_prop(ps, 37)),
        max_packet_size: opt_int(last_prop(ps, 39)),
        assigned_client_identifier: opt_str(last_prop(ps, 18)),
        topic_alias_max: opt_short(last_prop(ps, 34)),
        reason_string: opt_str(last_prop(ps, 31)),
        user_properties: user_props(ps),
        wildcard_subscription_available: opt_byte(last_prop(ps, 40)),
        subscription_identifiers_available: opt_byte(last_prop(ps, 41)),
        shared_subscription_available: opt_byte(last_prop(ps, 42)),
        server_keep_alive: opt_short(last_prop(ps, 19)),
        response_information: opt_str(last_prop(ps, 26)),
        server_reference: opt_str(last_prop(ps, 28)),
        authentication_method: opt_str(last_prop(ps, 21)),
        authentication_data: opt_bin(last_prop(ps, 22)),
    }
}

/// Reads the property list of a CONNACK packet: what it says, and what
/// follows it.
pub open spec fn spec_read_connack_properties(s: Seq<u8>) -> Result<
    (Option<ConnAckPropertiesModel>, Seq<u8>),
    PacketParseError,
> {
    match spec_read_props_section(PropertyContext::ConnAck, s) {
        Ok((None, rest)) => Ok((None, rest)),
        Ok((Some(ps), rest)) => Ok((Some(connack_properties_of(ps)), rest)),
        Err(e) => Err(e),
    }
}

/// Return code in conn ack
#[derive(Debug, Clone, Copy, PartialEq, Eq, Structural)]
pub enum ConnectReturnCode {
    Success,
    Fail(ConnectReturnFailCode),
}

#[derive(Debug, Clone, Copy, PartialEq, Eq, Structural)]
pub enum ConnectReturnFailCode {
    FailV3(ConnectReturnFailCodeV3),
    FailV5(ConnectReturnCodeV5),
}

#[derive(Debug, Clone, Copy, PartialEq, Eq, Structural)]
pub enum ConnectReturnFailCodeV3 {
    RefusedProtocolVersion,
    /// The Client identifier is correct UTF-8 but not allowed by the Server
    BadClientId,
    ServiceUnavailable,
    BadUserNamePassword,
    NotAuthorized,
}

#[derive(Debug, Clone, Copy, PartialEq, Eq, Structural)]
pub enum ConnectReturnCodeV5 {
    RefusedProtocolVersion,
    BadClientId,
    ServiceUnavailable,
    UnspecifiedError,
    MalformedPacket,
    ProtocolError,
    ImplementationSpecificError,
    UnsupportedProtocolVersion,
    ClientIdentifierNotValid,
    BadUserNamePassword,
    NotAuthorized,
    ServerUnavailable,
    ServerBusy,
    Banned,
    BadAuthenticationMethod,
    TopicNameInvalid,
    PacketTooLarge,
    QuotaExceeded,
    PayloadFormatInvalid,
    RetainNotSupported,
    QoSNotSupported,
    UseAnotherServer,
    ServerMoved,
    ConnectionRateExceeded,
}

impl From<ConnectReturnFailCodeV3> for ConnectReturnCode {
    fn from(value: ConnectReturnFailCodeV3) -> (r: Self) {
        Self::Fail(ConnectReturnFailCode::FailV3(value))
    }
}

impl vstd::std_specs::convert::FromSpecImpl<ConnectReturnFailCodeV3> for ConnectReturnCode {
    open spec fn obeys_from_spec() -> bool {
        true
    }

    open spec fn from_spec(v: ConnectReturnFailCodeV3) -> Self {
        ConnectReturnCode::Fail(ConnectReturnFailCode::FailV3(v))
    }
}

impl From<ConnectReturnCodeV5> for ConnectReturnCode {
    fn from(value: ConnectReturnCodeV5) -> (r: Self) {
        Self::Fail(ConnectReturnFailCode::FailV5(value))
    }
}

impl vstd::std_specs::convert::FromSpecImpl<ConnectReturnCodeV5> for ConnectReturnCode {
    open spec fn obeys_from_spec() -> bool {
        true
    }

    open spec fn from_spec(v: ConnectReturnCodeV5) -> Self {
        ConnectReturnCode::Fail(ConnectReturnFailCode::FailV5(v))
    }
}

/// The return code of an MQTT 3.1.1 CONNACK that a number stands for.
pub open spec fn spec_connect_return_v3(num: u8) -> Result<ConnectReturnCode, PacketParseError> {
    if num == 0 {
        Ok(ConnectReturnCode::Success)
    } else if num == 1 {
        Ok(v3_fail(ConnectReturnFailCodeV3::RefusedProtocolVersion))
    } else if num == 2 {
        Ok(v3_fail(ConnectReturnFailCodeV3::BadClientId))
    } else if num == 3 {
        Ok(v3_fail(ConnectReturnFailCodeV3::ServiceUnavailable))
    } else if num == 4 {
        Ok(v3_fail(ConnectReturnFailCodeV3::BadUserNamePassword))
    } else if num == 5 {
        Ok(v3_fail(ConnectReturnFailCodeV3::NotAuthorized))
    } else {
        Err(PacketParseError::InvalidConnectReturnCode(num))
    }
}

pub open spec fn v3_fail(c: ConnectReturnFailCodeV3) -> ConnectReturnCode {
    ConnectReturnCode::Fail(ConnectReturnFailCode::FailV3(c))
}

pub open spec fn v5_fail(c: ConnectReturnCodeV5) -> ConnectReturnCode {
    ConnectReturnCode::Fail(ConnectReturnFailCode::FailV5(c))
}

/// The reason code of an MQTT 5 CONNACK that a number stands for.
pub open spec fn spec_connect_return_v5(num: u8) -> Result<ConnectReturnCode, PacketParseError> {
    if num == 0 {
        Ok(ConnectReturnCode::Success)
    } else if num == 128 {
        Ok(v5_fail(ConnectReturnCodeV5::UnspecifiedError))
    } else if num == 129 {
        Ok(v5_fail(ConnectReturnCodeV5::MalformedPacket))
    } else if num == 130 {
        Ok(v5_fail(ConnectReturnCodeV5::ProtocolError))
    } else if num == 131 {
        Ok(v5_fail(ConnectReturnCodeV5::ImplementationSpecificError))
    } else if num == 132 {
        Ok(v5_fail(ConnectReturnCodeV5::UnsupportedProtocolVersion))
    } else if num == 133 {
        Ok(v5_fail(ConnectReturnCodeV5::ClientIdentifierNotValid))
    } else if num == 134 {
        Ok(v5_fail(ConnectReturnCodeV5::BadUserNamePassword))
    } else if num == 135 {
        Ok(v5_fail(ConnectReturnCodeV5::NotAuthorized))
    } else if num == 136 {
        Ok(v5_fail(ConnectReturnCodeV5::ServerUnavailable))
    } else if num == 137 {
        Ok(v5_fail(ConnectReturnCodeV5::ServerBusy))
    } else if num == 138 {
        Ok(v5_fail(ConnectReturnCodeV5::Banned))
    } else if num == 140 {
        Ok(v5_fail(ConnectReturnCodeV5::BadAuthenticationMethod))
    } else if num == 144 {
        Ok(v5_fail(ConnectReturnCodeV5::TopicNameInvalid))
    } else if num == 149 {
        Ok(v5_fail(ConnectReturnCodeV5::PacketTooLarge))
    } else if num == 151 {
        Ok(v5_fail(ConnectReturnCodeV5::QuotaExceeded))
    } else if num == 153 {
        Ok(v5_fail(ConnectReturnCodeV5::PayloadFormatInvalid))
    } else if num == 154 {
        Ok(v5_fail(ConnectReturnCodeV5::RetainNotSupported))
    } else if num == 155 {
        Ok(v5_fail(ConnectReturnCodeV5::QoSNotSupported))
    } else if num == 156 {
        Ok(v5_fail(ConnectReturnCodeV5::UseAnotherServer))
    } else if num == 157 {
        Ok(v5_fail(ConnectReturnCodeV5::ServerMoved))
    } else if num == 159 {
        Ok(v5_fail(ConnectReturnCodeV5::ConnectionRateExceeded))
    } else {
        Err(PacketParseError::InvalidConnectReturnCode(num))
    }
}

/// MQTT 3.1.1 CONNACK return codes: the bytes 0 to 5 are accepted, 0 alone
/// is success, and no two bytes give the same code.
pub proof fn lemma_connack_v3_codes(b: u8, c: u8)
    ensures
        spec_connect_return_v3(b) is Ok <==> b <= 5,
        match spec_connect_return_v3(b) {
            Ok(r) => (r == ConnectReturnCode::Success) == (b == 0),
            Err(e) => e == PacketParseError::InvalidConnectReturnCode(b),
        },
        match (spec_connect_return_v3(b), spec_connect_return_v3(c)) {
            (Ok(x), Ok(y)) => b != c ==> x != y,
            _ => true,
        },
{
}

/// MQTT 5 CONNACK reason codes: 0 alone is success, every other accepted
/// byte is at least 0x80 and a refusal, and no two bytes give the same
/// code.
pub proof fn lemma_connack_v5_codes(b: u8, c: u8)
    ensures
        match spec_connect_return_v5(b) {
            Ok(r) => (r == ConnectReturnCode::Success) == (b == 0) && (b == 0 || b >= 0x80),
            Err(e) => e == PacketParseError::InvalidConnectReturnCode(b),
        },
        spec_connect_return_v5(b) is Ok <==> (b == 0 || 128 <= b <= 138 || b == 140 || b == 144
            || b == 149 || b == 151 || 153 <= b <= 157 || b == 159),
        match (spec_connect_return_v5(b), spec_connect_return_v5(c)) {
            (Ok(x), Ok(y)) => b != c ==> x != y,
            _ => true,
        },
{
}

/// Connection return code type
pub fn connect_return_v3(num: u8) -> (r: Result<ConnectReturnCode, PacketParseError>)
    ensures
        r == spec_connect_return_v3(num),
{
    match num {
        0 => Ok(ConnectReturnCode::Success),
        1 => Ok(ConnectReturnFailCodeV3::RefusedProtocolVersion.into()),
        2 => Ok(ConnectReturnFailCodeV3::BadClientId.into()),
        3 => Ok(ConnectReturnFailCodeV3::ServiceUnavailable.into()),
        4 => Ok(ConnectReturnFailCodeV3::BadUserNamePassword.into()),
        5 => Ok(ConnectReturnFailCodeV3::NotAuthorized.into()),
        num => Err(PacketParseError::InvalidConnectReturnCode(num)),
    }
}

/// Connection return code type
pub fn connect_return_v5(num: u8) -> (r: Result<ConnectReturnCode, PacketParseError>)
    ensures
        r == spec_connect_return_v5(num),
{
    let code = match num {
        0 => ConnectReturnCode::Success,
        128 => ConnectReturnCodeV5::UnspecifiedError.into(),
        129 => ConnectReturnCodeV5::MalformedPacket.into(),
        130 => ConnectReturnCodeV5::ProtocolError.into(),
        131 => ConnectReturnCodeV5::ImplementationSpecificError.into(),
        132 => ConnectReturnCodeV5::UnsupportedProtocolVersion.into(),
        133 => ConnectReturnCodeV5::ClientIdentifierNotValid.into(),
        134 => ConnectReturnCodeV5::BadUserNamePassword.into(),
        135 => ConnectReturnCodeV5::NotAuthorized.into(),
        136 => ConnectReturnCodeV5::ServerUnavailable.into(),
        137 => ConnectReturnCodeV5::ServerBusy.into(),
        138 => ConnectReturnCodeV5::Banned.into(),
        140 => ConnectReturnCodeV5::BadAuthenticationMethod.into(),
        144 => ConnectReturnCodeV5::TopicNameInvalid.into(),
        149 => ConnectReturnCodeV5::PacketTooLarge.into(),
        151 => ConnectReturnCodeV5::QuotaExceeded.into(),
        153 => ConnectReturnCodeV5::PayloadFormatInvalid.into(),
        154 => ConnectReturnCodeV5::RetainNotSupported.into(),
        155 => ConnectReturnCodeV5::QoSNotSupported.into(),
        156 => ConnectReturnCodeV5::UseAnotherServer.into(),
        157 => ConnectReturnCodeV5::ServerMoved.into(),
        159 => ConnectReturnCodeV5::ConnectionRateExceeded.into(),
        num => return Err(PacketParseError::InvalidConnectReturnCode(num)),
    };
    Ok(code)
}

impl ConnAckProperties {
    pub fn read(bytes: &mut Bytes) -> (r: Result<Option<ConnAckProperties>, PacketParseError>)
        ensures
            match spec_read_connack_properties(bytes_view(*old(bytes))) {
                Ok((None, rest)) => r matches Ok(None) && bytes_view(*final(bytes)) == rest,
                Ok((Some(m), rest)) => r matches Ok(Some(p)) && p@ == m && bytes_view(
                    *final(bytes),
                ) == rest,
                Err(e) => r == Err::<Option<ConnAckProperties>, PacketParseError>(e),
            },
    {
        let ps = match read_properties(bytes, PropertyContext::ConnAck)? {
            None => return Ok(None),
            Some(ps) => ps,
        };
        Ok(
            Some(
                ConnAckProperties {
                    session_expiry_interval: last_int(&ps, 17),
                    receive_max: last_short(&ps, 33),
                    max_qos: last_byte(&ps, 36),
                    retain_available: last_byte(&ps, 37),
                    max_packet_size: last_int(&ps, 39),
                    assigned_client_identifier: last_str(&ps, 18),
                    topic_alias_max: last_short(&ps, 34),
                    reason_string: last_str(&ps, 31),
                    user_properties: user_properties(&ps),
                    wildcard_subscription_available: last_byte(&ps, 40),
                    subscription_identifiers_available: last_byte(&ps, 41),
                    shared_subscription_available: last_byte(&ps, 42),
                    server_keep_alive: last_short(&ps, 19),
                    response_information: last_str(&ps, 26),
                    server_reference: last_str(&ps, 28),
                    authentication_method: last_str(&ps, 21),
                    authentication_data: last_bin(&ps, 22),
                },
            ),
        )
    }
}

/// A CONNACK packet, as plain data.
pub struct ConnAckModel {
    pub session_present: bool,
    pub code: ConnectReturnCode,
    pub properties: Option<ConnAckPropertiesModel>,
}

impl View for ConnAck {
    type V = ConnAckModel;

    open spec fn view(&self) -> ConnAckModel {
        ConnAckModel {
            session_present: self.session_present,
            code: self.code,
            properties: match self.properties {
                Some(p) => Some(p@),
                None => None,
            },
        }
    }
}

/// Reads a CONNACK packet whose fixed header takes `fixed_header_len` bytes:
/// the session flag (bit 0 of the first byte), the return code, and for
/// MQTT 5 the property list between them in the order read.
pub open spec fn spec_read_connack(fixed_header_len: int, s: Seq<u8>, version: Protocol) -> Result<
    ConnAckModel,
    PacketParseError,
> {
    let s1 = s.skip(fixed_header_len);
    match spec_read_u8(s1) {
        Err(e) => Err(e),
        Ok((flags, s2)) => match spec_read_u8(s2) {
            Err(e) => Err(e),
            Ok((return_code, s3)) => match version {
                Protocol::V4 => match spec_connect_return_v3(return_code) {
                    Ok(code) => Ok(
                        ConnAckModel { session_present: flags & 1 == 1, code, properties: None },
                    ),
                    Err(e) => Err(e),
                },
                Protocol::V5 => match spec_read_connack_properties(s3) {
                    Err(e) => Err(e),
                    Ok((properties, _)) => match spec_connect_return_v5(return_code) {
                        Ok(code) => Ok(
                            ConnAckModel { session_present: flags & 1 == 1, code, properties },
                        ),
                        Err(e) => Err(e),
                    },
                },
            },
        },
    }
}

impl ConnAck {
    pub fn read(fixed_header: FixedHeader, bytes: Bytes, version: Protocol) -> (r: Result<
        Self,
        PacketParseError,
    >)
        requires
            fixed_header.fixed_header_len <= bytes_view(bytes).len(),
        ensures
            match spec_read_connack(fixed_header.fixed_header_len as int, bytes_view(bytes), version) {
                Ok(m) => r matches Ok(c) && c@ == m,
                Err(e) => r matches Err(e2) && e2 == e,
            },
    {
        let mut bytes = bytes;
        let variable_header_index = fixed_header.fixed_header_len;
        bytes_advance(&mut bytes, variable_header_index);

        let flags = read_u8(&mut bytes)?;
        let return_code = read_u8(&mut bytes)?;

        let conn_ack = match version {
            Protocol::V4 => {
                let session_present = (flags & 0x01) == 1;
                let code = connect_return_v3(return_code)?;
                ConnAck { session_present, code, properties: None }
            },
            Protocol::V5 => {
                let properties = ConnAckProperties::read(&mut bytes)?;
                let session_present = (flags & 0x01) == 1;
                let code = connect_return_v5(return_code)?;
                ConnAck { session_present, code, properties }
            },
        };
        Ok(conn_ack)
    }
}

} // verus!
