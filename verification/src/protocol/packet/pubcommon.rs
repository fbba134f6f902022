//! The four publish acknowledgements (PUBACK, PUBREC, PUBREL, PUBCOMP), which
//! share one layout: a packet identifier, and for MQTT 5 a reason code and a
//! property list.
use crate::buffer::{
    bytes_advance, bytes_mut_as_slice, bytes_mut_freeze, bytes_mut_len, bytes_mut_new,
    bytes_mut_put_u16, bytes_mut_put_u8, bytes_mut_view, bytes_view, max_buffer_len, u16_bytes,
};
use crate::protocol::packet::property::{
    read_reason_properties, spec_read_reason_properties, ReasonPropertiesModel,
};
use crate::protocol::packet::{
    read_u16, read_u8, spec_encode_varint, spec_mqtt_bytes, spec_read_u16, spec_read_u8, utf8_bytes,
    write_mqtt_bytes, write_mqtt_string, write_remaining_length,
};
use crate::protocol::{len_len, spec_len_len, FixedHeader, PacketParseError, Protocol};
use bytes::{Bytes, BytesMut};
use std::sync::Arc;
use vstd::prelude::*;
use vstd::string::StringSliceAdditionalSpecFns;

verus! {

pub type PubRel = PubCommon<PubRelTy>;

pub type PubAck = PubCommon<PubAckTy>;

pub type PubRec = PubCommon<PubRecTy>;

pub type PubComp = PubCommon<PubCompTy>;

/// Acknowledgement to QoS1 publish
pub enum PubCommon<Ty: Common> {
    V4 { packet_id: u16 },
    V5 {
        packet_id: u16,
        reason: Ty::Reason,
        reason_string: Option<String>,
        user_properties: Vec<(String, String)>,
    },
    V5WriteMode {
        packet_id: u16,
        reason: Ty::Reason,
        had_reason_string: bool,
        had_user_properties: bool,
        properties: BytesMut,
    },
}

pub struct PubCommonProperties {
    pub reason_string: Option<String>,
    pub user_properties: Vec<(String, String)>,
}

impl View for PubCommonProperties {
    type V = ReasonPropertiesModel;

    open spec fn view(&self) -> ReasonPropertiesModel {
        ReasonPropertiesModel {
            reason_string: self.reason_string.deep_view(),
            user_properties: self.user_properties.deep_view(),
        }
    }
}

/// An acknowledgement, as plain data.
pub enum PubCommonModel<R> {
    V4 { packet_id: u16 },
    V5 {
        packet_id: u16,
        reason: R,
        reason_string: Option<Seq<char>>,
        user_properties: Seq<(Seq<char>, Seq<char>)>,
    },
    V5WriteMode {
        packet_id: u16,
        reason: R,
        had_reason_string: bool,
        had_user_properties: bool,
        properties: Seq<u8>,
    },
}

impl<Ty: Common> View for PubCommon<Ty> {
    type V = PubCommonModel<Ty::Reason>;

    open spec fn view(&self) -> PubCommonModel<Ty::Reason> {
        match self {
            PubCommon::V4 { packet_id } => PubCommonModel::V4 { packet_id: *packet_id },
            PubCommon::V5 { packet_id, reason, reason_string, user_properties } =>
                PubCommonModel::V5 {
                packet_id: *packet_id,
                reason: *reason,
                reason_string: reason_string.deep_view(),
                user_properties: user_properties.deep_view(),
            },
            PubCommon::V5WriteMode {
                packet_id,
                reason,
                had_reason_string,
                had_user_properties,
                properties,
            } => PubCommonModel::V5WriteMode {
                packet_id: *packet_id,
                reason: *reason,
                had_reason_string: *had_reason_string,
                had_user_properties: *had_user_properties,
                properties: bytes_mut_view(*properties),
            },
        }
    }
}

/// Why a property can not be added to an acknowledgement.
#[derive(Debug, Clone, Copy, PartialEq, Eq, Structural)]
pub enum AckPropertyError {
    /// Only an MQTT 5 acknowledgement that is being built takes properties.
    NotWriteMode,
    /// The reason string is set already.
    ReasonStringSet,
}

/// The packet identifier of an acknowledgement.
pub open spec fn spec_packet_id<R>(m: PubCommonModel<R>) -> u16 {
    match m {
        PubCommonModel::V4 { packet_id } => packet_id,
        PubCommonModel::V5 { packet_id, .. } => packet_id,
        PubCommonModel::V5WriteMode { packet_id, .. } => packet_id,
    }
}

/// The remaining length that an acknowledgement being built is written with:
/// 2 for the packet identifier alone, when the reason is success and no
/// property was added; 3 with the reason code otherwise, and the property
/// list on top only when both a reason string and a user property were
/// noted.
pub open spec fn spec_pubcommon_len<Ty: Common>(m: PubCommonModel<Ty::Reason>) -> int {
    match m {
        PubCommonModel::V4 { .. } => 2,
        PubCommonModel::V5 { .. } => 0,
        PubCommonModel::V5WriteMode {
            reason,
            had_reason_string,
            had_user_properties,
            properties,
            ..
        } => if reason.spec_is_success() && !had_reason_string && !had_user_properties {
            2
        } else if had_reason_string && had_user_properties {
            3 + spec_len_len(properties.len() as int) + properties.len()
        } else {
            3
        },
    }
}

/// The bytes that an acknowledgement is written as.
pub open spec fn spec_pubcommon_bytes<Ty: Common>(m: PubCommonModel<Ty::Reason>) -> Seq<u8> {
    match m {
        PubCommonModel::V4 { packet_id } => seq![Ty::spec_ty()] + spec_encode_varint(2) + u16_bytes(
            packet_id,
        ),
        PubCommonModel::V5 { .. } => Seq::empty(),
        PubCommonModel::V5WriteMode { packet_id, reason, properties, .. } => {
            let len = spec_pubcommon_len::<Ty>(m);
            seq![Ty::spec_ty()] + spec_encode_varint(len as nat) + u16_bytes(packet_id) + if len
                == 2 {
                Seq::empty()
            } else {
                seq![reason.spec_code()] + spec_mqtt_bytes(properties)
            }
        },
    }
}

impl<Ty: Common> PubCommon<Ty> {
    pub fn new(packet_id: u16, protocol: Protocol) -> (r: Self)
        ensures
            r@ == match protocol {
                Protocol::V4 => PubCommonModel::<Ty::Reason>::V4 { packet_id },
                Protocol::V5 => PubCommonModel::V5WriteMode {
                    packet_id,
                    reason: Ty::spec_default_reason(),
                    had_reason_string: false,
                    had_user_properties: false,
                    properties: Seq::empty(),
                },
            },
    {
        match protocol {
            Protocol::V4 => Self::V4 { packet_id },
            Protocol::V5 => Self::V5WriteMode {
                packet_id,
                reason: Ty::default_reason(),
                had_reason_string: false,
                had_user_properties: false,
                properties: bytes_mut_new(),
            },
        }
    }

    pub fn packet_id(&self) -> (r: u16)
        ensures
            r == spec_packet_id(self@),
    {
        match self {
            PubCommon::V4 { packet_id, .. } => *packet_id,
            PubCommon::V5 { packet_id, .. } => *packet_id,
            PubCommon::V5WriteMode { packet_id, .. } => *packet_id,
        }
    }

    /// Adds a reason string to an MQTT 5 acknowledgement being built.
    pub fn set_reason_string(&mut self, reason_string: String) -> (r: Result<(), AckPropertyError>)
        requires
            match old(self)@ {
                PubCommonModel::V5WriteMode { properties, .. } => properties.len() + 3
                    + utf8_bytes(reason_string@).len() <= max_buffer_len(),
                _ => true,
            },
        ensures
            match old(self)@ {
                PubCommonModel::V5WriteMode {
                    packet_id,
                    reason,
                    had_reason_string,
                    had_user_properties,
                    properties,
                } => if had_reason_string {
                    r == Err::<(), AckPropertyError>(AckPropertyError::ReasonStringSet)
                        && final(self)@ == old(self)@
                } else {
                    r is Ok && final(self)@ == PubCommonModel::V5WriteMode {
                        packet_id,
                        reason,
                        had_reason_string,
                        had_user_properties,
                        properties: properties.push(31) + spec_mqtt_bytes(
                            utf8_bytes(reason_string@),
                        ),
                    }
                },
                _ => r == Err::<(), AckPropertyError>(AckPropertyError::NotWriteMode)
                    && final(self)@ == old(self)@,
            },
    {
        match self {
            PubCommon::V4 { .. } => Err(AckPropertyError::NotWriteMode),
            PubCommon::V5 { .. } => Err(AckPropertyError::NotWriteMode),
            PubCommon::V5WriteMode { had_reason_string, properties, .. } => {
                if *had_reason_string == true {
                    return Err(AckPropertyError::ReasonStringSet);
                }
                bytes_mut_put_u8(properties, 31);
                write_mqtt_string(properties, reason_string.as_str());
                Ok(())
            },
        }
    }

    /// Adds a user property to an MQTT 5 acknowledgement being built.
    pub fn add_user_property(&mut self, key: String, val: String) -> (r: Result<
        (),
        AckPropertyError,
    >)
        requires
            match old(self)@ {
                PubCommonModel::V5WriteMode { properties, .. } => properties.len() + 5
                    + utf8_bytes(key@).len() + utf8_bytes(val@).len()
                    <= max_buffer_len(),
                _ => true,
            },
        ensures
            match old(self)@ {
                PubCommonModel::V5WriteMode {
                    packet_id,
                    reason,
                    had_reason_string,
                    had_user_properties,
                    properties,
                } => r is Ok && final(self)@ == PubCommonModel::V5WriteMode {
                    packet_id,
                    reason,
                    had_reason_string,
                    had_user_properties: true,
                    properties: properties.push(38) + spec_mqtt_bytes(utf8_bytes(key@))
                        + spec_mqtt_bytes(utf8_bytes(val@)),
                },
                _ => r == Err::<(), AckPropertyError>(AckPropertyError::NotWriteMode)
                    && final(self)@ == old(self)@,
            },
    {
        match self {
            PubCommon::V4 { .. } => Err(AckPropertyError::NotWriteMode),
            PubCommon::V5 { .. } => Err(AckPropertyError::NotWriteMode),
            PubCommon::V5WriteMode { had_user_properties, properties, .. } => {
                *had_user_properties = true;
                bytes_mut_put_u8(properties, 38);
                write_mqtt_string(properties, key.as_str());
                write_mqtt_string(properties, val.as_str());
                Ok(())
            },
        }
    }

    /// The remaining length that an acknowledgement is written with.
    fn len(&self) -> (r: usize)
        requires
            !(self@ is V5),
        ensures
            r == spec_pubcommon_len::<Ty>(self@),
    {
        match self {
            PubCommon::V4 { .. } => 2,
            PubCommon::V5 { .. } => 0,
            PubCommon::V5WriteMode {
                reason,
                had_reason_string,
                had_user_properties,
                properties,
                ..
            } => {
                if reason.is_success() && !*had_reason_string && !*had_user_properties {
                    return 2;
                }
                let mut len = 2 + 1;  // packet_id + reason
                if *had_reason_string && *had_user_properties {
                    let properties_len = bytes_mut_len(properties);
                    let properties_len_len = len_len(properties_len);
                    len += properties_len_len + properties_len;
                }
                len
            },
        }
    }

    /// Writes the acknowledgement and returns the number of bytes that it
    /// counts as written. Only the forms that are built here (`V4` and
    /// `V5WriteMode`) are written; a `V5` read from the network is not.
    pub fn write(&self, buffer: &mut BytesMut) -> (count: usize)
        requires
            !(self@ is V5),
            bytes_mut_view(*old(buffer)).len() + spec_pubcommon_bytes::<Ty>(self@).len()
                <= max_buffer_len(),
        ensures
            bytes_mut_view(*final(buffer)) == bytes_mut_view(*old(buffer))
                + spec_pubcommon_bytes::<Ty>(self@),
            count == if spec_pubcommon_len::<Ty>(self@) == 2 {
                4
            } else {
                spec_pubcommon_len::<Ty>(self@) + 1 + spec_encode_varint(
                    spec_pubcommon_len::<Ty>(self@) as nat,
                ).len()
            },
    {
        let ghost start = bytes_mut_view(*buffer);
        match self {
            PubCommon::V4 { packet_id } => {
                bytes_mut_put_u8(buffer, Ty::ty());
                write_remaining_length(buffer, 2);
                bytes_mut_put_u16(buffer, *packet_id);
                assert(bytes_mut_view(*buffer) =~= start + spec_pubcommon_bytes::<Ty>(self@));
                4
            },
            PubCommon::V5 { .. } => 0,
            PubCommon::V5WriteMode { packet_id, reason, properties, .. } => {
                let len = self.len();
                bytes_mut_put_u8(buffer, Ty::ty());
                let count = write_remaining_length(buffer, len);
                bytes_mut_put_u16(buffer, *packet_id);
                if len == 2 {
                    assert(bytes_mut_view(*buffer) =~= start + spec_pubcommon_bytes::<Ty>(self@));
                    return 4;
                }
                bytes_mut_put_u8(buffer, reason.as_u8());
                write_mqtt_bytes(buffer, bytes_mut_as_slice(properties));
                assert(bytes_mut_view(*buffer) =~= start + spec_pubcommon_bytes::<Ty>(self@));
                len + 1 + count
            },
        }
    }

    /// The bytes of the acknowledgement.
    pub fn data(&self) -> (r: Arc<Bytes>)
        requires
            !(self@ is V5),
            spec_pubcommon_bytes::<Ty>(self@).len() <= max_buffer_len(),
        ensures
            bytes_view(*r) == spec_pubcommon_bytes::<Ty>(self@),
    {
        let mut buffer = bytes_mut_new();
        self.write(&mut buffer);
        assert(bytes_mut_view(buffer) =~= spec_pubcommon_bytes::<Ty>(self@));
        Arc::new(bytes_mut_freeze(buffer))
    }

    pub fn read_properties(bytes: &mut Bytes) -> (r: Result<
        Option<PubCommonProperties>,
        PacketParseError,
    >)
        ensures
            match spec_read_reason_properties(bytes_view(*old(bytes))) {
                Ok((None, rest)) => r matches Ok(None) && bytes_view(*final(bytes)) == rest,
                Ok((Some(m), rest)) => r matches Ok(Some(p)) && p@ == m && bytes_view(
                    *final(bytes),
                ) == rest,
                Err(e) => r == Err::<Option<PubCommonProperties>, PacketParseError>(e),
            },
    {
        match read_reason_properties(bytes)? {
            None => Ok(None),
            Some((reason_string, user_properties)) => Ok(
                Some(PubCommonProperties { reason_string, user_properties }),
            ),
        }
    }

    pub fn read(fixed_header: FixedHeader, bytes: Bytes, protocol: Protocol) -> (r: Result<
        Self,
        PacketParseError,
    >)
        requires
            fixed_header.fixed_header_len <= bytes_view(bytes).len(),
        ensures
            match spec_read_pubcommon::<Ty>(
                fixed_header.fixed_header_len as int,
                fixed_header.remaining_len as int,
                bytes_view(bytes),
                protocol,
            ) {
                Ok(m) => r matches Ok(p) && p@ == m,
                Err(e) => r matches Err(e2) && e2 == e,
            },
    {
        let mut bytes = bytes;
        let variable_header_index = fixed_header.fixed_header_len;
        bytes_advance(&mut bytes, variable_header_index);
        let packet_id = read_u16(&mut bytes)?;
        let user_properties: Vec<(String, String)> = Vec::new();
        assert(user_properties.deep_view() =~= Seq::<(Seq<char>, Seq<char>)>::empty());
        match protocol {
            Protocol::V4 => {
                if fixed_header.remaining_len == 2 {
                    return Ok(PubCommon::V4 { packet_id });
                } else {
                    return Err(PacketParseError::MalformedRemainingLength);
                }
            },
            Protocol::V5 => {
                if fixed_header.remaining_len == 2 {
                    return Ok(
                        PubCommon::V5 {
                            packet_id,
                            reason: Ty::default_reason(),
                            reason_string: None,
                            user_properties,
                        },
                    );
                } else {
                    let ack_reason = read_u8(&mut bytes)?;
                    if fixed_header.remaining_len < 4 {
                        return Ok(
                            PubCommon::V5 {
                                packet_id,
                                reason: Ty::reason(ack_reason)?,
                                reason_string: None,
                                user_properties,
                            },
                        );
                    }
                    let properties = match Self::read_properties(&mut bytes)? {
                        Some(properties) => properties,
                        None => {
                            return Ok(
                                PubCommon::V5 {
                                    packet_id,
                                    reason: Ty::reason(ack_reason)?,
                                    reason_string: None,
                                    user_properties,
                                },
                            );
                        },
                    };
                    return Ok(
                        PubCommon::V5 {
                            packet_id,
                            reason: Ty::reason(ack_reason)?,
                            reason_string: properties.reason_string,
                            user_properties: properties.user_properties,
                        },
                    );
                }
            },
        }
    }
}

/// Reads an acknowledgement whose fixed header takes `fixed_header_len`
/// bytes and announces `remaining_len` more. MQTT 3.1.1 takes exactly the
/// packet identifier; MQTT 5 takes a reason code when more than two bytes
/// remain and a property list when at least four do.
pub open spec fn spec_read_pubcommon<Ty: Common>(
    fixed_header_len: int,
    remaining_len: int,
    s: Seq<u8>,
    protocol: Protocol,
) -> Result<PubCommonModel<Ty::Reason>, PacketParseError> {
    match spec_read_u16(s.skip(fixed_header_len)) {
        Err(e) => Err(e),
        Ok((packet_id, s1)) => match protocol {
            Protocol::V4 => if remaining_len == 2 {
                Ok(PubCommonModel::V4 { packet_id })
            } else {
                Err(PacketParseError::MalformedRemainingLength)
            },
            Protocol::V5 => if remaining_len == 2 {
                Ok(
                    PubCommonModel::V5 {
                        packet_id,
                        reason: Ty::spec_default_reason(),
                        reason_string: None,
                        user_properties: Seq::empty(),
                    },
                )
            } else {
                match spec_read_u8(s1) {
                    Err(e) => Err(e),
                    Ok((ack_reason, s2)) => if remaining_len < 4 {
                        match Ty::spec_reason(ack_reason) {
                            Ok(reason) => Ok(
                                PubCommonModel::V5 {
                                    packet_id,
                                    reason,
                                    reason_string: None,
                                    user_properties: Seq::empty(),
                                },
                            ),
                            Err(e) => Err(e),
                        }
                    } else {
                        match spec_read_reason_properties(s2) {
                            Err(e) => Err(e),
                            Ok((props, _)) => match Ty::spec_reason(ack_reason) {
                                Err(e) => Err(e),
                                Ok(reason) => match props {
                                    None => Ok(
                                        PubCommonModel::V5 {
                                            packet_id,
                                            reason,
                                            reason_string: None,
                                            user_properties: Seq::empty(),
                                        },
                                    ),
                                    Some(p) => Ok(
                                        PubCommonModel::V5 {
                                            packet_id,
                                            reason,
                                            reason_string: p.reason_string,
                                            user_properties: p.user_properties,
                                        },
                                    ),
                                },
                            },
                        }
                    },
                }
            },
        },
    }
}

/// The identity of an acknowledgement kind: its reason codes and the first
/// byte of its fixed header.
pub trait Common {
    type Reason: Reason + Copy;

    /// The reason that a number stands for.
    spec fn spec_reason(num: u8) -> Result<Self::Reason, PacketParseError>;

    /// The first byte of the fixed header.
    spec fn spec_ty() -> u8;

    /// The reason an acknowledgement carries when none is given.
    spec fn spec_default_reason() -> Self::Reason;

    fn reason(num: u8) -> (r: Result<Self::Reason, PacketParseError>)
        ensures
            r == Self::spec_reason(num),
    ;

    fn ty() -> (r: u8)
        ensures
            r == Self::spec_ty(),
    ;

    fn default_reason() -> (r: Self::Reason)
        ensures
            r == Self::spec_default_reason(),
    ;
}

/// A reason code of an acknowledgement.
pub trait Reason: Sized {
    spec fn spec_is_success(&self) -> bool;

    /// The number this reason is written as.
    spec fn spec_code(&self) -> u8;

    fn is_success(&self) -> (r: bool)
        ensures
            r == self.spec_is_success(),
    ;

    fn as_u8(&self) -> (r: u8)
        ensures
            r == self.spec_code(),
    ;
}

pub struct PubRecTy;

/// Return code in connack
#[derive(Debug, Clone, Copy, PartialEq, Eq, Structural)]
pub enum PubRecReason {
    Success,
    NoMatchingSubscribers,
    UnspecifiedError,
    ImplementationSpecificError,
    NotAuthorized,
    TopicNameInvalid,
    PacketIdentifierInUse,
    QuotaExceeded,
    PayloadFormatInvalid,
}

/// The position of a PUBREC or PUBACK reason among its kind's reasons, which
/// is what such a reason is written as.
pub open spec fn spec_rec_index(r: PubRecReason) -> u8 {
    match r {
        PubRecReason::Success => 0,
        PubRecReason::NoMatchingSubscribers => 1,
        PubRecReason::UnspecifiedError => 2,
        PubRecReason::ImplementationSpecificError => 3,
        PubRecReason::NotAuthorized => 4,
        PubRecReason::TopicNameInvalid => 5,
        PubRecReason::PacketIdentifierInUse => 6,
        PubRecReason::QuotaExceeded => 7,
        PubRecReason::PayloadFormatInvalid => 8,
    }
}

impl Default for PubRecReason {
    fn default() -> (r: Self)
        ensures
            r == PubRecReason::Success,
    {
        Self::Success
    }
}

impl Reason for PubRecReason {
    open spec fn spec_is_success(&self) -> bool {
        *self == PubRecReason::Success
    }

    open spec fn spec_code(&self) -> u8 {
        spec_rec_index(*self)
    }

    fn is_success(&self) -> (r: bool) {
        *self == PubRecReason::Success
    }

    fn as_u8(&self) -> (r: u8) {
        match self {
            PubRecReason::Success => 0,
            PubRecReason::NoMatchingSubscribers => 1,
            PubRecReason::UnspecifiedError => 2,
            PubRecReason::ImplementationSpecificError => 3,
            PubRecReason::NotAuthorized => 4,
            PubRecReason::TopicNameInvalid => 5,
            PubRecReason::PacketIdentifierInUse => 6,
            PubRecReason::QuotaExceeded => 7,
            PubRecReason::PayloadFormatInvalid => 8,
        }
    }
}

/// The PUBREC reason that a number stands for.
pub open spec fn spec_rec_reason(num: u8) -> Result<PubRecReason, PacketParseError> {
    if num == 0 {
        Ok(PubRecReason::Success)
    } else if num == 16 {
        Ok(PubRecReason::NoMatchingSubscribers)
    } else if num == 128 {
        Ok(PubRecReason::UnspecifiedError)
    } else if num == 131 {
        Ok(PubRecReason::ImplementationSpecificError)
    } else if num == 135 {
        Ok(PubRecReason::NotAuthorized)
    } else if num == 144 {
        Ok(PubRecReason::TopicNameInvalid)
    } else if num == 145 {
        Ok(PubRecReason::PacketIdentifierInUse)
    } else if num == 151 {
        Ok(PubRecReason::QuotaExceeded)
    } else if num == 153 {
        Ok(PubRecReason::PayloadFormatInvalid)
    } else {
        Err(PacketParseError::InvalidConnectReturnCode(num))
    }
}

impl Common for PubRecTy {
    type Reason = PubRecReason;

    open spec fn spec_reason(num: u8) -> Result<PubRecReason, PacketParseError> {
        spec_rec_reason(num)
    }

    open spec fn spec_ty() -> u8 {
        0x50
    }

    open spec fn spec_default_reason() -> PubRecReason {
        PubRecReason::Success
    }

    fn reason(num: u8) -> (r: Result<PubRecReason, PacketParseError>) {
        let code = match num {
            0 => PubRecReason::Success,
            16 => PubRecReason::NoMatchingSubscribers,
            128 => PubRecReason::UnspecifiedError,
            131 => PubRecReason::ImplementationSpecificError,
            135 => PubRecReason::NotAuthorized,
            144 => PubRecReason::TopicNameInvalid,
            145 => PubRecReason::PacketIdentifierInUse,
            151 => PubRecReason::QuotaExceeded,
            153 => PubRecReason::PayloadFormatInvalid,
            num => return Err(PacketParseError::InvalidConnectReturnCode(num)),
        };
        Ok(code)
    }

    fn ty() -> (r: u8) {
        0x50
    }

    fn default_reason() -> (r: PubRecReason) {
        PubRecReason::default()
    }
}

pub struct PubRelTy;

#[derive(Debug, Clone, Copy, PartialEq, Eq, Structural)]
pub enum PubRelReason {
    Success,
    PacketIdentifierNotFound,
}

impl Reason for PubRelReason {
    open spec fn spec_is_success(&self) -> bool {
        *self == PubRelReason::Success
    }

    open spec fn spec_code(&self) -> u8 {
        match *self {
            PubRelReason::Success => 0,
            PubRelReason::PacketIdentifierNotFound => 1,
        }
    }

    fn is_success(&self) -> (r: bool) {
        *self == PubRelReason::Success
    }

    fn as_u8(&self) -> (r: u8) {
        match self {
            PubRelReason::Success => 0,
            PubRelReason::PacketIdentifierNotFound => 1,
        }
    }
}

impl Default for PubRelReason {
    fn default() -> (r: Self)
        ensures
            r == PubRelReason::Success,
    {
        Self::Success
    }
}

impl Common for PubRelTy {
    type Reason = PubRelReason;

    open spec fn spec_reason(num: u8) -> Result<PubRelReason, PacketParseError> {
        if num == 0 {
            Ok(PubRelReason::Success)
        } else if num == 146 {
            Ok(PubRelReason::PacketIdentifierNotFound)
        } else {
            Err(PacketParseError::InvalidConnectReturnCode(num))
        }
    }

    open spec fn spec_ty() -> u8 {
        0x62
    }

    open spec fn spec_default_reason() -> PubRelReason {
        PubRelReason::Success
    }

    fn reason(num: u8) -> (r: Result<PubRelReason, PacketParseError>) {
        let code = match num {
            0 => PubRelReason::Success,
            146 => PubRelReason::PacketIdentifierNotFound,
            num => return Err(PacketParseError::InvalidConnectReturnCode(num)),
        };
        Ok(code)
    }

    fn ty() -> (r: u8) {
        0x62
    }

    fn default_reason() -> (r: PubRelReason) {
        PubRelReason::default()
    }
}

pub struct PubCompTy;

#[derive(Debug, Clone, Copy, PartialEq, Eq, Structural)]
pub enum PubCompReason {
    Success,
    PacketIdentifierNotFound,
}

impl Reason for PubCompReason {
    open spec fn spec_is_success(&self) -> bool {
        *self == PubCompReason::Success
    }

    open spec fn spec_code(&self) -> u8 {
        match *self {
            PubCompReason::Success => 0,
            PubCompReason::PacketIdentifierNotFound => 1,
        }
    }

    fn is_success(&self) -> (r: bool) {
        *self == PubCompReason::Success
    }

    fn as_u8(&self) -> (r: u8) {
        match self {
            PubCompReason::Success => 0,
            PubCompReason::PacketIdentifierNotFound => 1,
        }
    }
}

impl Default for PubCompReason {
    fn default() -> (r: Self)
        ensures
            r == PubCompReason::Success,
    {
        Self::Success
    }
}

impl Common for PubCompTy {
    type Reason = PubCompReason;

    open spec fn spec_reason(num: u8) -> Result<PubCompReason, PacketParseError> {
        if num == 0 {
            Ok(PubCompReason::Success)
        } else if num == 146 {
            Ok(PubCompReason::PacketIdentifierNotFound)
        } else {
            Err(PacketParseError::InvalidConnectReturnCode(num))
        }
    }

    open spec fn spec_ty() -> u8 {
        0x70
    }

    open spec fn spec_default_reason() -> PubCompReason {
        PubCompReason::Success
    }

    fn reason(num: u8) -> (r: Result<PubCompReason, PacketParseError>) {
        let code = match num {
            0 => PubCompReason::Success,
            146 => PubCompReason::PacketIdentifierNotFound,
            num => return Err(PacketParseError::InvalidConnectReturnCode(num)),
        };
        Ok(code)
    }

    fn ty() -> (r: u8) {
        0x70
    }

    fn default_reason() -> (r: PubCompReason) {
        PubCompReason::default()
    }
}

#[derive(Debug, Clone, Copy, PartialEq, Eq, Structural)]
pub enum PubAckReason {
    Success,
    NoMatchingSubscribers,
    UnspecifiedError,
    ImplementationSpecificError,
    NotAuthorized,
    TopicNameInvalid,
    PacketIdentifierInUse,
    QuotaExceeded,
    PayloadFormatInvalid,
}

pub struct PubAckTy;

impl Reason for PubAckReason {
    open spec fn spec_is_success(&self) -> bool {
        *self == PubAckReason::Success
    }

    open spec fn spec_code(&self) -> u8 {
        match *self {
            PubAckReason::Success => 0,
            PubAckReason::NoMatchingSubscribers => 1,
            PubAckReason::UnspecifiedError => 2,
            PubAckReason::ImplementationSpecificError => 3,
            PubAckReason::NotAuthorized => 4,
            PubAckReason::TopicNameInvalid => 5,
            PubAckReason::PacketIdentifierInUse => 6,
            PubAckReason::QuotaExceeded => 7,
            PubAckReason::PayloadFormatInvalid => 8,
        }
    }

    fn is_success(&self) -> (r: bool) {
        *self == PubAckReason::Success
    }

    fn as_u8(&self) -> (r: u8) {
        match self {
            PubAckReason::Success => 0,
            PubAckReason::NoMatchingSubscribers => 1,
            PubAckReason::UnspecifiedError => 2,
            PubAckReason::ImplementationSpecificError => 3,
            PubAckReason::NotAuthorized => 4,
            PubAckReason::TopicNameInvalid => 5,
            PubAckReason::PacketIdentifierInUse => 6,
            PubAckReason::QuotaExceeded => 7,
            PubAckReason::PayloadFormatInvalid => 8,
        }
    }
}

impl Default for PubAckReason {
    fn default() -> (r: Self)
        ensures
            r == PubAckReason::Success,
    {
        Self::Success
    }
}

impl Common for PubAckTy {
    type Reason = PubAckReason;

    open spec fn spec_reason(num: u8) -> Result<PubAckReason, PacketParseError> {
        if num == 0 {
            Ok(PubAckReason::Success)
        } else if num == 16 {
            Ok(PubAckReason::NoMatchingSubscribers)
        } else if num == 128 {
            Ok(PubAckReason::UnspecifiedError)
        } else if num == 131 {
            Ok(PubAckReason::ImplementationSpecificError)
        } else if num == 135 {
            Ok(PubAckReason::NotAuthorized)
        } else if num == 144 {
            Ok(PubAckReason::TopicNameInvalid)
        } else if num == 145 {
            Ok(PubAckReason::PacketIdentifierInUse)
        } else if num == 151 {
            Ok(PubAckReason::QuotaExceeded)
        } else if num == 153 {
            Ok(PubAckReason::PayloadFormatInvalid)
        } else {
            Err(PacketParseError::InvalidConnectReturnCode(num))
        }
    }

    open spec fn spec_ty() -> u8 {
        0x40
    }

    open spec fn spec_default_reason() -> PubAckReason {
        PubAckReason::Success
    }

    fn reason(num: u8) -> (r: Result<PubAckReason, PacketParseError>) {
        let code = match num {
            0 => PubAckReason::Success,
            16 => PubAckReason::NoMatchingSubscribers,
            128 => PubAckReason::UnspecifiedError,
            131 => PubAckReason::ImplementationSpecificError,
            135 => PubAckReason::NotAuthorized,
            144 => PubAckReason::TopicNameInvalid,
            145 => PubAckReason::PacketIdentifierInUse,
            151 => PubAckReason::QuotaExceeded,
            153 => PubAckReason::PayloadFormatInvalid,
            num => return Err(PacketParseError::InvalidConnectReturnCode(num)),
        };
        Ok(code)
    }

    fn ty() -> (r: u8) {
        0x40
    }

    fn default_reason() -> (r: PubAckReason) {
        PubAckReason::default()
    }
}

/// PUBACK and PUBREC reason codes: the accepted bytes are 0x00, 0x10, 0x80,
/// 0x83, 0x87, 0x90, 0x91, 0x97 and 0x99; 0 alone is success; the two
/// kinds read each byte as the same reason; no two bytes give the same
/// reason.
pub proof fn lemma_puback_pubrec_reasons(b: u8, c: u8)
    ensures
        PubAckTy::spec_reason(b) is Ok <==> (b == 0 || b == 0x10 || b == 0x80 || b == 0x83 || b
            == 0x87 || b == 0x90 || b == 0x91 || b == 0x97 || b == 0x99),
        match PubAckTy::spec_reason(b) {
            Ok(r) => {
                &&& r.spec_is_success() == (b == 0)
                &&& PubRecTy::spec_reason(b) matches Ok(r2) && spec_rec_index(r2) == r.spec_code()
            },
            Err(e) => e == PacketParseError::InvalidConnectReturnCode(b) && PubRecTy::spec_reason(b)
                == Err::<PubRecReason, PacketParseError>(e),
        },
        match PubRecTy::spec_reason(b) {
            Ok(r) => r.spec_is_success() == (b == 0),
            Err(_) => true,
        },
        match (PubAckTy::spec_reason(b), PubAckTy::spec_reason(c)) {
            (Ok(x), Ok(y)) => b != c ==> x != y,
            _ => true,
        },
        match (PubRecTy::spec_reason(b), PubRecTy::spec_reason(c)) {
            (Ok(x), Ok(y)) => b != c ==> x != y,
            _ => true,
        },
{
}

/// PUBREL and PUBCOMP reason codes: 0x00 is success and 0x92 is the
/// packet identifier not found; every other byte is an error.
pub proof fn lemma_pubrel_pubcomp_reasons(b: u8)
    ensures
        PubRelTy::spec_reason(b) is Ok <==> (b == 0 || b == 0x92),
        PubCompTy::spec_reason(b) is Ok <==> (b == 0 || b == 0x92),
        match PubRelTy::spec_reason(b) {
            Ok(r) => r.spec_is_success() == (b == 0),
            Err(e) => e == PacketParseError::InvalidConnectReturnCode(b),
        },
        match PubCompTy::spec_reason(b) {
            Ok(r) => r.spec_is_success() == (b == 0),
            Err(e) => e == PacketParseError::InvalidConnectReturnCode(b),
        },
{
}

/// An MQTT 3.1.1 acknowledgement that the library writes reads back with
/// its packet identifier.
pub proof fn lemma_pubcommon_v4_roundtrip<Ty: Common>(packet_id: u16)
    ensures
        spec_read_pubcommon::<Ty>(
            2,
            2,
            spec_pubcommon_bytes::<Ty>(PubCommonModel::V4 { packet_id }),
            Protocol::V4,
        ) == Ok::<PubCommonModel<Ty::Reason>, PacketParseError>(PubCommonModel::V4 { packet_id }),
{
    reveal_with_fuel(spec_encode_varint, 2);
    crate::buffer::lemma_u16_bytes_roundtrip(packet_id);
    let b = spec_pubcommon_bytes::<Ty>(PubCommonModel::V4 { packet_id });
    assert(b.skip(2) =~= u16_bytes(packet_id));
}

/// An MQTT 5 acknowledgement that the library builds with a success reason
/// and no property reads back with its packet identifier and the default
/// reason.
pub proof fn lemma_pubcommon_v5_success_roundtrip<Ty: Common>(
    packet_id: u16,
    reason: Ty::Reason,
    properties: Seq<u8>,
)
    requires
        reason.spec_is_success(),
    ensures
        ({
            let m = PubCommonModel::<Ty::Reason>::V5WriteMode {
                packet_id,
                reason,
                had_reason_string: false,
                had_user_properties: false,
                properties,
            };
            spec_read_pubcommon::<Ty>(2, 2, spec_pubcommon_bytes::<Ty>(m), Protocol::V5) == Ok::<
                PubCommonModel<Ty::Reason>,
                PacketParseError,
            >(
                PubCommonModel::V5 {
                    packet_id,
                    reason: Ty::spec_default_reason(),
                    reason_string: None,
                    user_properties: Seq::empty(),
                },
            )
        }),
{
    reveal_with_fuel(spec_encode_varint, 2);
    crate::buffer::lemma_u16_bytes_roundtrip(packet_id);
    let m = PubCommonModel::<Ty::Reason>::V5WriteMode {
        packet_id,
        reason,
        had_reason_string: false,
        had_user_properties: false,
        properties,
    };
    let b = spec_pubcommon_bytes::<Ty>(m);
    assert(b.skip(2) =~= u16_bytes(packet_id));
}

} // verus!
