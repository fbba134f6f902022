//! The UNSUBACK packet: the broker's answer to an unsubscription.
use crate::buffer::{bytes_advance, bytes_len, bytes_view};
use crate::protocol::packet::property::{
    read_reason_properties, spec_read_reason_properties, ReasonPropertiesModel,
};
use crate::protocol::packet::suback::{spec_reason_for_v5, SubscribeReasonCode};
use crate::protocol::packet::{read_u16, read_u8, spec_read_u16};
use crate::protocol::{FixedHeader, PacketParseError, Protocol};
use bytes::Bytes;
use vstd::prelude::*;

verus! {

/// Acknowledgement to unsubscribe
pub enum UnsubAck {
    V4 { packet_id: u16 },
    V5ReadMode {
        packet_id: u16,
        properties: Option<UnsubAckProperties>,
        /// payload
        return_codes: Vec<UnsubAckReason>,
    },
}

#[derive(Debug, Clone, Copy, PartialEq, Eq, Structural)]
pub enum UnsubAckReason {
    Success,
    NoSubscriptionExisted,
    UnspecifiedError,
    ImplementationSpecificError,
    NotAuthorized,
    TopicFilterInvalid,
    PacketIdentifierInUse,
}

pub struct UnsubAckProperties {
    pub reason_string: Option<String>,
    pub user_properties: Vec<(String, String)>,
}

impl View for UnsubAckProperties {
    type V = ReasonPropertiesModel;

    open spec fn view(&self) -> ReasonPropertiesModel {
        ReasonPropertiesModel {
            reason_string: self.reason_string.deep_view(),
            user_properties: self.user_properties.deep_view(),
        }
    }
}

/// An UNSUBACK packet, as plain data.
pub enum UnsubAckModel {
    V4 { packet_id: u16 },
    V5ReadMode {
        packet_id: u16,
        properties: Option<ReasonPropertiesModel>,
        return_codes: Seq<UnsubAckReason>,
    },
}

impl View for UnsubAck {
    type V = UnsubAckModel;

    open spec fn view(&self) -> UnsubAckModel {
        match self {
            UnsubAck::V4 { packet_id } => UnsubAckModel::V4 { packet_id: *packet_id },
            UnsubAck::V5ReadMode { packet_id, properties, return_codes } => UnsubAckModel::V5ReadMode {
                packet_id: *packet_id,
                properties: match properties {
                    Some(p) => Some(p@),
                    None => None,
                },
                return_codes: return_codes@,
            },
        }
    }
}

/// The MQTT 5 UNSUBACK reason that a number stands for.
pub open spec fn spec_unsuback_reason(num: u8) -> Result<UnsubAckReason, PacketParseError> {
    if num == 0x00 {
        Ok(UnsubAckReason::Success)
    } else if num == 0x11 {
        Ok(UnsubAckReason::NoSubscriptionExisted)
    } else if num == 0x80 {
        Ok(UnsubAckReason::UnspecifiedError)
    } else if num == 0x83 {
        Ok(UnsubAckReason::ImplementationSpecificError)
    } else if num == 0x87 {
        Ok(UnsubAckReason::NotAuthorized)
    } else if num == 0x8F {
        Ok(UnsubAckReason::TopicFilterInvalid)
    } else if num == 0x91 {
        Ok(UnsubAckReason::PacketIdentifierInUse)
    } else {
        Err(PacketParseError::InvalidSubscribeReasonCode(num))
    }
}

/// Whether an UNSUBACK reason and a SUBACK reason are the same failure.
pub open spec fn spec_same_failure(u: UnsubAckReason, s: SubscribeReasonCode) -> bool {
    match (u, s) {
        (UnsubAckReason::UnspecifiedError, SubscribeReasonCode::Unspecified) => true,
        (
            UnsubAckReason::ImplementationSpecificError,
            SubscribeReasonCode::ImplementationSpecific,
        ) => true,
        (UnsubAckReason::NotAuthorized, SubscribeReasonCode::NotAuthorized) => true,
        (UnsubAckReason::TopicFilterInvalid, SubscribeReasonCode::TopicFilterInvalid) => true,
        (UnsubAckReason::PacketIdentifierInUse, SubscribeReasonCode::PkidInUse) => true,
        _ => false,
    }
}

/// MQTT 5 UNSUBACK reason codes: the accepted bytes are 0x00, 0x11, 0x80,
/// 0x83, 0x87, 0x8F and 0x91; no two give the same reason; a byte below
/// 0x80 is a success (0x00 the plain one), and a failure byte means the
/// same failure as that byte in a SUBACK.
pub proof fn lemma_unsuback_reasons(b: u8, c: u8)
    ensures
        spec_unsuback_reason(b) is Ok <==> (b == 0x00 || b == 0x11 || b == 0x80 || b == 0x83 || b
            == 0x87 || b == 0x8F || b == 0x91),
        match (spec_unsuback_reason(b), spec_unsuback_reason(c)) {
            (Ok(x), Ok(y)) => b != c ==> x != y,
            _ => true,
        },
        match spec_unsuback_reason(b) {
            Ok(u) => {
                &&& (u == UnsubAckReason::Success) == (b == 0)
                &&& (b < 0x80) == (u == UnsubAckReason::Success || u
                    == UnsubAckReason::NoSubscriptionExisted)
                &&& (b >= 0x80) ==> (match spec_reason_for_v5(b) {
                    Ok(s) => spec_same_failure(u, s),
                    Err(_) => false,
                })
            },
            Err(e) => e == PacketParseError::InvalidSubscribeReasonCode(b),
        },
{
}

/// Reads every byte left as a reason code, in order; the first byte that
/// stands for none makes the error.
pub open spec fn spec_read_unsuback_codes(s: Seq<u8>) -> Result<Seq<UnsubAckReason>, PacketParseError>
    decreases s.len(),
{
    if s.len() == 0 {
        Ok(Seq::empty())
    } else {
        match spec_unsuback_reason(s[0]) {
            Err(e) => Err(e),
            Ok(c) => match spec_read_unsuback_codes(s.skip(1)) {
                Ok(cs) => Ok(seq![c] + cs),
                Err(e) => Err(e),
            },
        }
    }
}

/// Reads an UNSUBACK whose fixed header takes `fixed_header_len` bytes: the
/// packet identifier and, for MQTT 5, the property list and at least one
/// reason code.
pub open spec fn spec_read_unsuback(fixed_header_len: int, s: Seq<u8>, protocol: Protocol) -> Result<
    UnsubAckModel,
    PacketParseError,
> {
    match spec_read_u16(s.skip(fixed_header_len)) {
        Err(e) => Err(e),
        Ok((packet_id, s1)) => match protocol {
            Protocol::V4 => Ok(UnsubAckModel::V4 { packet_id }),
            Protocol::V5 => match spec_read_reason_properties(s1) {
                Err(e) => Err(e),
                Ok((properties, s2)) => if s2.len() == 0 {
                    Err(PacketParseError::MalformedPacket)
                } else {
                    match spec_read_unsuback_codes(s2) {
                        Ok(return_codes) => Ok(
                            UnsubAckModel::V5ReadMode { packet_id, properties, return_codes },
                        ),
                        Err(e) => Err(e),
                    }
                },
            },
        },
    }
}

fn read_unsuback_codes(bytes: &mut Bytes) -> (r: Result<Vec<UnsubAckReason>, PacketParseError>)
    ensures
        match spec_read_unsuback_codes(bytes_view(*old(bytes))) {
            Ok(cs) => r matches Ok(v) && v@ == cs,
            Err(e) => r == Err::<Vec<UnsubAckReason>, PacketParseError>(e),
        },
{
    let ghost start = bytes_view(*bytes);
    let mut return_codes: Vec<UnsubAckReason> = Vec::new();
    while bytes_len(bytes) > 0
        invariant
            start == bytes_view(*old(bytes)),
            spec_read_unsuback_codes(start) == match spec_read_unsuback_codes(bytes_view(*bytes)) {
                Ok(cs) => Ok(return_codes@ + cs),
                Err(e) => Err(e),
            },
        decreases bytes_view(*bytes).len(),
    {
        let ghost s0 = bytes_view(*bytes);
        let ghost before = return_codes@;
        let return_code = match read_u8(bytes) {
            Ok(c) => c,
            Err(e) => return Err(e),
        };
        assert(s0[0] == return_code);
        assert(bytes_view(*bytes) == s0.skip(1));
        let code = match reason_for_v5(return_code) {
            Ok(c) => c,
            Err(e) => {
                assert(spec_read_unsuback_codes(s0) == Err::<Seq<UnsubAckReason>, PacketParseError>(e));
                return Err(e);
            },
        };
        return_codes.push(code);
        proof {
            assert forall|cs: Seq<UnsubAckReason>| before + (seq![code] + cs) =~= return_codes@
                + cs by {}
        }
    }
    assert(return_codes@ + Seq::<UnsubAckReason>::empty() =~= return_codes@);
    Ok(return_codes)
}

impl UnsubAck {
    pub fn packet_id(&self) -> (r: u16)
        ensures
            r == match self@ {
                UnsubAckModel::V4 { packet_id } => packet_id,
                UnsubAckModel::V5ReadMode { packet_id, .. } => packet_id,
            },
    {
        match self {
            UnsubAck::V4 { packet_id, .. } => *packet_id,
            UnsubAck::V5ReadMode { packet_id, .. } => *packet_id,
        }
    }

    pub fn read(fixed_header: FixedHeader, bytes: Bytes, protocal: Protocol) -> (r: Result<
        Self,
        PacketParseError,
    >)
        requires
            fixed_header.fixed_header_len <= bytes_view(bytes).len(),
        ensures
            match spec_read_unsuback(fixed_header.fixed_header_len as int, bytes_view(bytes), protocal) {
                Ok(m) => r matches Ok(p) && p@ == m,
                Err(e) => r matches Err(e2) && e2 == e,
            },
    {
        let mut bytes = bytes;
        let unsuback = match protocal {
            Protocol::V4 => {
                let variable_header_index = fixed_header.fixed_header_len;
                bytes_advance(&mut bytes, variable_header_index);
                let packet_id = read_u16(&mut bytes)?;
                UnsubAck::V4 { packet_id }
            },
            Protocol::V5 => {
                let variable_header_index = fixed_header.fixed_header_len;
                bytes_advance(&mut bytes, variable_header_index);
                let packet_id = read_u16(&mut bytes)?;
                let properties = UnsubAckProperties::read(&mut bytes)?;
                if bytes_len(&bytes) == 0 {
                    return Err(PacketParseError::MalformedPacket);
                }
                let return_codes = read_unsuback_codes(&mut bytes)?;
                UnsubAck::V5ReadMode { packet_id, return_codes, properties }
            },
        };
        Ok(unsuback)
    }
}

impl UnsubAckProperties {
    pub fn read(bytes: &mut Bytes) -> (r: Result<Option<Self>, PacketParseError>)
        ensures
            match spec_read_reason_properties(bytes_view(*old(bytes))) {
                Ok((None, rest)) => r matches Ok(None) && bytes_view(*final(bytes)) == rest,
                Ok((Some(m), rest)) => r matches Ok(Some(p)) && p@ == m && bytes_view(
                    *final(bytes),
                ) == rest,
                Err(e) => r == Err::<Option<UnsubAckProperties>, PacketParseError>(e),
            },
    {
        match read_reason_properties(bytes)? {
            None => Ok(None),
            Some((reason_string, user_properties)) => Ok(
                Some(UnsubAckProperties { reason_string, user_properties }),
            ),
        }
    }
}

/// The MQTT 5 UNSUBACK reason that a number stands for.
pub fn reason_for_v5(num: u8) -> (r: Result<UnsubAckReason, PacketParseError>)
    ensures
        r == spec_unsuback_reason(num),
{
    let code = match num {
        0x00 => UnsubAckReason::Success,
        0x11 => UnsubAckReason::NoSubscriptionExisted,
        0x80 => UnsubAckReason::UnspecifiedError,
        0x83 => UnsubAckReason::ImplementationSpecificError,
        0x87 => UnsubAckReason::NotAuthorized,
        0x8F => UnsubAckReason::TopicFilterInvalid,
        0x91 => UnsubAckReason::PacketIdentifierInUse,
        num => return Err(PacketParseError::InvalidSubscribeReasonCode(num)),
    };
    Ok(code)
}

} // verus!
