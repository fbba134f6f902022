//! The SUBACK packet: the broker's answer to a subscription, one return code
//! per topic filter.
use crate::buffer::{bytes_advance, bytes_len, bytes_view};
use crate::protocol::packet::property::{
    read_reason_properties, spec_read_reason_properties, ReasonPropertiesModel,
};
use crate::protocol::packet::{read_u16, read_u8, spec_read_u16};
use crate::protocol::{FixedHeader, PacketParseError, Protocol};
use crate::{spec_qos, QoS};
use bytes::Bytes;
use vstd::prelude::*;

verus! {

/// Acknowledgement to subscribe
pub enum SubAck {
    V4 { packet_id: u16, return_codes: Vec<SubscribeReasonCode> },
    V5ReadMode {
        packet_id: u16,
        properties: Option<SubAckProperties>,
        /// payload
        return_codes: Vec<SubscribeReasonCode>,
    },
}

#[derive(Debug, Clone, Copy, PartialEq, Eq, Structural)]
pub enum SubscribeReasonCode {
    QoS0,
    QoS1,
    QoS2,
    Success(QoS),
    Failure,
    Unspecified,
    ImplementationSpecific,
    NotAuthorized,
    TopicFilterInvalid,
    PkidInUse,
    QuotaExceeded,
    SharedSubscriptionsNotSupported,
    SubscriptionIdNotSupported,
    WildcardSubscriptionsNotSupported,
}

pub struct SubAckProperties {
    pub reason_string: Option<String>,
    pub user_properties: Vec<(String, String)>,
}

impl View for SubAckProperties {
    type V = ReasonPropertiesModel;

    open spec fn view(&self) -> ReasonPropertiesModel {
        ReasonPropertiesModel {
            reason_string: self.reason_string.deep_view(),
            user_properties: self.user_properties.deep_view(),
        }
    }
}

/// A SUBACK packet, as plain data.
pub enum SubAckModel {
    V4 { packet_id: u16, return_codes: Seq<SubscribeReasonCode> },
    V5ReadMode {
        packet_id: u16,
        properties: Option<ReasonPropertiesModel>,
        return_codes: Seq<SubscribeReasonCode>,
    },
}

impl View for SubAck {
    type V = SubAckModel;

    open spec fn view(&self) -> SubAckModel {
        match self {
            SubAck::V4 { packet_id, return_codes } => SubAckModel::V4 {
                packet_id: *packet_id,
                return_codes: return_codes@,
            },
            SubAck::V5ReadMode { packet_id, properties, return_codes } => SubAckModel::V5ReadMode {
                packet_id: *packet_id,
                properties: match properties {
                    Some(p) => Some(p@),
                    None => None,
                },
                return_codes: return_codes@,
            },
        }
    }
}

/// The MQTT 5 SUBACK reason that a number stands for.
pub open spec fn spec_reason_for_v5(code: u8) -> Result<SubscribeReasonCode, PacketParseError> {
    if code == 0 {
        Ok(SubscribeReasonCode::QoS0)
    } else if code == 1 {
        Ok(SubscribeReasonCode::QoS1)
    } else if code == 2 {
        Ok(SubscribeReasonCode::QoS2)
    } else if code == 128 {
        Ok(SubscribeReasonCode::Unspecified)
    } else if code == 131 {
        Ok(SubscribeReasonCode::ImplementationSpecific)
    } else if code == 135 {
        Ok(SubscribeReasonCode::NotAuthorized)
    } else if code == 143 {
        Ok(SubscribeReasonCode::TopicFilterInvalid)
    } else if code == 145 {
        Ok(SubscribeReasonCode::PkidInUse)
    } else if code == 151 {
        Ok(SubscribeReasonCode::QuotaExceeded)
    } else if code == 158 {
        Ok(SubscribeReasonCode::SharedSubscriptionsNotSupported)
    } else if code == 161 {
        Ok(SubscribeReasonCode::SubscriptionIdNotSupported)
    } else if code == 162 {
        Ok(SubscribeReasonCode::WildcardSubscriptionsNotSupported)
    } else {
        Err(PacketParseError::InvalidSubscribeReasonCode(code))
    }
}

/// The MQTT 3.1.1 SUBACK return code that a number stands for.
pub open spec fn spec_reason_for_v4(code: u8) -> Result<SubscribeReasonCode, PacketParseError> {
    if code == 0 {
        Ok(SubscribeReasonCode::QoS0)
    } else if code == 1 {
        Ok(SubscribeReasonCode::QoS1)
    } else if code == 2 {
        Ok(SubscribeReasonCode::QoS2)
    } else if code == 128 {
        Ok(SubscribeReasonCode::Unspecified)
    } else {
        Err(PacketParseError::InvalidSubscribeReasonCode(code))
    }
}

/// The return code that grants a QoS level.
pub open spec fn spec_granted(q: QoS) -> SubscribeReasonCode {
    match q {
        QoS::AtMostOnce => SubscribeReasonCode::QoS0,
        QoS::AtLeastOnce => SubscribeReasonCode::QoS1,
        QoS::ExactlyOnce => SubscribeReasonCode::QoS2,
    }
}

/// MQTT 3.1.1 SUBACK return codes: a byte that is the number of a QoS level
/// grants exactly that level, 0x80 is the failure, every other byte is an
/// error; each accepted byte means what it means in MQTT 5, and no two
/// bytes give the same code.
pub proof fn lemma_suback_v4_codes(b: u8, c: u8)
    ensures
        spec_reason_for_v4(b) is Ok <==> (b <= 2 || b == 0x80),
        match spec_qos(b) {
            Some(q) => spec_reason_for_v4(b) == Ok::<SubscribeReasonCode, PacketParseError>(
                spec_granted(q),
            ),
            None => true,
        },
        b == 0x80 ==> spec_reason_for_v4(b) == Ok::<SubscribeReasonCode, PacketParseError>(
            SubscribeReasonCode::Unspecified,
        ),
        match spec_reason_for_v4(b) {
            Ok(r) => spec_reason_for_v5(b) == Ok::<SubscribeReasonCode, PacketParseError>(r),
            Err(e) => e == PacketParseError::InvalidSubscribeReasonCode(b),
        },
        match (spec_reason_for_v4(b), spec_reason_for_v4(c)) {
            (Ok(x), Ok(y)) => b != c ==> x != y,
            _ => true,
        },
{
}

/// MQTT 5 SUBACK reason codes: a byte that is the number of a QoS level
/// grants exactly that level, the accepted failure codes are at least
/// 0x80, and no two bytes give the same code.
pub proof fn lemma_suback_v5_codes(b: u8, c: u8)
    ensures
        match spec_qos(b) {
            Some(q) => spec_reason_for_v5(b) == Ok::<SubscribeReasonCode, PacketParseError>(
                spec_granted(q),
            ),
            None => true,
        },
        match spec_reason_for_v5(b) {
            Ok(r) => (b < 0x80) == (r == SubscribeReasonCode::QoS0 || r == SubscribeReasonCode::QoS1
                || r == SubscribeReasonCode::QoS2),
            Err(e) => e == PacketParseError::InvalidSubscribeReasonCode(b),
        },
        match (spec_reason_for_v5(b), spec_reason_for_v5(c)) {
            (Ok(x), Ok(y)) => b != c ==> x != y,
            _ => true,
        },
{
}

/// Reads every byte left as a return code, in order; the first byte that
/// stands for none makes the error.
pub open spec fn spec_read_codes(s: Seq<u8>, v5: bool) -> Result<
    Seq<SubscribeReasonCode>,
    PacketParseError,
>
    decreases s.len(),
{
    if s.len() == 0 {
        Ok(Seq::empty())
    } else {
        let c = if v5 {
            spec_reason_for_v5(s[0])
        } else {
            spec_reason_for_v4(s[0])
        };
        match c {
            Err(e) => Err(e),
            Ok(c) => match spec_read_codes(s.skip(1), v5) {
                Ok(cs) => Ok(seq![c] + cs),
                Err(e) => Err(e),
            },
        }
    }
}

/// Reads a SUBACK whose fixed header takes `fixed_header_len` bytes: the
/// packet identifier, for MQTT 5 the property list, then at least one return
/// code.
pub open spec fn spec_read_suback(fixed_header_len: int, s: Seq<u8>, protocol: Protocol) -> Result<
    SubAckModel,
    PacketParseError,
> {
    match spec_read_u16(s.skip(fixed_header_len)) {
        Err(e) => Err(e),
        Ok((packet_id, s1)) => match protocol {
            Protocol::V4 => if s1.len() == 0 {
                Err(PacketParseError::MalformedPacket)
            } else {
                match spec_read_codes(s1, false) {
                    Ok(return_codes) => Ok(SubAckModel::V4 { packet_id, return_codes }),
                    Err(e) => Err(e),
                }
            },
            Protocol::V5 => match spec_read_reason_properties(s1) {
                Err(e) => Err(e),
                Ok((properties, s2)) => if s2.len() == 0 {
                    Err(PacketParseError::MalformedPacket)
                } else {
                    match spec_read_codes(s2, true) {
                        Ok(return_codes) => Ok(
                            SubAckModel::V5ReadMode { packet_id, properties, return_codes },
                        ),
                        Err(e) => Err(e),
                    }
                },
            },
        },
    }
}

/// Reads return codes until the data runs out.
fn read_codes(bytes: &mut Bytes, v5: bool) -> (r: Result<
    Vec<SubscribeReasonCode>,
    PacketParseError,
>)
    ensures
        match spec_read_codes(bytes_view(*old(bytes)), v5) {
            Ok(cs) => r matches Ok(v) && v@ == cs,
            Err(e) => r == Err::<Vec<SubscribeReasonCode>, PacketParseError>(e),
        },
{
    let ghost start = bytes_view(*bytes);
    let mut return_codes: Vec<SubscribeReasonCode> = Vec::new();
    while bytes_len(bytes) > 0
        invariant
            start == bytes_view(*old(bytes)),
            spec_read_codes(start, v5) == match spec_read_codes(bytes_view(*bytes), v5) {
                Ok(cs) => Ok(return_codes@ + cs),
                Err(e) => Err(e),
            },
        decreases bytes_view(*bytes).len(),
    {
        let ghost s0 = bytes_view(*bytes);
        let ghost before = return_codes@;
        let return_code = match read_u8(bytes) {
            Ok(c) => c,
            Err(e) => return Err(e),
        };
        assert(s0[0] == return_code);
        assert(bytes_view(*bytes) == s0.skip(1));
        let decoded = if v5 {
            reason_for_v5(return_code)
        } else {
            reason_for_v4(return_code)
        };
        let code = match decoded {
            Ok(c) => c,
            Err(e) => {
                assert(spec_read_codes(s0, v5) == Err::<Seq<SubscribeReasonCode>, PacketParseError>(e));
                return Err(e);
            },
        };
        return_codes.push(code);
        proof {
            assert forall|cs: Seq<SubscribeReasonCode>| before + (seq![code] + cs) =~= return_codes@
                + cs by {}
        }
    }
    assert(return_codes@ + Seq::<SubscribeReasonCode>::empty() =~= return_codes@);
    Ok(return_codes)
}

impl SubAck {
    pub fn packet_id(&self) -> (r: u16)
        ensures
            r == match self@ {
                SubAckModel::V4 { packet_id, .. } => packet_id,
                SubAckModel::V5ReadMode { packet_id, .. } => packet_id,
            },
    {
        match self {
            SubAck::V4 { packet_id, .. } => *packet_id,
            SubAck::V5ReadMode { packet_id, .. } => *packet_id,
        }
    }

    pub fn read(fixed_header: FixedHeader, bytes: Bytes, protocal: Protocol) -> (r: Result<
        Self,
        PacketParseError,
    >)
        requires
            fixed_header.fixed_header_len <= bytes_view(bytes).len(),
        ensures
            match spec_read_suback(fixed_header.fixed_header_len as int, bytes_view(bytes), protocal) {
                Ok(m) => r matches Ok(p) && p@ == m,
                Err(e) => r matches Err(e2) && e2 == e,
            },
    {
        let mut bytes = bytes;
        let suback = match protocal {
            Protocol::V4 => {
                let variable_header_index = fixed_header.fixed_header_len;
                bytes_advance(&mut bytes, variable_header_index);
                let packet_id = read_u16(&mut bytes)?;
                if bytes_len(&bytes) == 0 {
                    return Err(PacketParseError::MalformedPacket);
                }
                let return_codes = read_codes(&mut bytes, false)?;
                SubAck::V4 { packet_id, return_codes }
            },
            Protocol::V5 => {
                let variable_header_index = fixed_header.fixed_header_len;
                bytes_advance(&mut bytes, variable_header_index);
                let packet_id = read_u16(&mut bytes)?;
                let properties = SubAckProperties::read(&mut bytes)?;
                if bytes_len(&bytes) == 0 {
                    return Err(PacketParseError::MalformedPacket);
                }
                let return_codes = read_codes(&mut bytes, true)?;
                SubAck::V5ReadMode { packet_id, return_codes, properties }
            },
        };
        Ok(suback)
    }
}

impl SubAckProperties {
    pub fn read(bytes: &mut Bytes) -> (r: Result<Option<Self>, PacketParseError>)
        ensures
            match spec_read_reason_properties(bytes_view(*old(bytes))) {
                Ok((None, rest)) => r matches Ok(None) && bytes_view(*final(bytes)) == rest,
                Ok((Some(m), rest)) => r matches Ok(Some(p)) && p@ == m && bytes_view(
                    *final(bytes),
                ) == rest,
                Err(e) => r == Err::<Option<SubAckProperties>, PacketParseError>(e),
            },
    {
        match read_reason_properties(bytes)? {
            None => Ok(None),
            Some((reason_string, user_properties)) => Ok(
                Some(SubAckProperties { reason_string, user_properties }),
            ),
        }
    }
}

pub fn reason_for_v5(code: u8) -> (r: Result<SubscribeReasonCode, PacketParseError>)
    ensures
        r == spec_reason_for_v5(code),
{
    let v = match code {
        0 => SubscribeReasonCode::QoS0,
        1 => SubscribeReasonCode::QoS1,
        2 => SubscribeReasonCode::QoS2,
        128 => SubscribeReasonCode::Unspecified,
        131 => SubscribeReasonCode::ImplementationSpecific,
        135 => SubscribeReasonCode::NotAuthorized,
        143 => SubscribeReasonCode::TopicFilterInvalid,
        145 => SubscribeReasonCode::PkidInUse,
        151 => SubscribeReasonCode::QuotaExceeded,
        158 => SubscribeReasonCode::SharedSubscriptionsNotSupported,
        161 => SubscribeReasonCode::SubscriptionIdNotSupported,
        162 => SubscribeReasonCode::WildcardSubscriptionsNotSupported,
        v => return Err(PacketParseError::InvalidSubscribeReasonCode(v)),
    };
    Ok(v)
}

pub fn reason_for_v4(code: u8) -> (r: Result<SubscribeReasonCode, PacketParseError>)
    ensures
        r == spec_reason_for_v4(code),
{
    let v = match code {
        0 => SubscribeReasonCode::QoS0,
        1 => SubscribeReasonCode::QoS1,
        2 => SubscribeReasonCode::QoS2,
        128 => SubscribeReasonCode::Unspecified,
        v => return Err(PacketParseError::InvalidSubscribeReasonCode(v)),
    };
    Ok(v)
}

} // verus!
