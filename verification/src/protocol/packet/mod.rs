//! Packet framing and the primitive readers and writers of the MQTT wire
//! format: the variable byte integer, big-endian integers and
//! length-prefixed byte strings.
use crate::buffer::{
    be_u16, be_u32, bytes_advance, bytes_as_slice, bytes_get_u16, bytes_get_u32, bytes_get_u8,
    bytes_len, bytes_mut_extend_from_slice, bytes_mut_put_u16, bytes_mut_put_u8, bytes_mut_view,
    bytes_split_to, bytes_view, max_buffer_len, string_from_utf8, u16_bytes,
};
use crate::protocol::spec_len_len;
use crate::protocol::{FixedHeader, PacketParseError};
use bytes::{Bytes, BytesMut};
use vstd::prelude::*;
use vstd::string::StringSliceAdditionalSpecFns;

pub mod connack;
pub mod connect;
pub mod disconnect;
pub mod frame;
pub mod property;
pub mod property_laws;
pub mod property_write;
pub mod pubcommon;
pub mod ping;
pub mod puback;
pub mod publish;
pub mod subscribe;
pub mod suback;
pub mod unsuback;
pub mod unsubscribe;

verus! {

/// Error during framing of a packet
#[derive(Debug, Clone, Copy, PartialEq, Eq, Structural)]
pub enum FixedHeaderError {
    InsufficientBytes(usize),
    MalformedRemainingLength,
}

impl FixedHeaderError {
    /// Whether the data that gave this error has to be thrown away.
    pub fn to_discard(&self) -> (r: bool)
        ensures
            r <==> *self == FixedHeaderError::MalformedRemainingLength,
    {
        match self {
            FixedHeaderError::InsufficientBytes(_) => false,
            FixedHeaderError::MalformedRemainingLength => true,
        }
    }

    /// The packet parsing error that stands for this framing error.
    pub fn into_packet_error(&self) -> (r: PacketParseError)
        ensures
            r == spec_fixed_header_error(*self),
    {
        match self {
            FixedHeaderError::InsufficientBytes(len) => PacketParseError::InsufficientBytes(*len),
            FixedHeaderError::MalformedRemainingLength => PacketParseError::MalformedRemainingLength,
        }
    }
}

/// The packet parsing error that stands for a framing error.
pub open spec fn spec_fixed_header_error(e: FixedHeaderError) -> PacketParseError {
    match e {
        FixedHeaderError::InsufficientBytes(len) => PacketParseError::InsufficientBytes(len),
        FixedHeaderError::MalformedRemainingLength => PacketParseError::MalformedRemainingLength,
    }
}

// ---------------------------------------------------------------------------
// Variable byte integer
// ---------------------------------------------------------------------------

/// 128 to the power `i`, for the four places of a variable byte integer.
pub open spec fn pow128(i: int) -> int {
    if i <= 0 {
        1
    } else if i == 1 {
        128
    } else if i == 2 {
        16384
    } else {
        2097152
    }
}

/// Decodes the variable byte integer whose `i`-th byte (counting from 0)
/// stands at `s[i]`: the number of bytes read in all and the value of the
/// places from `i` on. A byte with its top bit set announces one more byte;
/// a fourth byte that announces a fifth makes the encoding malformed, and
/// running out of data asks for one more byte.
pub open spec fn spec_varint_from(s: Seq<u8>, i: int) -> Result<(int, int), FixedHeaderError>
    decreases 3 - i,
{
    if i < 0 || i >= s.len() {
        Err(FixedHeaderError::InsufficientBytes(1))
    } else if s[i] < 128 {
        Ok((i + 1, s[i] as int * pow128(i)))
    } else if i >= 3 {
        Err(FixedHeaderError::MalformedRemainingLength)
    } else {
        match spec_varint_from(s, i + 1) {
            Ok((n, v)) => Ok((n, (s[i] as int - 128) * pow128(i) + v)),
            Err(e) => Err(e),
        }
    }
}

/// The variable byte integer at the start of `s`: the number of bytes that
/// make it and its value.
pub open spec fn spec_length(s: Seq<u8>) -> Result<(int, int), FixedHeaderError> {
    spec_varint_from(s, 0)
}

/// Adds `a` to the value of a decoding result.
pub open spec fn shift_result(r: Result<(int, int), FixedHeaderError>, a: int) -> Result<
    (int, int),
    FixedHeaderError,
> {
    match r {
        Ok((n, v)) => Ok((n, a + v)),
        Err(e) => Err(e),
    }
}

/// The variable byte integer encoding of `x`: seven bits per byte, lowest
/// first, the top bit set on every byte but the last.
pub open spec fn spec_encode_varint(x: nat) -> Seq<u8>
    decreases x,
{
    if x < 128 {
        seq![x as u8]
    } else {
        seq![(x % 128 + 128) as u8] + spec_encode_varint(x / 128)
    }
}

/// Frames the fixed header at the start of `s`: its first byte, the number
/// of bytes it takes and the remaining length it announces. Fewer than two
/// bytes ask for the bytes missing to two.
pub open spec fn spec_parse_fixed_header(s: Seq<u8>) -> Result<(u8, int, int), FixedHeaderError> {
    if s.len() < 2 {
        Err(FixedHeaderError::InsufficientBytes((2 - s.len()) as usize))
    } else {
        match spec_length(s.skip(1)) {
            Ok((n, v)) => Ok((s[0], n + 1, v)),
            Err(e) => Err(e),
        }
    }
}

/// Parses fixed header
pub fn parse_fixed_header(stream: &[u8]) -> (r: Result<FixedHeader, FixedHeaderError>)
    ensures
        match spec_parse_fixed_header(stream@) {
            Ok((byte1, header_len, remaining_len)) => r matches Ok(h) && h.byte1 == byte1
                && h.fixed_header_len == header_len && h.remaining_len == remaining_len
                && 2 <= header_len <= 5 && remaining_len < 268_435_456,
            Err(e) => r == Err::<FixedHeader, FixedHeaderError>(e),
        },
{
    let stream_len = stream.len();
    if stream_len < 2 {
        return Err(FixedHeaderError::InsufficientBytes(2 - stream_len));
    }
    let byte1 = stream[0];
    let (_, rest) = stream.split_at(1);
    assert(rest@ =~= stream@.skip(1));
    let (len_len, len) = length(rest)?;
    Ok(FixedHeader::new(byte1, len_len, len))
}

/// Parses variable byte integer in the stream and returns the length
/// and number of bytes that make it. Used for remaining length calculation
/// as well as for calculating property lengths
pub fn length(stream: &[u8]) -> (r: Result<(usize, usize), FixedHeaderError>)
    ensures
        match spec_length(stream@) {
            Ok((n, v)) => r == Ok::<(usize, usize), FixedHeaderError>((n as usize, v as usize)) && 1
                <= n <= 4 && n <= stream@.len() && 0 <= v < 268_435_456,
            Err(e) => r == Err::<(usize, usize), FixedHeaderError>(e),
        },
{
    let n = stream.len();
    let mut len: usize = 0;
    let mut mult: usize = 1;
    let mut i: usize = 0;
    while i < n
        invariant
            n == stream@.len(),
            i <= 3,
            i <= n,
            mult == pow128(i as int),
            len < mult,
            spec_length(stream@) == shift_result(spec_varint_from(stream@, i as int), len as int),
        decreases n - i,
    {
        let byte = stream[i];
        if byte < 128 {
            assert(byte as int * mult + len < 128 * mult) by (nonlinear_arith)
                requires
                    byte < 128,
                    len < mult,
            ;
            len = len + (byte as usize) * mult;
            return Ok((i + 1, len));
        }
        assert((byte - 128) as int * mult + len < 128 * mult) by (nonlinear_arith)
            requires
                128 <= byte < 256,
                len < mult,
        ;
        len = len + ((byte - 128) as usize) * mult;
        if i >= 3 {
            return Err(FixedHeaderError::MalformedRemainingLength);
        }
        i = i + 1;
        mult = mult * 128;
    }
    Err(FixedHeaderError::InsufficientBytes(1))
}

/// Writes remaining length to stream and returns number of bytes for remaining length
pub fn write_remaining_length(stream: &mut BytesMut, len: usize) -> (count: usize)
    requires
        bytes_mut_view(*old(stream)).len() + spec_encode_varint(len as nat).len()
            <= max_buffer_len(),
    ensures
        bytes_mut_view(*final(stream)) == bytes_mut_view(*old(stream)) + spec_encode_varint(
            len as nat,
        ),
        count == spec_encode_varint(len as nat).len(),
{
    let ghost start = bytes_mut_view(*stream);
    let mut done = false;
    let mut x = len;
    let mut count: usize = 0;
    while !done
        invariant
            !done ==> bytes_mut_view(*stream) + spec_encode_varint(x as nat) == start
                + spec_encode_varint(len as nat),
            done ==> bytes_mut_view(*stream) == start + spec_encode_varint(len as nat),
            bytes_mut_view(*stream).len() == start.len() + count,
            start.len() + spec_encode_varint(len as nat).len() <= max_buffer_len(),
        decreases (if done {
            0
        } else {
            x + 1
        }),
    {
        let ghost before = bytes_mut_view(*stream);
        let ghost x0 = x;
        let mut byte = (x % 128) as u8;
        x = x / 128;
        if x > 0 {
            byte = byte + 128;
        }
        assert(spec_encode_varint(x0 as nat) == seq![byte] + (if x > 0 {
            spec_encode_varint(x as nat)
        } else {
            Seq::<u8>::empty()
        }));
        assert((start + spec_encode_varint(len as nat)).len() == (before + spec_encode_varint(
            x0 as nat,
        )).len());
        bytes_mut_put_u8(stream, byte);
        count = count + 1;
        done = x == 0;
        proof {
            if done {
                assert(bytes_mut_view(*stream) =~= before + spec_encode_varint(x0 as nat));
            } else {
                assert(bytes_mut_view(*stream) + spec_encode_varint(x as nat) =~= before
                    + spec_encode_varint(x0 as nat));
            }
        }
    }
    count
}

/// The encoding of a length takes as many bytes as `len_len` says, for every
/// length that four bytes can encode.
pub proof fn lemma_encode_varint_len(x: nat)
    requires
        x < 268_435_456,
    ensures
        spec_encode_varint(x).len() == spec_len_len(x as int),
        1 <= spec_encode_varint(x).len() <= 4,
{
    reveal_with_fuel(spec_encode_varint, 5);
    let x1 = x / 128;
    let x2 = x1 / 128;
    let x3 = x2 / 128;
    assert(x1 == x / 128 && x2 == x / 16384 && x3 == x / 2097152) by (nonlinear_arith)
        requires
            x1 == x / 128,
            x2 == x1 / 128,
            x3 == x2 / 128,
    ;
}

/// 128 to the power `k`.
pub open spec fn pow128_nat(k: nat) -> nat
    decreases k,
{
    if k == 0 {
        1
    } else {
        128 * pow128_nat((k - 1) as nat)
    }
}

/// A number below `128` to the power `k` takes at most `k` bytes to encode.
proof fn lemma_encode_varint_len_bound(x: nat, k: nat)
    requires
        k >= 1,
        x < pow128_nat(k),
    ensures
        spec_encode_varint(x).len() <= k,
    decreases k,
{
    if x >= 128 {
        if k == 1 {
            assert(pow128_nat(1) == 128) by {
                reveal_with_fuel(pow128_nat, 2);
            }
        } else {
            let p = pow128_nat((k - 1) as nat);
            assert(x / 128 < p) by (nonlinear_arith)
                requires
                    x < 128 * p,
            ;
            lemma_encode_varint_len_bound(x / 128, (k - 1) as nat);
        }
    }
}

/// Every `usize` takes at most ten bytes to encode.
pub proof fn lemma_encode_varint_len_usize(x: usize)
    ensures
        spec_encode_varint(x as nat).len() <= 10,
{
    assert(pow128_nat(10) == 0x400000000000000000nat) by {
        reveal_with_fuel(pow128_nat, 11);
    }
    lemma_encode_varint_len_bound(x as nat, 10);
}

/// A variable byte integer encoding of up to four bytes decodes to the value
/// it encodes, whatever follows it.
pub proof fn lemma_varint_roundtrip(x: nat, rest: Seq<u8>)
    requires
        x < 268_435_456,
    ensures
        spec_length(spec_encode_varint(x) + rest) == Ok::<(int, int), FixedHeaderError>(
            (spec_encode_varint(x).len() as int, x as int),
        ),
        spec_encode_varint(x).len() == spec_len_len(x as int),
        1 <= spec_encode_varint(x).len() <= 4,
{
    reveal_with_fuel(spec_encode_varint, 5);
    reveal_with_fuel(spec_varint_from, 5);
    lemma_encode_varint_len(x);
    let s = spec_encode_varint(x) + rest;
    let x1 = x / 128;
    let x2 = x1 / 128;
    let x3 = x2 / 128;
    assert(x == x % 128 + 128 * x1 && x1 == x1 % 128 + 128 * x2 && x2 == x2 % 128 + 128 * x3)
        by (nonlinear_arith)
        requires
            x1 == x / 128,
            x2 == x1 / 128,
            x3 == x2 / 128,
    ;
    assert(x1 == x / 128 && x2 == x / 16384 && x3 == x / 2097152) by (nonlinear_arith)
        requires
            x1 == x / 128,
            x2 == x1 / 128,
            x3 == x2 / 128,
    ;
    if x < 128 {
        assert(s[0] == x);
    } else if x < 16384 {
        assert(s[0] == x % 128 + 128);
        assert(s[1] == x1);
    } else if x < 2097152 {
        assert(s[0] == x % 128 + 128);
        assert(s[1] == x1 % 128 + 128);
        assert(s[2] == x2);
    } else {
        assert(s[0] == x % 128 + 128);
        assert(s[1] == x1 % 128 + 128);
        assert(s[2] == x2 % 128 + 128);
        assert(s[3] == x3);
    }
}

/// A fixed header fails to frame as malformed, which is the one framing
/// error to discard on, exactly when the four bytes after the first all
/// announce one more byte; any other failure only asks for more data.
pub proof fn lemma_discard_iff_overlong(s: Seq<u8>)
    ensures
        (spec_parse_fixed_header(s) == Err::<(u8, int, int), FixedHeaderError>(
            FixedHeaderError::MalformedRemainingLength,
        )) <==> (s.len() >= 5 && forall|i: int| 1 <= i < 5 ==> #[trigger] s[i] >= 128),
        match spec_parse_fixed_header(s) {
            Err(e) => e == FixedHeaderError::MalformedRemainingLength || e is InsufficientBytes,
            Ok(_) => true,
        },
{
    reveal_with_fuel(spec_varint_from, 5);
    if s.len() >= 2 {
        let t = s.skip(1);
        assert(forall|i: int| 0 <= i < t.len() ==> t[i] == s[i + 1]);
        if s.len() >= 5 && forall|i: int| 1 <= i < 5 ==> #[trigger] s[i] >= 128 {
            assert(s[1] >= 128 && s[2] >= 128 && s[3] >= 128 && s[4] >= 128);
        }
    }
}

// ---------------------------------------------------------------------------
// Integers and byte strings
// ---------------------------------------------------------------------------

/// After collecting enough bytes to frame a packet (packet's frame())
/// , It's possible that content itself in the stream is wrong. Like expected
/// packet id or qos not being present. In cases where `read_mqtt_string` or
/// `read_mqtt_bytes` exhausted remaining length but packet framing expects to
/// parse qos next, these pre checks will prevent `bytes` crashes
pub fn read_u16(stream: &mut Bytes) -> (r: Result<u16, PacketParseError>)
    ensures
        spec_read_u16(bytes_view(*old(stream))) == match r {
            Ok(v) => Ok::<(u16, Seq<u8>), PacketParseError>((v, bytes_view(*final(stream)))),
            Err(e) => Err(e),
        },
        r is Err ==> bytes_view(*final(stream)) == bytes_view(*old(stream)),
{
    if bytes_len(stream) < 2 {
        return Err(PacketParseError::MalformedPacket);
    }
    Ok(bytes_get_u16(stream))
}

pub fn read_u8(stream: &mut Bytes) -> (r: Result<u8, PacketParseError>)
    ensures
        spec_read_u8(bytes_view(*old(stream))) == match r {
            Ok(v) => Ok::<(u8, Seq<u8>), PacketParseError>((v, bytes_view(*final(stream)))),
            Err(e) => Err(e),
        },
        r is Err ==> bytes_view(*final(stream)) == bytes_view(*old(stream)),
{
    if bytes_len(stream) == 0 {
        return Err(PacketParseError::MalformedPacket);
    }
    Ok(bytes_get_u8(stream))
}

pub fn read_u32(stream: &mut Bytes) -> (r: Result<u32, PacketParseError>)
    ensures
        spec_read_u32(bytes_view(*old(stream))) == match r {
            Ok(v) => Ok::<(u32, Seq<u8>), PacketParseError>((v, bytes_view(*final(stream)))),
            Err(e) => Err(e),
        },
        r is Err ==> bytes_view(*final(stream)) == bytes_view(*old(stream)),
{
    if bytes_len(stream) < 4 {
        return Err(PacketParseError::MalformedPacket);
    }
    Ok(bytes_get_u32(stream))
}

/// Reads a byte: the byte and what follows it.
pub open spec fn spec_read_u8(s: Seq<u8>) -> Result<(u8, Seq<u8>), PacketParseError> {
    if s.len() < 1 {
        Err(PacketParseError::MalformedPacket)
    } else {
        Ok((s[0], s.skip(1)))
    }
}

/// Reads a big-endian `u16`: the number and what follows it.
pub open spec fn spec_read_u16(s: Seq<u8>) -> Result<(u16, Seq<u8>), PacketParseError> {
    if s.len() < 2 {
        Err(PacketParseError::MalformedPacket)
    } else {
        Ok((be_u16(s[0], s[1]), s.skip(2)))
    }
}

/// Reads a big-endian `u32`: the number and what follows it.
pub open spec fn spec_read_u32(s: Seq<u8>) -> Result<(u32, Seq<u8>), PacketParseError> {
    if s.len() < 4 {
        Err(PacketParseError::MalformedPacket)
    } else {
        Ok((be_u32(s[0], s[1], s[2], s[3]), s.skip(4)))
    }
}

/// Reads a byte string prefixed with its big-endian `u16` length: the string
/// and what follows it. A length beyond the data left crosses the boundary.
pub open spec fn spec_read_mqtt_bytes(s: Seq<u8>) -> Result<(Seq<u8>, Seq<u8>), PacketParseError> {
    if s.len() < 2 {
        Err(PacketParseError::MalformedPacket)
    } else {
        let n = be_u16(s[0], s[1]) as int;
        if n > s.len() - 2 {
            Err(PacketParseError::BoundaryCrossed(n as usize))
        } else {
            Ok((s.subrange(2, 2 + n), s.skip(2 + n)))
        }
    }
}

/// Reads a UTF-8 string prefixed with its big-endian `u16` length: the text
/// and what follows it.
pub open spec fn spec_read_mqtt_string(s: Seq<u8>) -> Result<
    (Seq<char>, Seq<u8>),
    PacketParseError,
> {
    match spec_read_mqtt_bytes(s) {
        Ok((b, rest)) => if vstd::utf8::valid_utf8(b) {
            Ok((vstd::utf8::decode_utf8(b), rest))
        } else {
            Err(PacketParseError::TopicNotUtf8)
        },
        Err(e) => Err(e),
    }
}

/// The UTF-8 bytes of a text.
pub open spec fn utf8_bytes(t: Seq<char>) -> Seq<u8> {
    vstd::utf8::encode_utf8(t)
}

/// The bytes of a length-prefixed string: its length as a big-endian `u16`
/// (cut to 16 bits) and the bytes themselves.
pub open spec fn spec_mqtt_bytes(b: Seq<u8>) -> Seq<u8> {
    u16_bytes(b.len() as u16) + b
}

/// Reads a series of bytes with a length from a byte stream
pub fn read_mqtt_bytes(stream: &mut Bytes) -> (r: Result<Bytes, PacketParseError>)
    ensures
        spec_read_mqtt_bytes(bytes_view(*old(stream))) == match r {
            Ok(b) => Ok::<(Seq<u8>, Seq<u8>), PacketParseError>(
                (bytes_view(b), bytes_view(*final(stream))),
            ),
            Err(e) => Err(e),
        },
{
    let len = read_u16(stream)?;
    // Prevent attacks with wrong remaining length. This method is used in
    // `packet.assembly()` with (enough) bytes to frame packet. Ensures that
    // reading variable len string or bytes doesn't cross promised boundary
    // with `read_fixed_header()`
    if len as usize > bytes_len(stream) {
        return Err(PacketParseError::BoundaryCrossed(len as usize));
    }
    let ghost s = bytes_view(*old(stream));
    let r = bytes_split_to(stream, len as usize);
    assert(bytes_view(r) =~= s.subrange(2, 2 + len));
    assert(bytes_view(*stream) =~= s.skip(2 + len));
    Ok(r)
}

/// Reads a string from bytes stream
pub fn read_mqtt_string(stream: &mut Bytes) -> (r: Result<String, PacketParseError>)
    ensures
        spec_read_mqtt_string(bytes_view(*old(stream))) == match r {
            Ok(s) => Ok::<(Seq<char>, Seq<u8>), PacketParseError>((s@, bytes_view(*final(stream)))),
            Err(e) => Err(e),
        },
{
    let s = read_mqtt_bytes(stream)?;
    let v = vstd::slice::slice_to_vec(bytes_as_slice(&s));
    match string_from_utf8(v) {
        Ok(v) => Ok(v),
        Err(_e) => Err(PacketParseError::TopicNotUtf8),
    }
}

/// Serializes bytes to stream (including length)
pub fn write_mqtt_bytes(stream: &mut BytesMut, bytes: &[u8])
    requires
        bytes_mut_view(*old(stream)).len() + 2 + bytes@.len() <= max_buffer_len(),
    ensures
        bytes_mut_view(*final(stream)) == bytes_mut_view(*old(stream)) + spec_mqtt_bytes(bytes@),
{
    bytes_mut_put_u16(stream, bytes.len() as u16);
    bytes_mut_extend_from_slice(stream, bytes);
    assert(bytes_mut_view(*stream) =~= bytes_mut_view(*old(stream)) + spec_mqtt_bytes(bytes@));
}

/// Serializes a string to stream
pub fn write_mqtt_string(stream: &mut BytesMut, string: &str)
    requires
        bytes_mut_view(*old(stream)).len() + 2 + string.spec_bytes().len() <= max_buffer_len(),
    ensures
        bytes_mut_view(*final(stream)) == bytes_mut_view(*old(stream)) + spec_mqtt_bytes(
            string.spec_bytes(),
        ),
{
    write_mqtt_bytes(stream, string.as_bytes());
}

/// A length-prefixed byte string of up to 65535 bytes reads back as itself.
pub proof fn lemma_mqtt_bytes_roundtrip(b: Seq<u8>, rest: Seq<u8>)
    requires
        b.len() <= 65535,
    ensures
        spec_read_mqtt_bytes(spec_mqtt_bytes(b) + rest) == Ok::<
            (Seq<u8>, Seq<u8>),
            PacketParseError,
        >((b, rest)),
{
    let s = spec_mqtt_bytes(b) + rest;
    crate::buffer::lemma_u16_bytes_roundtrip(b.len() as u16);
    assert(s.subrange(2, 2 + b.len() as int) =~= b);
    assert(s.skip(2 + b.len() as int) =~= rest);
}

/// A length-prefixed string of up to 65535 bytes reads back as itself.
pub proof fn lemma_mqtt_string_roundtrip(t: Seq<char>, rest: Seq<u8>)
    requires
        vstd::utf8::encode_utf8(t).len() <= 65535,
    ensures
        spec_read_mqtt_string(spec_mqtt_bytes(vstd::utf8::encode_utf8(t)) + rest) == Ok::<
            (Seq<char>, Seq<u8>),
            PacketParseError,
        >((t, rest)),
{
    lemma_mqtt_bytes_roundtrip(vstd::utf8::encode_utf8(t), rest);
    vstd::utf8::encode_utf8_valid_utf8(t);
    vstd::utf8::encode_utf8_decode_utf8(t);
}

} // verus!
