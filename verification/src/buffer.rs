//! Byte buffers of the `bytes` crate, as the packet codecs see them.
//!
//! A `Bytes` is a read cursor over a frozen byte sequence, a `BytesMut` a
//! growable byte sequence that the encoders append to. Their contents are
//! named by `bytes_view` and `bytes_mut_view`; each method of the crate that
//! the codecs call has a wrapper here whose contract says what the call does
//! to those contents.
use bytes::{Buf, BufMut, Bytes, BytesMut};
use vstd::prelude::*;

verus! {

#[verifier::external_type_specification]
#[verifier::external_body]
pub struct ExBytes(bytes::Bytes);

#[verifier::external_type_specification]
#[verifier::external_body]
pub struct ExBytesMut(bytes::BytesMut);

/// The bytes that a `bytes::Bytes` holds, from its read position to its end.
pub uninterp spec fn bytes_view(b: Bytes) -> Seq<u8>;

/// The bytes that a `bytes::BytesMut` holds.
pub uninterp spec fn bytes_mut_view(b: BytesMut) -> Seq<u8>;

/// The largest number of bytes that a buffer may come to hold: beyond it the
/// allocation of `BytesMut` panics.
pub open spec fn max_buffer_len() -> int {
    isize::MAX as int
}

/// The big-endian value of two bytes.
pub open spec fn be_u16(b0: u8, b1: u8) -> u16 {
    (b0 as int * 256 + b1 as int) as u16
}

/// The big-endian value of four bytes.
pub open spec fn be_u32(b0: u8, b1: u8, b2: u8, b3: u8) -> u32 {
    (b0 as int * 16777216 + b1 as int * 65536 + b2 as int * 256 + b3 as int) as u32
}

/// The two big-endian bytes of a `u16`.
pub open spec fn u16_bytes(v: u16) -> Seq<u8> {
    seq![(v as int / 256) as u8, (v as int % 256) as u8]
}

/// The four big-endian bytes of a `u32`.
pub open spec fn u32_bytes(v: u32) -> Seq<u8> {
    seq![
        (v as int / 16777216) as u8,
        (v as int / 65536 % 256) as u8,
        (v as int / 256 % 256) as u8,
        (v as int % 256) as u8,
    ]
}

/// Encoding a `u16` and decoding the two bytes gives the number back.
pub proof fn lemma_u16_bytes_roundtrip(v: u16)
    ensures
        u16_bytes(v).len() == 2,
        be_u16(u16_bytes(v)[0], u16_bytes(v)[1]) == v,
{
}

/// Encoding a `u32` and decoding the four bytes gives the number back.
pub proof fn lemma_u32_bytes_roundtrip(v: u32)
    ensures
        u32_bytes(v).len() == 4,
        be_u32(u32_bytes(v)[0], u32_bytes(v)[1], u32_bytes(v)[2], u32_bytes(v)[3]) == v,
{
    let x = v as int;
    assert(x == (x / 16777216) * 16777216 + (x / 65536 % 256) * 65536 + (x / 256 % 256) * 256
        + x % 256) by (nonlinear_arith)
        requires
            0 <= x < 4294967296,
    ;
}

/// `Bytes::len`: the number of bytes left to read.
#[verifier::external_body]
pub(crate) fn bytes_len(b: &Bytes) -> (n: usize)
    ensures
        n == bytes_view(*b).len(),
{
    b.len()
}

/// `Clone for Bytes`: another handle on the same bytes.
#[verifier::external_body]
pub(crate) fn bytes_clone(b: &Bytes) -> (r: Bytes)
    ensures
        bytes_view(r) == bytes_view(*b),
{
    b.clone()
}

/// `Bytes::from(Vec<u8>)`: a buffer that holds the vector's bytes.
#[verifier::external_body]
pub(crate) fn bytes_from_vec(v: Vec<u8>) -> (b: Bytes)
    ensures
        bytes_view(b) == v@,
{
    Bytes::from(v)
}

/// `Deref for Bytes`: the bytes left to read, as a slice.
#[verifier::external_body]
pub(crate) fn bytes_as_slice(b: &Bytes) -> (s: &[u8])
    ensures
        s@ == bytes_view(*b),
{
    b.as_ref()
}

/// `Buf::advance` on `Bytes`: skip `n` bytes. It panics past the end.
#[verifier::external_body]
pub(crate) fn bytes_advance(b: &mut Bytes, n: usize)
    requires
        n <= bytes_view(*old(b)).len(),
    ensures
        bytes_view(*final(b)) == bytes_view(*old(b)).skip(n as int),
{
    b.advance(n)
}

/// `Bytes::split_to`: take the first `n` bytes off the buffer. It panics past
/// the end.
#[verifier::external_body]
pub(crate) fn bytes_split_to(b: &mut Bytes, n: usize) -> (front: Bytes)
    requires
        n <= bytes_view(*old(b)).len(),
    ensures
        bytes_view(front) == bytes_view(*old(b)).take(n as int),
        bytes_view(*final(b)) == bytes_view(*old(b)).skip(n as int),
{
    b.split_to(n)
}

/// `Buf::get_u8` on `Bytes`: read one byte. It panics on an empty buffer.
#[verifier::external_body]
pub(crate) fn bytes_get_u8(b: &mut Bytes) -> (r: u8)
    requires
        1 <= bytes_view(*old(b)).len(),
    ensures
        r == bytes_view(*old(b))[0],
        bytes_view(*final(b)) == bytes_view(*old(b)).skip(1),
{
    b.get_u8()
}

/// `Buf::get_u16` on `Bytes`: read a big-endian `u16`. It panics when fewer
/// than two bytes are left.
#[verifier::external_body]
pub(crate) fn bytes_get_u16(b: &mut Bytes) -> (r: u16)
    requires
        2 <= bytes_view(*old(b)).len(),
    ensures
        r == be_u16(bytes_view(*old(b))[0], bytes_view(*old(b))[1]),
        bytes_view(*final(b)) == bytes_view(*old(b)).skip(2),
{
    b.get_u16()
}

/// `Buf::get_u32` on `Bytes`: read a big-endian `u32`. It panics when fewer
/// than four bytes are left.
#[verifier::external_body]
pub(crate) fn bytes_get_u32(b: &mut Bytes) -> (r: u32)
    requires
        4 <= bytes_view(*old(b)).len(),
    ensures
        r == be_u32(
            bytes_view(*old(b))[0],
            bytes_view(*old(b))[1],
            bytes_view(*old(b))[2],
            bytes_view(*old(b))[3],
        ),
        bytes_view(*final(b)) == bytes_view(*old(b)).skip(4),
{
    b.get_u32()
}

/// `BytesMut::new`: an empty buffer.
#[verifier::external_body]
pub(crate) fn bytes_mut_new() -> (b: BytesMut)
    ensures
        bytes_mut_view(b) == Seq::<u8>::empty(),
{
    BytesMut::new()
}

/// `BytesMut::len`: the number of bytes held. No allocation holds more than
/// `isize::MAX` bytes.
#[verifier::external_body]
pub(crate) fn bytes_mut_len(b: &BytesMut) -> (n: usize)
    ensures
        n == bytes_mut_view(*b).len(),
        n <= max_buffer_len(),
{
    b.len()
}

/// `Deref for BytesMut`: the bytes held, as a slice.
#[verifier::external_body]
pub(crate) fn bytes_mut_as_slice(b: &BytesMut) -> (s: &[u8])
    ensures
        s@ == bytes_mut_view(*b),
{
    b.as_ref()
}

/// `BufMut::put_u8` on `BytesMut`: append one byte.
#[verifier::external_body]
pub(crate) fn bytes_mut_put_u8(b: &mut BytesMut, v: u8)
    requires
        bytes_mut_view(*old(b)).len() + 1 <= max_buffer_len(),
    ensures
        bytes_mut_view(*final(b)) == bytes_mut_view(*old(b)).push(v),
{
    b.put_u8(v)
}

/// `BufMut::put_u16` on `BytesMut`: append a `u16` in big-endian order.
#[verifier::external_body]
pub(crate) fn bytes_mut_put_u16(b: &mut BytesMut, v: u16)
    requires
        bytes_mut_view(*old(b)).len() + 2 <= max_buffer_len(),
    ensures
        bytes_mut_view(*final(b)) == bytes_mut_view(*old(b)) + u16_bytes(v),
{
    b.put_u16(v)
}

/// `BufMut::put_u32` on `BytesMut`: append a `u32` in big-endian order.
#[verifier::external_body]
pub(crate) fn bytes_mut_put_u32(b: &mut BytesMut, v: u32)
    requires
        bytes_mut_view(*old(b)).len() + 4 <= max_buffer_len(),
    ensures
        bytes_mut_view(*final(b)) == bytes_mut_view(*old(b)) + u32_bytes(v),
{
    b.put_u32(v)
}

/// `BytesMut::extend_from_slice`: append the bytes of a slice.
#[verifier::external_body]
pub(crate) fn bytes_mut_extend_from_slice(b: &mut BytesMut, s: &[u8])
    requires
        bytes_mut_view(*old(b)).len() + s@.len() <= max_buffer_len(),
    ensures
        bytes_mut_view(*final(b)) == bytes_mut_view(*old(b)) + s@,
{
    b.extend_from_slice(s)
}

/// `IndexMut` through `DerefMut for BytesMut`: overwrite the byte at `i`.
/// Indexing past the end panics.
#[verifier::external_body]
pub(crate) fn bytes_mut_set(b: &mut BytesMut, i: usize, v: u8)
    requires
        i < bytes_mut_view(*old(b)).len(),
    ensures
        bytes_mut_view(*final(b)) == bytes_mut_view(*old(b)).update(i as int, v),
{
    b[i] = v;
}

/// `BytesMut::split_to`: take the first `n` bytes off the buffer. It panics
/// past the end.
#[verifier::external_body]
pub(crate) fn bytes_mut_split_to(b: &mut BytesMut, n: usize) -> (front: BytesMut)
    requires
        n <= bytes_mut_view(*old(b)).len(),
    ensures
        bytes_mut_view(front) == bytes_mut_view(*old(b)).take(n as int),
        bytes_mut_view(*final(b)) == bytes_mut_view(*old(b)).skip(n as int),
{
    b.split_to(n)
}

/// `BytesMut::freeze`: the same bytes, as a read-only `Bytes`.
#[verifier::external_body]
pub(crate) fn bytes_mut_freeze(b: BytesMut) -> (r: Bytes)
    ensures
        bytes_view(r) == bytes_mut_view(b),
{
    b.freeze()
}

/// `String::from_utf8`: the text that the bytes encode, if they are valid
/// UTF-8; the error otherwise.
#[verifier::external_body]
pub(crate) fn string_from_utf8(v: Vec<u8>) -> (r: Result<String, ()>)
    ensures
        r is Ok <==> vstd::utf8::valid_utf8(v@),
        r matches Ok(s) ==> s@ == vstd::utf8::decode_utf8(v@),
{
    String::from_utf8(v).map_err(|_| ())
}

} // verus!
