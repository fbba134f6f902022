//! The body of a message: a text or raw bytes.
use crate::buffer::{bytes_as_slice, bytes_len, bytes_view};
use crate::protocol::packet::utf8_bytes;
use bytes::Bytes;
use std::sync::Arc;
use vstd::prelude::*;

verus! {

/// The body of a message.
#[derive(Debug, Clone, PartialEq, Eq)]
pub enum Payload {
    String(Arc<String>),
    Bytes(Arc<Bytes>),
}

impl Payload {
    /// The bytes that the body stands for: a text by its UTF-8 encoding.
    pub open spec fn spec_bytes(&self) -> Seq<u8> {
        match self {
            Payload::String(val) => utf8_bytes((**val)@),
            Payload::Bytes(val) => bytes_view(**val),
        }
    }

    /// The number of bytes of the body.
    pub fn len(&self) -> (r: usize)
        ensures
            r == self.spec_bytes().len(),
    {
        match self {
            Payload::String(val) => val.as_str().as_bytes().len(),
            Payload::Bytes(val) => bytes_len(val),
        }
    }

    /// The bytes of the body.
    pub fn as_bytes(&self) -> (r: &[u8])
        ensures
            r@ == self.spec_bytes(),
    {
        match self {
            Payload::String(val) => val.as_str().as_bytes(),
            Payload::Bytes(val) => bytes_as_slice(val),
        }
    }
}

} // verus!
