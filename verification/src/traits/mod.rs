//! Traits over packets.
use vstd::prelude::*;

pub mod packet_rel;

verus! {

} // verus!
