//! The decisions of the client's tasks: the hub that keeps the session, and
//! the network task that frames what the broker sends.
use vstd::prelude::*;

pub mod builder;
pub mod client_data;
pub mod exchange;
pub mod hub;
pub mod hub_data;
pub mod id_pool;
pub mod network;
pub mod ping;
pub mod unacknowledged;

verus! {

} // verus!
