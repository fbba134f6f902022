//! What the user hands to the client: messages and their trace identifiers.
pub mod id;
pub mod payload;
pub mod trace_publish;
