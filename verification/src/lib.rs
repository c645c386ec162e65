//! Protocol-aware peer addresses for a two-protocol peer-to-peer stack.
//!
//! The crate pairs a protocol tag with a resolved node address, renders the
//! pair in a canonical `scheme://id@host[:port]` form that elides the port
//! when it equals the protocol's default, and parses that form back.

pub mod addr;
pub mod laws;
pub mod text;
