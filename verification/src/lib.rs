//! Server-side SOCKS5 negotiation: frame buffering, wire-format parsing, and
//! the per-connection handshake state machine.
//!
//! The library holds the protocol logic only. Sockets, the event loop, name
//! resolution and the relay phase live outside; they hand the state machine
//! plain bytes and carry out the actions it decides on.

pub mod buffer;
pub mod laws;
pub mod negotiate;
pub mod wire;

use vstd::prelude::*;

verus! {

/// SOCKS protocol version byte carried by every frame.
pub const VERSION: u8 = 5;

} // verus!
