//! Datagram transport: the wire format and the peer that owns the port table.

pub mod datagram;
pub mod peer;
