//! Address resolution: the wire format, the cache, and the peer that owns
//! both the cache and the requests in flight.

pub mod pdu;
pub mod peer;
