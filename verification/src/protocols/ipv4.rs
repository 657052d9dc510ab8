//! The network layer: addresses, packets, and the peer that routes inbound
//! packets to the transport layers.

pub mod address;
pub mod packet;
pub mod peer;
