//! One module per protocol layer.

pub mod arp;
pub mod ethernet2;
pub mod icmpv4;
pub mod ipv4;
pub mod tcp;
pub mod udp;
