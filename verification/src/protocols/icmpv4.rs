//! Error reporting between network-layer peers.

pub mod error;
pub mod peer;
