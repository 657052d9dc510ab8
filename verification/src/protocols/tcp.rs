//! Transmission control: configuration and the per-connection state machine.

pub mod connection;
pub mod constants;
pub mod options;
pub mod peer;
pub mod segment;
pub mod state;
