//! A user-space network protocol stack driven by a virtual clock.
//!
//! Frames enter through [`engine::Engine::receive`] and flow down through
//! the Ethernet, ARP, IPv4, UDP, ICMPv4 and TCP layers. Every externally
//! visible outcome leaves as an [`effect::Effect`] that the caller drains,
//! and time passes only when the caller moves the clock. What each call
//! does is stated over the views of the state that it touches, and the
//! exchanges between two stations are stated as theorems beside the code.

pub mod effect;
pub mod engine;
pub mod fail;
pub mod options;
pub mod protocols;
pub mod runtime;
pub mod time;
pub mod wire;
