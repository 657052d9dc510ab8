use vstd::prelude::*;

verus! {

/// Why an operation of the stack did not complete.
#[derive(Clone, Copy, Debug, PartialEq, Eq, Structural)]
pub enum Fail {
    /// A header could not be parsed.
    Malformed,
    /// A well-formed packet whose destination is another station.
    Misdelivered,
    /// A well-formed packet that carries a protocol this stack does not speak.
    Unsupported,
    /// Address resolution ran out of attempts.
    ResolutionTimeout,
    /// A connection attempt ran out of handshake retransmissions.
    HandshakeTimeout,
    /// A data segment ran out of retransmissions.
    RetransmissionExhausted,
    /// A configuration value is outside its permitted range.
    InvalidConfiguration,
    /// A payload is larger than one packet can carry.
    TooLarge,
    /// The station has run out of handles to give out.
    ResourceExhausted,
    /// The remote station reset the connection.
    ConnectionReset,
    /// The connection is closed, or closing, for what was asked of it.
    ConnectionClosed,
    /// No connection has the handle that was named.
    NoSuchConnection,
    /// A connection between the same two end points exists already.
    AddressInUse,
}

} // verus!
