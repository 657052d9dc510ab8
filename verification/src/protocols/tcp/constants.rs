use vstd::prelude::*;

verus! {

/// The segment size every host must accept without negotiation.
pub const FALLBACK_MSS: usize = 536;

pub const MIN_MSS: usize = 536;

pub const MAX_MSS: usize = 65535;

pub const DEFAULT_MSS: usize = 1450;

/// How long a data segment may stay unacknowledged before it is sent
/// again, in nanoseconds.
pub const RETRANSMISSION_TIMEOUT_NANOS: u128 = 1_000_000_000;

/// How long a connection lingers after both sides have closed, in
/// nanoseconds.
pub const TIME_WAIT_NANOS: u128 = 60_000_000_000;

} // verus!
