use vstd::prelude::*;
use crate::fail::Fail;
use crate::protocols::tcp::constants::{DEFAULT_MSS, MAX_MSS, MIN_MSS};
use crate::time::Duration;

verus! {

/// The knobs of a TCP peer. Every peer is built from one value of this type
/// and never changes it afterwards.
#[derive(Clone, Copy, Debug)]
pub struct TcpOptions {
    pub advertised_mss: usize,
    pub handshake_retries: usize,
    pub handshake_timeout: Duration,
    pub receive_window_size: usize,
    pub retries: usize,
    pub trailing_ack_delay: Duration,
}

impl Default for TcpOptions {
    fn default() -> (o: TcpOptions)
        ensures
            o.advertised_mss == DEFAULT_MSS,
            o.handshake_retries == 5,
            o.handshake_timeout == (Duration { nanos: 3_000_000_000 }),
            o.receive_window_size == 0xffff,
            o.retries == 5,
            o.trailing_ack_delay == (Duration { nanos: 1_000 }),
            o.valid(),
    {
        TcpOptions {
            advertised_mss: DEFAULT_MSS,
            handshake_retries: 5,
            handshake_timeout: Duration::from_secs(3),
            receive_window_size: 0xffff,
            retries: 5,
            trailing_ack_delay: Duration::from_micros(1),
        }
    }
}

impl TcpOptions {
    /// Every bound that a peer relies on.
    pub open spec fn valid(&self) -> bool {
        &&& MIN_MSS <= self.advertised_mss <= MAX_MSS
        &&& self.handshake_retries > 0
        &&& self.handshake_timeout.nanos > 0
        &&& self.receive_window_size > 0
        &&& self.retries > 0
    }

    /// Sets the advertised maximum segment size, which must lie within
    /// `[MIN_MSS, MAX_MSS]`.
    pub fn advertised_mss(self, value: usize) -> (r: Result<TcpOptions, Fail>)
        ensures
            MIN_MSS <= value <= MAX_MSS ==> r == Ok::<TcpOptions, Fail>(
                TcpOptions { advertised_mss: value, ..self },
            ),
            !(MIN_MSS <= value <= MAX_MSS) ==> r == Err::<TcpOptions, Fail>(
                Fail::InvalidConfiguration,
            ),
    {
        if value < MIN_MSS || value > MAX_MSS {
            return Err(Fail::InvalidConfiguration);
        }
        let mut options = self;
        options.advertised_mss = value;
        Ok(options)
    }

    /// Sets how many times a handshake segment is sent before the attempt is
    /// given up; at least once.
    pub fn handshake_retries(self, value: usize) -> (r: Result<TcpOptions, Fail>)
        ensures
            value > 0 ==> r == Ok::<TcpOptions, Fail>(
                TcpOptions { handshake_retries: value, ..self },
            ),
            value == 0 ==> r == Err::<TcpOptions, Fail>(Fail::InvalidConfiguration),
    {
        if value == 0 {
            return Err(Fail::InvalidConfiguration);
        }
        let mut options = self;
        options.handshake_retries = value;
        Ok(options)
    }

    /// Sets how long a handshake segment may stay unanswered; longer than
    /// nothing.
    pub fn handshake_timeout(self, value: Duration) -> (r: Result<TcpOptions, Fail>)
        ensures
            value.nanos > 0 ==> r == Ok::<TcpOptions, Fail>(
                TcpOptions { handshake_timeout: value, ..self },
            ),
            value.nanos == 0 ==> r == Err::<TcpOptions, Fail>(Fail::InvalidConfiguration),
    {
        if value.is_zero() {
            return Err(Fail::InvalidConfiguration);
        }
        let mut options = self;
        options.handshake_timeout = value;
        Ok(options)
    }

    /// Sets the window advertised in every outgoing segment; at least one
    /// byte.
    pub fn receive_window_size(self, value: usize) -> (r: Result<TcpOptions, Fail>)
        ensures
            value > 0 ==> r == Ok::<TcpOptions, Fail>(
                TcpOptions { receive_window_size: value, ..self },
            ),
            value == 0 ==> r == Err::<TcpOptions, Fail>(Fail::InvalidConfiguration),
    {
        if value == 0 {
            return Err(Fail::InvalidConfiguration);
        }
        let mut options = self;
        options.receive_window_size = value;
        Ok(options)
    }

    /// Sets how many times a data segment is sent before the connection is
    /// aborted; at least once.
    pub fn retries(self, value: usize) -> (r: Result<TcpOptions, Fail>)
        ensures
            value > 0 ==> r == Ok::<TcpOptions, Fail>(TcpOptions { retries: value, ..self }),
            value == 0 ==> r == Err::<TcpOptions, Fail>(Fail::InvalidConfiguration),
    {
        if value == 0 {
            return Err(Fail::InvalidConfiguration);
        }
        let mut options = self;
        options.retries = value;
        Ok(options)
    }

    /// Sets how long a bare acknowledgment may wait for outbound data to
    /// ride on. Every span is acceptable.
    pub fn trailing_ack_delay(self, value: Duration) -> (r: TcpOptions)
        ensures
            r == (TcpOptions { trailing_ack_delay: value, ..self }),
    {
        let mut options = self;
        options.trailing_ack_delay = value;
        options
    }

    /// Checks every bound at once, for a value whose fields were written
    /// directly.
    pub fn validate(&self) -> (r: Result<(), Fail>)
        ensures
            self.valid() ==> r == Ok::<(), Fail>(()),
            !self.valid() ==> r == Err::<(), Fail>(Fail::InvalidConfiguration),
    {
        if self.advertised_mss < MIN_MSS || self.advertised_mss > MAX_MSS
            || self.handshake_retries == 0 || self.handshake_timeout.is_zero()
            || self.receive_window_size == 0 || self.retries == 0 {
            Err(Fail::InvalidConfiguration)
        } else {
            Ok(())
        }
    }
}

/// A builder step keeps a valid configuration valid: whatever it accepts
/// lies within the bounds, and it touches no other field.
pub proof fn accepted_values_keep_options_valid(
    o: TcpOptions,
    mss: usize,
    count: usize,
    span: Duration,
)
    requires
        o.valid(),
    ensures
        MIN_MSS <= mss <= MAX_MSS ==> (TcpOptions { advertised_mss: mss, ..o }).valid(),
        count > 0 ==> (TcpOptions { handshake_retries: count, ..o }).valid(),
        count > 0 ==> (TcpOptions { receive_window_size: count, ..o }).valid(),
        count > 0 ==> (TcpOptions { retries: count, ..o }).valid(),
        span.nanos > 0 ==> (TcpOptions { handshake_timeout: span, ..o }).valid(),
        (TcpOptions { trailing_ack_delay: span, ..o }).valid(),
{
}

} // verus!
