//! What a station is configured with.

use vstd::prelude::*;
use crate::fail::Fail;
use crate::protocols::ethernet2::MacAddress;
use crate::protocols::ipv4::address::Ipv4Addr;
use crate::protocols::tcp::constants::DEFAULT_MSS;
use crate::protocols::tcp::options::TcpOptions;
use crate::time::Duration;

verus! {

/// The knobs of address resolution.
#[derive(Clone, Copy, Debug)]
pub struct ArpOptions {
    /// How long a resolved address stays fresh.
    pub cache_ttl: Duration,
    /// How long a request may stay unanswered before it is sent again or
    /// given up.
    pub request_timeout: Duration,
    /// How many times a request is sent again after the first.
    pub retry_count: usize,
}

impl Default for ArpOptions {
    fn default() -> (o: ArpOptions)
        ensures
            o.cache_ttl == (Duration { nanos: 15_000_000_000 }),
            o.request_timeout == (Duration { nanos: 20_000_000_000 }),
            o.retry_count == 5,
    {
        ArpOptions {
            cache_ttl: Duration::from_secs(15),
            request_timeout: Duration::from_secs(20),
            retry_count: 5,
        }
    }
}

/// Everything a station is built from.
#[derive(Clone, Copy, Debug)]
pub struct Options {
    pub my_link_addr: MacAddress,
    pub my_ipv4_addr: Ipv4Addr,
    pub arp: ArpOptions,
    pub tcp: TcpOptions,
    /// What the station's random number generator starts from.
    pub rng_seed: u64,
}

impl Options {
    /// The options of a station with the given addresses and the default
    /// knobs.
    pub fn new(my_link_addr: MacAddress, my_ipv4_addr: Ipv4Addr) -> (o: Options)
        ensures
            o.my_link_addr == my_link_addr,
            o.my_ipv4_addr == my_ipv4_addr,
            o.arp.cache_ttl == (Duration { nanos: 15_000_000_000 }),
            o.arp.request_timeout == (Duration { nanos: 20_000_000_000 }),
            o.arp.retry_count == 5,
            o.tcp.advertised_mss == DEFAULT_MSS,
            o.tcp.handshake_retries == 5,
            o.tcp.handshake_timeout == (Duration { nanos: 3_000_000_000 }),
            o.tcp.receive_window_size == 0xffff,
            o.tcp.retries == 5,
            o.tcp.trailing_ack_delay == (Duration { nanos: 1_000 }),
            o.tcp.valid(),
            o.rng_seed == 0,
    {
        Options {
            my_link_addr,
            my_ipv4_addr,
            arp: ArpOptions::default(),
            tcp: TcpOptions::default(),
            rng_seed: 0,
        }
    }

    /// Whether a station can be built from these options.
    pub open spec fn valid(&self) -> bool {
        self.tcp.valid()
    }

    pub fn validate(&self) -> (r: Result<(), Fail>)
        ensures
            self.valid() ==> r == Ok::<(), Fail>(()),
            !self.valid() ==> r == Err::<(), Fail>(Fail::InvalidConfiguration),
    {
        self.tcp.validate()
    }
}

} // verus!
