use catnip::effect::Effect;
use catnip::fail::Fail;
use catnip::options::Options;
use catnip::protocols::arp::pdu::{ArpMessage, ArpOperation, ArpPdu};
use catnip::protocols::ethernet2::{EtherType, Ethernet2Header, MacAddress};
use catnip::protocols::icmpv4::error::ErrorId;
use catnip::protocols::ipv4::address::Ipv4Addr;
use catnip::runtime::Runtime;
use catnip::time::{Duration, Instant};

fn link() -> MacAddress {
    MacAddress::new([2, 0, 0, 0, 0, 1])
}

fn addr() -> Ipv4Addr {
    Ipv4Addr::new(10, 0, 0, 1)
}

fn runtime() -> Runtime {
    Runtime::from_options(Instant::origin(), Options::new(link(), addr())).unwrap()
}

#[test]
fn runtime_tells_what_it_was_built_from() {
    let now = Instant::origin().saturating_add(Duration::from_secs(7));
    let mut options = Options::new(link(), addr());
    options.arp.retry_count = 2;
    let rt = Runtime::from_options(now, options).unwrap();
    assert_eq!(rt.now(), now);
    assert_eq!(rt.local_link_addr(), link());
    assert_eq!(rt.local_ipv4_addr(), addr());
    assert_eq!(rt.arp_options().retry_count, 2);
    assert_eq!(rt.tcp_options().retries, 5);
    assert_eq!(rt.options().rng_seed, 0);
    options.tcp.receive_window_size = 0;
    assert!(matches!(
        Runtime::from_options(now, options),
        Err(Fail::InvalidConfiguration)
    ));
}

#[test]
fn effects_leave_in_the_order_in_which_they_came() {
    let mut rt = runtime();
    assert!(rt.poll().is_none());
    rt.transmit(vec![1]);
    rt.emit_effect(Effect::Icmpv4Error {
        id: ErrorId::SourceQuench,
        next_hop_mtu: 9,
        context: vec![2],
    });
    rt.transmit(vec![3]);
    assert!(matches!(rt.poll(), Some(Effect::Transmit(bytes)) if bytes == vec![1]));
    assert!(matches!(
        rt.poll(),
        Some(Effect::Icmpv4Error { next_hop_mtu: 9, .. })
    ));
    rt.transmit(vec![4]);
    assert!(matches!(rt.poll(), Some(Effect::Transmit(bytes)) if bytes == vec![3]));
    assert!(matches!(rt.poll(), Some(Effect::Transmit(bytes)) if bytes == vec![4]));
    assert!(rt.poll().is_none());
    assert!(rt.poll().is_none());
}

#[test]
fn packets_are_written_out_for_transmission() {
    let mut rt = runtime();
    let message = ArpMessage {
        ethernet: Ethernet2Header {
            dest_addr: MacAddress::broadcast(),
            src_addr: link(),
            ether_type: EtherType::Arp,
        },
        pdu: ArpPdu {
            operation: ArpOperation::Request,
            sender_link_addr: link(),
            sender_ipv4_addr: addr(),
            target_link_addr: MacAddress::nil(),
            target_ipv4_addr: Ipv4Addr::new(10, 0, 0, 2),
        },
    };
    rt.transmit2(&message);
    match rt.poll() {
        Some(Effect::Transmit(bytes)) => {
            assert_eq!(bytes.len(), 60);
            assert_eq!(&bytes[..6], &[0xff; 6]);
            assert_eq!(&bytes[12..14], &[0x08, 0x06]);
            assert_eq!(&bytes[38..42], &[10, 0, 0, 2]);
        }
        e => panic!("got unanticipated effect `{:?}`", e),
    }
}

#[test]
fn waits_end_when_the_clock_gets_there() {
    let mut rt = runtime();
    let start = rt.now();
    let short = rt.wait(Duration::from_millis(5));
    let long = rt.wait_until(start.saturating_add(Duration::from_secs(1)));
    let none = rt.wait(Duration::new(0, 0));
    assert_eq!(short.when.nanos, 5_000_000);
    assert!(none.has_completed(&rt));
    assert!(!short.has_completed(&rt));
    rt.advance_clock(start.saturating_add(Duration::from_millis(4)));
    assert!(!short.has_completed(&rt));
    rt.advance_clock(start.saturating_add(Duration::from_millis(5)));
    assert!(short.has_completed(&rt));
    assert!(!long.has_completed(&rt));
    // the clock does not go back, and neither does a wait that is over.
    rt.advance_clock(start);
    assert_eq!(rt.now().nanos, 5_000_000);
    assert!(short.has_completed(&rt));
    rt.advance_clock(start.saturating_add(Duration::from_secs(1)));
    assert!(long.has_completed(&rt));
}

#[test]
fn random_numbers_follow_the_seed() {
    let mut options = Options::new(link(), addr());
    options.rng_seed = 42;
    let mut one = Runtime::from_options(Instant::origin(), options).unwrap();
    let mut two = Runtime::from_options(Instant::origin(), options).unwrap();
    let first: Vec<u32> = (0..8).map(|_| one.rng_gen()).collect();
    let second: Vec<u32> = (0..8).map(|_| two.rng_gen()).collect();
    assert_eq!(first, second);
    // a stream is no constant.
    assert!(first.iter().any(|n| *n != first[0]));
    options.rng_seed = 43;
    let mut three = Runtime::from_options(Instant::origin(), options).unwrap();
    let third: Vec<u32> = (0..8).map(|_| three.rng_gen()).collect();
    assert_ne!(first, third);
    // drawing numbers shows nothing.
    assert!(one.poll().is_none());
}
