use catnip::effect::Effect;
use catnip::engine::Engine;
use catnip::fail::Fail;
use catnip::options::Options;
use catnip::protocols::arp::pdu::{ArpMessage, ArpOperation, ArpPdu};
use catnip::protocols::arp::peer::ArpQuery;
use catnip::protocols::ethernet2::{EtherType, Ethernet2Header, Frame, MacAddress};
use catnip::protocols::ipv4::address::Ipv4Addr;
use catnip::protocols::udp::datagram::UdpDatagram;
use catnip::runtime::PacketBuf;
use catnip::time::{Duration, Instant};

fn alice_link() -> MacAddress {
    MacAddress::new([0x12, 0x23, 0x45, 0x67, 0x89, 0xab])
}

fn alice_ip() -> Ipv4Addr {
    Ipv4Addr::new(192, 168, 1, 1)
}

fn bob_link() -> MacAddress {
    MacAddress::new([0xab, 0x89, 0x67, 0x45, 0x23, 0x12])
}

fn bob_ip() -> Ipv4Addr {
    Ipv4Addr::new(192, 168, 1, 2)
}

fn carrie_ip() -> Ipv4Addr {
    Ipv4Addr::new(192, 168, 1, 3)
}

fn station(link: MacAddress, ip: Ipv4Addr) -> Engine {
    Engine::from_options(Instant::origin(), Options::new(link, ip)).unwrap()
}

fn transmitted(engine: &mut Engine, now: Instant) -> Vec<Vec<u8>> {
    let mut frames = Vec::new();
    loop {
        match engine.poll(now) {
            Some(Effect::Transmit(bytes)) => frames.push(bytes),
            Some(e) => panic!("got unanticipated effect `{:?}`", e),
            None => return frames,
        }
    }
}

fn pdu_of(frame: &[u8]) -> ArpPdu {
    let frame = Frame::from_bytes(frame).unwrap();
    assert_eq!(frame.header.ether_type, EtherType::Arp);
    ArpPdu::from_bytes(&frame.text).unwrap()
}

fn at(secs: u64) -> Instant {
    Instant::origin().saturating_add(Duration::from_secs(secs))
}

#[test]
fn duplicate_queries_broadcast_one_request() {
    let now = Instant::origin();
    let mut alice = station(alice_link(), alice_ip());
    assert_eq!(alice.arp_query(bob_ip()), ArpQuery::Pending);
    assert_eq!(alice.arp_query(bob_ip()), ArpQuery::Pending);
    let a = alice.udp_cast(bob_ip(), 80, 1234, vec![1]).unwrap();
    let b = alice.udp_cast(bob_ip(), 80, 1234, vec![2]).unwrap();
    assert_ne!(a, b);
    let frames = transmitted(&mut alice, now);
    assert_eq!(frames.len(), 1);
    let frame = Frame::from_bytes(&frames[0]).unwrap();
    assert!(frame.header.dest_addr.is_broadcast());
    assert_eq!(frame.header.src_addr, alice_link());
    let pdu = pdu_of(&frames[0]);
    assert_eq!(pdu.operation, ArpOperation::Request);
    assert_eq!(pdu.sender_link_addr, alice_link());
    assert_eq!(pdu.sender_ipv4_addr, alice_ip());
    assert_eq!(pdu.target_link_addr, MacAddress::nil());
    assert_eq!(pdu.target_ipv4_addr, bob_ip());
    assert_eq!(alice.poll_cast(a), None);
    assert_eq!(alice.poll_cast(b), None);

    // another address gets a request of its own.
    assert_eq!(alice.arp_query(carrie_ip()), ArpQuery::Pending);
    let frames = transmitted(&mut alice, now);
    assert_eq!(frames.len(), 1);
    assert_eq!(pdu_of(&frames[0]).target_ipv4_addr, carrie_ip());
}

#[test]
fn request_is_answered_and_reply_resumes_casts() {
    let now = Instant::origin();
    let mut alice = station(alice_link(), alice_ip());
    let mut bob = station(bob_link(), bob_ip());
    let first = alice.udp_cast(bob_ip(), 80, 1234, vec![1, 2, 3]).unwrap();
    let second = alice.udp_cast(bob_ip(), 81, 1235, vec![4]).unwrap();
    let request = transmitted(&mut alice, now);
    assert_eq!(request.len(), 1);

    bob.receive(&request[0]).unwrap();
    let reply = transmitted(&mut bob, now);
    assert_eq!(reply.len(), 1);
    let frame = Frame::from_bytes(&reply[0]).unwrap();
    assert_eq!(frame.header.dest_addr, alice_link());
    assert_eq!(frame.header.src_addr, bob_link());
    let pdu = pdu_of(&reply[0]);
    assert_eq!(pdu.operation, ArpOperation::Reply);
    assert_eq!(pdu.sender_link_addr, bob_link());
    assert_eq!(pdu.sender_ipv4_addr, bob_ip());
    assert_eq!(pdu.target_link_addr, alice_link());
    assert_eq!(pdu.target_ipv4_addr, alice_ip());
    // bob learnt alice from her request.
    assert_eq!(bob.arp_query(alice_ip()), ArpQuery::Resolved(alice_link()));

    alice.receive(&reply[0]).unwrap();
    assert_eq!(alice.arp_query(bob_ip()), ArpQuery::Resolved(bob_link()));
    let frames = transmitted(&mut alice, now);
    assert_eq!(frames.len(), 2);
    let one = UdpDatagram::from_bytes(&frames[0]).unwrap();
    assert_eq!((one.header.src_port, one.header.dest_port), (1234, 80));
    assert_eq!(one.text, vec![1, 2, 3]);
    let two = UdpDatagram::from_bytes(&frames[1]).unwrap();
    assert_eq!((two.header.src_port, two.header.dest_port), (1235, 81));
    assert_eq!(Frame::from_bytes(&frames[0]).unwrap().header.dest_addr, bob_link());
    assert_eq!(alice.poll_cast(first), Some(Ok(())));
    assert_eq!(alice.poll_cast(second), Some(Ok(())));
    assert_eq!(alice.poll_cast(first), None);
}

#[test]
fn unanswered_request_is_retried_then_given_up() {
    let mut alice = station(alice_link(), alice_ip());
    let cast = alice.udp_cast(bob_ip(), 80, 1234, vec![1]).unwrap();
    assert_eq!(transmitted(&mut alice, at(0)).len(), 1);
    // nothing happens before the deadline.
    assert_eq!(transmitted(&mut alice, at(19)).len(), 0);
    // five retries, twenty seconds apart.
    for round in 1..=5u64 {
        let frames = transmitted(&mut alice, at(20 * round));
        assert_eq!(frames.len(), 1, "round {}", round);
        assert_eq!(pdu_of(&frames[0]).target_ipv4_addr, bob_ip());
        assert_eq!(alice.poll_cast(cast), None);
        assert_eq!(transmitted(&mut alice, at(20 * round + 10)).len(), 0);
    }
    assert_eq!(transmitted(&mut alice, at(120)).len(), 0);
    assert_eq!(alice.poll_cast(cast), Some(Err(Fail::ResolutionTimeout)));
    assert_eq!(alice.poll_cast(cast), None);
    // the next lookup starts over.
    assert_eq!(alice.arp_query(bob_ip()), ArpQuery::Pending);
    assert_eq!(transmitted(&mut alice, at(120)).len(), 1);
}

#[test]
fn cache_entries_expire() {
    let mut alice = station(alice_link(), alice_ip());
    alice.import_arp_cache(&vec![(bob_ip(), bob_link()), (carrie_ip(), alice_link())]);
    assert_eq!(alice.arp_query(bob_ip()), ArpQuery::Resolved(bob_link()));
    assert_eq!(alice.arp_query(carrie_ip()), ArpQuery::Resolved(alice_link()));
    alice.advance_clock(at(14));
    assert_eq!(alice.arp_query(bob_ip()), ArpQuery::Resolved(bob_link()));
    alice.advance_clock(at(15));
    assert_eq!(alice.arp_query(bob_ip()), ArpQuery::Pending);
    assert_eq!(transmitted(&mut alice, at(15)).len(), 1);
}

#[test]
fn clock_never_runs_backwards() {
    let mut alice = station(alice_link(), alice_ip());
    alice.advance_clock(at(10));
    assert_eq!(alice.now(), at(10));
    alice.advance_clock(at(5));
    assert_eq!(alice.now(), at(10));
    alice.advance_clock(at(10));
    assert_eq!(alice.now(), at(10));
    assert!(alice.poll(at(3)).is_none());
    assert_eq!(alice.now(), at(10));
    assert_eq!(alice.options().my_ipv4_addr, alice_ip());
}

#[test]
fn messages_for_others_are_not_answered() {
    let now = Instant::origin();
    let mut alice = station(alice_link(), alice_ip());
    let for_carrie = ArpMessage {
        ethernet: Ethernet2Header {
            dest_addr: MacAddress::broadcast(),
            src_addr: bob_link(),
            ether_type: EtherType::Arp,
        },
        pdu: ArpPdu {
            operation: ArpOperation::Request,
            sender_link_addr: bob_link(),
            sender_ipv4_addr: bob_ip(),
            target_link_addr: MacAddress::nil(),
            target_ipv4_addr: carrie_ip(),
        },
    };
    let mut bytes = vec![0u8; for_carrie.compute_size()];
    for_carrie.serialize(&mut bytes);
    assert_eq!(alice.receive(&bytes), Err(Fail::Misdelivered));
    assert!(alice.poll(now).is_none());
    // alice did not learn bob from a message that was not for her.
    assert_eq!(alice.arp_query(bob_ip()), ArpQuery::Pending);
    assert_eq!(transmitted(&mut alice, now).len(), 1);

    // a sender that the cache knows is brought up to date all the same.
    let mut alice = station(alice_link(), alice_ip());
    alice.import_arp_cache(&vec![(bob_ip(), alice_link())]);
    assert_eq!(alice.receive(&bytes), Ok(()));
    assert!(alice.poll(now).is_none());
    assert_eq!(alice.arp_query(bob_ip()), ArpQuery::Resolved(bob_link()));
}

#[test]
fn malformed_arp_frames_are_refused() {
    let mut alice = station(alice_link(), alice_ip());
    let mut bytes = vec![0xffu8; 6];
    bytes.extend_from_slice(&[1, 1, 1, 1, 1, 1, 0x08, 0x06]);
    bytes.extend_from_slice(&[0; 20]);
    assert_eq!(alice.receive(&bytes), Err(Fail::Malformed));
    bytes.extend_from_slice(&[0; 26]);
    assert_eq!(alice.receive(&bytes), Err(Fail::Unsupported));
    assert!(alice.poll(Instant::origin()).is_none());
}

#[test]
fn a_full_cache_makes_room_by_forgetting() {
    let now = Instant::origin();
    let mut alice = station(alice_link(), alice_ip());
    let addr = |i: u32| Ipv4Addr {
        value: 0x0a00_0000 + i,
    };
    let entries: Vec<(Ipv4Addr, MacAddress)> = (0..1024).map(|i| (addr(i), bob_link())).collect();
    alice.import_arp_cache(&entries);
    assert_eq!(alice.arp_query(addr(0)), ArpQuery::Resolved(bob_link()));
    assert_eq!(alice.arp_query(addr(1023)), ArpQuery::Resolved(bob_link()));
    // an address that the cache knows takes no new room.
    alice.import_arp_cache(&vec![(addr(7), alice_link())]);
    assert_eq!(alice.arp_query(addr(7)), ArpQuery::Resolved(alice_link()));
    assert_eq!(alice.arp_query(addr(0)), ArpQuery::Resolved(bob_link()));
    assert!(alice.poll(now).is_none());
    // one more address does.
    alice.import_arp_cache(&vec![(addr(5000), bob_link())]);
    assert_eq!(alice.arp_query(addr(5000)), ArpQuery::Resolved(bob_link()));
    assert_eq!(alice.arp_query(addr(0)), ArpQuery::Pending);
    assert_eq!(alice.arp_query(addr(7)), ArpQuery::Pending);
    assert_eq!(transmitted(&mut alice, now).len(), 2);
}
