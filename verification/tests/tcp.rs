use catnip::effect::Effect;
use catnip::engine::Engine;
use catnip::fail::Fail;
use catnip::options::Options;
use catnip::protocols::ethernet2::{Frame, MacAddress};
use catnip::protocols::ipv4::address::Ipv4Addr;
use catnip::protocols::ipv4::packet::{Ipv4Packet, Ipv4Protocol};
use catnip::protocols::tcp::segment::{TcpHeader, TcpPacket, TcpSegment};
use catnip::protocols::tcp::state::{transition, TcpEvent, TcpState};
use catnip::time::{Duration, Instant};

const ALICE_PORT: u16 = 5000;
const BOB_PORT: u16 = 80;

fn alice_link() -> MacAddress {
    MacAddress::new([0x12, 0x23, 0x45, 0x67, 0x89, 0xab])
}

fn alice_ip() -> Ipv4Addr {
    Ipv4Addr::new(192, 168, 1, 1)
}

fn bob_link() -> MacAddress {
    MacAddress::new([0xab, 0x89, 0x67, 0x45, 0x23, 0x12])
}

fn bob_ip() -> Ipv4Addr {
    Ipv4Addr::new(192, 168, 1, 2)
}

fn alice_options() -> Options {
    let mut options = Options::new(alice_link(), alice_ip());
    options.rng_seed = 1;
    options
}

fn bob_options() -> Options {
    let mut options = Options::new(bob_link(), bob_ip());
    options.rng_seed = 2;
    options
}

fn station(options: Options) -> Engine {
    let mut engine = Engine::from_options(Instant::origin(), options).unwrap();
    engine.import_arp_cache(&vec![(alice_ip(), alice_link()), (bob_ip(), bob_link())]);
    engine
}

fn at_millis(millis: u64) -> Instant {
    Instant::origin().saturating_add(Duration::from_millis(millis))
}

struct Seen {
    frames: Vec<Vec<u8>>,
    deliveries: Vec<Vec<u8>>,
}

fn drain(engine: &mut Engine, now: Instant) -> Seen {
    let mut seen = Seen {
        frames: Vec::new(),
        deliveries: Vec::new(),
    };
    loop {
        match engine.poll(now) {
            Some(Effect::Transmit(bytes)) => seen.frames.push(bytes),
            Some(Effect::BytesReceived {
                protocol,
                text,
                ..
            }) => {
                assert_eq!(protocol, Ipv4Protocol::Tcp);
                assert_eq!(text.len(), 1);
                seen.deliveries.push(text[0].clone());
            }
            Some(e) => panic!("got unanticipated effect `{:?}`", e),
            None => return seen,
        }
    }
}

fn describe(frame: &[u8]) -> String {
    let parsed = Frame::from_bytes(frame).unwrap();
    match Ipv4Packet::from_bytes(&parsed.text) {
        Ok(packet) => match TcpSegment::from_packet(&packet) {
            Ok(segment) => format!("{:?} with {} bytes", segment.header, segment.text.len()),
            Err(_) => format!("{:?}", packet.header),
        },
        Err(_) => format!("{:?}", parsed.header),
    }
}

fn one_frame(engine: &mut Engine, now: Instant) -> Vec<u8> {
    let seen = drain(engine, now);
    let all: Vec<String> = seen.frames.iter().map(|f| describe(f)).collect();
    assert_eq!(seen.frames.len(), 1, "expected one frame, got {:?}", all);
    seen.frames.into_iter().next().unwrap()
}

fn segment_of(frame: &[u8]) -> (TcpHeader, Vec<u8>) {
    let frame = Frame::from_bytes(frame).unwrap();
    let packet = Ipv4Packet::from_bytes(&frame.text).unwrap();
    assert_eq!(packet.header.protocol, 6);
    let segment = TcpSegment::from_packet(&packet).unwrap();
    (segment.header, segment.text)
}

/// Opens a connection from alice to bob and returns both handles.
fn connected(alice: &mut Engine, bob: &mut Engine, now: Instant) -> (u64, u64) {
    bob.tcp_listen(BOB_PORT);
    let handle = alice.tcp_connect(ALICE_PORT, bob_ip(), BOB_PORT).unwrap();
    let syn = one_frame(alice, now);
    bob.receive(&syn).unwrap();
    let syn_ack = one_frame(bob, now);
    alice.receive(&syn_ack).unwrap();
    let ack = one_frame(alice, now);
    bob.receive(&ack).unwrap();
    assert!(drain(bob, now).frames.is_empty());
    let accepted = bob.tcp_accept(BOB_PORT).unwrap();
    (handle, accepted)
}

#[test]
fn transitions_follow_the_standard_topology() {
    let table = [
        (TcpState::Closed, TcpEvent::ActiveOpen, TcpState::SynSent),
        (TcpState::Closed, TcpEvent::PassiveOpen, TcpState::Listen),
        (TcpState::Listen, TcpEvent::SynArrived, TcpState::SynReceived),
        (TcpState::Listen, TcpEvent::Close, TcpState::Closed),
        (TcpState::SynSent, TcpEvent::SynAckArrived, TcpState::Established),
        (TcpState::SynSent, TcpEvent::SynArrived, TcpState::SynReceived),
        (TcpState::SynSent, TcpEvent::Close, TcpState::Closed),
        (TcpState::SynReceived, TcpEvent::AckArrived, TcpState::Established),
        (TcpState::SynReceived, TcpEvent::Close, TcpState::FinWait1),
        (TcpState::Established, TcpEvent::Close, TcpState::FinWait1),
        (TcpState::Established, TcpEvent::FinArrived, TcpState::CloseWait),
        (TcpState::FinWait1, TcpEvent::AckArrived, TcpState::FinWait2),
        (TcpState::FinWait1, TcpEvent::FinArrived, TcpState::Closing),
        (TcpState::FinWait2, TcpEvent::FinArrived, TcpState::TimeWait),
        (TcpState::CloseWait, TcpEvent::Close, TcpState::LastAck),
        (TcpState::Closing, TcpEvent::AckArrived, TcpState::TimeWait),
        (TcpState::LastAck, TcpEvent::AckArrived, TcpState::Closed),
        (TcpState::TimeWait, TcpEvent::TimeWaitExpired, TcpState::Closed),
    ];
    let states = [
        TcpState::Closed,
        TcpState::Listen,
        TcpState::SynSent,
        TcpState::SynReceived,
        TcpState::Established,
        TcpState::FinWait1,
        TcpState::FinWait2,
        TcpState::CloseWait,
        TcpState::Closing,
        TcpState::LastAck,
        TcpState::TimeWait,
    ];
    let events = [
        TcpEvent::ActiveOpen,
        TcpEvent::PassiveOpen,
        TcpEvent::SynArrived,
        TcpEvent::SynAckArrived,
        TcpEvent::AckArrived,
        TcpEvent::FinArrived,
        TcpEvent::Close,
        TcpEvent::TimeWaitExpired,
    ];
    for state in states {
        assert_eq!(transition(state, TcpEvent::Abort), Some(TcpState::Closed));
        assert_eq!(state.after(TcpEvent::Abort), TcpState::Closed);
        for event in events {
            let expected = table
                .iter()
                .find(|(s, e, _)| *s == state && *e == event)
                .map(|(_, _, next)| *next);
            assert_eq!(transition(state, event), expected, "{:?} {:?}", state, event);
            assert_eq!(state.after(event), expected.unwrap_or(state));
        }
    }
    assert!(TcpState::Established.reads_data());
    assert!(TcpState::FinWait1.reads_data() && TcpState::FinWait2.reads_data());
    assert!(!TcpState::CloseWait.reads_data() && !TcpState::SynSent.reads_data());
    assert!(TcpState::Established.writes_data() && TcpState::CloseWait.writes_data());
    assert!(!TcpState::FinWait1.writes_data() && !TcpState::Closed.writes_data());
}

#[test]
fn three_way_handshake() {
    let now = Instant::origin();
    let mut alice = station(alice_options());
    let mut bob = station(bob_options());
    bob.tcp_listen(BOB_PORT);
    assert_eq!(bob.tcp_accept(BOB_PORT), None);

    let handle = alice.tcp_connect(ALICE_PORT, bob_ip(), BOB_PORT).unwrap();
    assert_eq!(alice.tcp_status(handle), Some((TcpState::SynSent, None)));
    let syn_frame = one_frame(&mut alice, now);
    assert_eq!(Frame::from_bytes(&syn_frame).unwrap().header.dest_addr, bob_link());
    let (syn, text) = segment_of(&syn_frame);
    assert!(text.is_empty());
    assert!(syn.syn && !syn.ack && !syn.fin && !syn.rst);
    assert_eq!((syn.src_port, syn.dest_port), (ALICE_PORT, BOB_PORT));
    assert_eq!(syn.mss, Some(1450));
    assert_eq!(syn.window_size, 0xffff);

    bob.receive(&syn_frame).unwrap();
    assert_eq!(bob.tcp_accept(BOB_PORT), None);
    let (syn_ack, _) = segment_of(&one_frame(&mut bob, now));
    assert!(syn_ack.syn && syn_ack.ack);
    assert_eq!(syn_ack.ack_num, syn.seq_num.wrapping_add(1));
    assert_eq!((syn_ack.src_port, syn_ack.dest_port), (BOB_PORT, ALICE_PORT));
    assert_eq!(syn_ack.mss, Some(1450));

    let frame = {
        let packet = TcpPacket {
            ethernet: catnip::protocols::ethernet2::Ethernet2Header {
                dest_addr: alice_link(),
                src_addr: bob_link(),
                ether_type: catnip::protocols::ethernet2::EtherType::Ipv4,
            },
            ipv4: catnip::protocols::ipv4::packet::Ipv4Header::new(
                Ipv4Protocol::Tcp,
                bob_ip(),
                alice_ip(),
            ),
            tcp: syn_ack,
            text: &[],
        };
        packet.to_bytes()
    };
    alice.receive(&frame).unwrap();
    assert_eq!(alice.tcp_status(handle), Some((TcpState::Established, None)));
    let (ack, text) = segment_of(&one_frame(&mut alice, now));
    assert!(text.is_empty());
    assert!(ack.ack && !ack.syn && !ack.fin);
    assert_eq!(ack.seq_num, syn.seq_num.wrapping_add(1));
    assert_eq!(ack.ack_num, syn_ack.seq_num.wrapping_add(1));
    assert_eq!(ack.mss, None);
}

#[test]
fn data_flows_both_ways_and_acknowledgments_wait() {
    let now = Instant::origin();
    let mut alice = station(alice_options());
    let mut bob = station(bob_options());
    let (a, b) = connected(&mut alice, &mut bob, now);
    assert_eq!(bob.tcp_status(b), Some((TcpState::Established, None)));
    assert_eq!(bob.tcp_accept(BOB_PORT), None);

    alice.tcp_send(a, b"hello world").unwrap();
    let frame = one_frame(&mut alice, now);
    let (data, text) = segment_of(&frame);
    assert_eq!(text, b"hello world".to_vec());
    assert!(data.ack && !data.syn && !data.fin);
    bob.receive(&frame).unwrap();
    let seen = drain(&mut bob, now);
    assert_eq!(seen.deliveries, vec![b"hello world".to_vec()]);
    // the acknowledgment is deferred ...
    assert!(seen.frames.is_empty());
    assert_eq!(bob.tcp_recv(b), Ok(b"hello world".to_vec()));
    assert_eq!(bob.tcp_recv(b), Ok(Vec::new()));
    // ... until the delay has passed.
    let later = now.saturating_add(Duration::from_micros(1));
    let (ack, text) = segment_of(&one_frame(&mut bob, later));
    assert!(text.is_empty());
    assert!(ack.ack);
    assert_eq!(ack.ack_num, data.seq_num.wrapping_add(11));
    assert!(drain(&mut bob, at_millis(10)).frames.is_empty());
    alice.receive(&one_ack_frame(ack)).unwrap();
    // nothing is sent again once it is acknowledged.
    assert!(drain(&mut alice, at_millis(5000)).frames.is_empty());

    // an answer carries the acknowledgment with it.
    let now = at_millis(6000);
    alice.advance_clock(now);
    bob.advance_clock(now);
    alice.tcp_send(a, b"ping").unwrap();
    let frame = one_frame(&mut alice, now);
    bob.receive(&frame).unwrap();
    bob.tcp_send(b, b"pong").unwrap();
    let seen = drain(&mut bob, now.saturating_add(Duration::from_secs(1)));
    assert_eq!(seen.deliveries, vec![b"ping".to_vec()]);
    assert_eq!(seen.frames.len(), 2);
    let (pong, text) = segment_of(&seen.frames[0]);
    assert_eq!(text, b"pong".to_vec());
    assert_eq!(pong.ack_num, segment_of(&frame).0.seq_num.wrapping_add(4));
    alice.receive(&seen.frames[0]).unwrap();
    let seen = drain(&mut alice, now);
    assert_eq!(seen.deliveries, vec![b"pong".to_vec()]);
    assert_eq!(alice.tcp_recv(a), Ok(b"pong".to_vec()));
}

fn one_ack_frame(header: TcpHeader) -> Vec<u8> {
    TcpPacket {
        ethernet: catnip::protocols::ethernet2::Ethernet2Header {
            dest_addr: alice_link(),
            src_addr: bob_link(),
            ether_type: catnip::protocols::ethernet2::EtherType::Ipv4,
        },
        ipv4: catnip::protocols::ipv4::packet::Ipv4Header::new(
            Ipv4Protocol::Tcp,
            bob_ip(),
            alice_ip(),
        ),
        tcp: header,
        text: &[],
    }
    .to_bytes()
}

#[test]
fn orderly_close() {
    let now = Instant::origin();
    let mut alice = station(alice_options());
    let mut bob = station(bob_options());
    let (a, b) = connected(&mut alice, &mut bob, now);

    alice.tcp_close(a).unwrap();
    assert_eq!(alice.tcp_status(a), Some((TcpState::FinWait1, None)));
    assert_eq!(alice.tcp_send(a, b"late"), Err(Fail::ConnectionClosed));
    let fin = one_frame(&mut alice, now);
    assert!(segment_of(&fin).0.fin);
    bob.receive(&fin).unwrap();
    assert_eq!(bob.tcp_status(b), Some((TcpState::CloseWait, None)));
    let ack = one_frame(&mut bob, now);
    assert!(!segment_of(&ack).0.fin);
    alice.receive(&ack).unwrap();
    assert_eq!(alice.tcp_status(a), Some((TcpState::FinWait2, None)));

    // the side that was closed upon may still send.
    bob.tcp_send(b, b"bye").unwrap();
    let data = one_frame(&mut bob, now);
    alice.receive(&data).unwrap();
    assert_eq!(alice.tcp_recv(a), Ok(b"bye".to_vec()));
    let seen = drain(&mut alice, now.saturating_add(Duration::from_micros(1)));
    assert_eq!(seen.frames.len(), 1);
    bob.receive(&seen.frames[0]).unwrap();

    bob.tcp_close(b).unwrap();
    assert_eq!(bob.tcp_status(b), Some((TcpState::LastAck, None)));
    let fin = one_frame(&mut bob, now);
    assert!(segment_of(&fin).0.fin);
    alice.receive(&fin).unwrap();
    assert_eq!(alice.tcp_status(a), Some((TcpState::TimeWait, None)));
    let ack = one_frame(&mut alice, now);
    bob.receive(&ack).unwrap();
    assert_eq!(bob.tcp_status(b), Some((TcpState::Closed, None)));
    assert!(bob.tcp_release(b));
    assert_eq!(bob.tcp_status(b), None);
    assert!(!bob.tcp_release(b));

    assert!(!alice.tcp_release(a));
    alice.advance_clock(at_millis(59_999));
    assert_eq!(alice.tcp_status(a), Some((TcpState::TimeWait, None)));
    // alice began to linger one microsecond after the origin.
    alice.advance_clock(at_millis(60_000));
    assert_eq!(alice.tcp_status(a), Some((TcpState::TimeWait, None)));
    alice.advance_clock(at_millis(60_000).saturating_add(Duration::from_micros(1)));
    assert_eq!(alice.tcp_status(a), Some((TcpState::Closed, None)));
    assert!(alice.tcp_release(a));
    assert!(drain(&mut alice, at_millis(100_000)).frames.is_empty());
}

#[test]
fn simultaneous_close() {
    let now = Instant::origin();
    let mut alice = station(alice_options());
    let mut bob = station(bob_options());
    let (a, b) = connected(&mut alice, &mut bob, now);
    alice.tcp_close(a).unwrap();
    bob.tcp_close(b).unwrap();
    let fin_a = one_frame(&mut alice, now);
    let fin_b = one_frame(&mut bob, now);
    alice.receive(&fin_b).unwrap();
    bob.receive(&fin_a).unwrap();
    assert_eq!(alice.tcp_status(a), Some((TcpState::Closing, None)));
    assert_eq!(bob.tcp_status(b), Some((TcpState::Closing, None)));
    let ack_a = one_frame(&mut alice, now);
    let ack_b = one_frame(&mut bob, now);
    alice.receive(&ack_b).unwrap();
    bob.receive(&ack_a).unwrap();
    assert_eq!(alice.tcp_status(a), Some((TcpState::TimeWait, None)));
    assert_eq!(bob.tcp_status(b), Some((TcpState::TimeWait, None)));
    alice.advance_clock(at_millis(60_000));
    bob.advance_clock(at_millis(60_000));
    assert_eq!(alice.tcp_status(a), Some((TcpState::Closed, None)));
    assert_eq!(bob.tcp_status(b), Some((TcpState::Closed, None)));
}

#[test]
fn unanswered_handshake_times_out() {
    let mut alice = station(alice_options());
    let handle = alice.tcp_connect(ALICE_PORT, bob_ip(), BOB_PORT).unwrap();
    let first = one_frame(&mut alice, at_millis(0));
    assert!(drain(&mut alice, at_millis(2_999)).frames.is_empty());
    // five opening segments in all, three seconds apart.
    for round in 1..=4u64 {
        let again = one_frame(&mut alice, at_millis(3_000 * round));
        assert_eq!(again, first);
        assert_eq!(alice.tcp_status(handle), Some((TcpState::SynSent, None)));
    }
    assert!(drain(&mut alice, at_millis(14_999)).frames.is_empty());
    assert!(drain(&mut alice, at_millis(15_000)).frames.is_empty());
    assert_eq!(
        alice.tcp_status(handle),
        Some((TcpState::Closed, Some(Fail::HandshakeTimeout)))
    );
    assert_eq!(alice.tcp_send(handle, b"x"), Err(Fail::HandshakeTimeout));
    assert!(drain(&mut alice, at_millis(60_000)).frames.is_empty());
    assert!(alice.tcp_release(handle));
}

#[test]
fn unacknowledged_data_exhausts_retransmissions() {
    let now = Instant::origin();
    let mut alice = station(alice_options());
    let mut bob = station(bob_options());
    let (a, _) = connected(&mut alice, &mut bob, now);
    alice.tcp_send(a, b"anyone?").unwrap();
    let first = one_frame(&mut alice, now);
    assert_eq!(segment_of(&first).1, b"anyone?".to_vec());
    assert!(drain(&mut alice, at_millis(999)).frames.is_empty());
    for round in 1..=4u64 {
        let again = one_frame(&mut alice, at_millis(1_000 * round));
        assert_eq!(again, first);
    }
    assert!(drain(&mut alice, at_millis(5_000)).frames.is_empty());
    assert_eq!(
        alice.tcp_status(a),
        Some((TcpState::Closed, Some(Fail::RetransmissionExhausted)))
    );
    assert_eq!(alice.tcp_send(a, b"x"), Err(Fail::RetransmissionExhausted));
}

#[test]
fn retry_counts_are_configurable() {
    let mut options = alice_options();
    options.tcp = options
        .tcp
        .handshake_retries(2)
        .unwrap()
        .handshake_timeout(Duration::from_secs(1))
        .unwrap();
    let mut alice = station(options);
    let handle = alice.tcp_connect(ALICE_PORT, bob_ip(), BOB_PORT).unwrap();
    assert_eq!(drain(&mut alice, at_millis(0)).frames.len(), 1);
    assert_eq!(drain(&mut alice, at_millis(1_000)).frames.len(), 1);
    assert_eq!(drain(&mut alice, at_millis(2_000)).frames.len(), 0);
    assert_eq!(
        alice.tcp_status(handle),
        Some((TcpState::Closed, Some(Fail::HandshakeTimeout)))
    );
}

#[test]
fn outbound_segments_respect_the_maximum_segment_size() {
    let now = Instant::origin();
    let mut options = alice_options();
    options.tcp = options.tcp.advertised_mss(536).unwrap();
    let mut alice = station(options);
    let mut bob = station(bob_options());
    let (a, b) = connected(&mut alice, &mut bob, now);
    let text: Vec<u8> = (0..1500u32).map(|i| (i % 256) as u8).collect();
    alice.tcp_send(a, &text).unwrap();
    let mut sizes = Vec::new();
    let mut now = now;
    loop {
        let seen = drain(&mut alice, now);
        if seen.frames.is_empty() {
            break;
        }
        assert_eq!(seen.frames.len(), 1);
        sizes.push(segment_of(&seen.frames[0]).1.len());
        bob.receive(&seen.frames[0]).unwrap();
        now = now.saturating_add(Duration::from_micros(1));
        let acks = drain(&mut bob, now);
        assert_eq!(acks.frames.len(), 1);
        alice.receive(&acks.frames[0]).unwrap();
    }
    assert_eq!(sizes, vec![536, 536, 428]);
    assert_eq!(bob.tcp_recv(b), Ok(text));
}

#[test]
fn receive_window_caps_what_is_buffered() {
    let now = Instant::origin();
    let mut options = bob_options();
    options.tcp = options.tcp.receive_window_size(10).unwrap();
    let mut alice = station(alice_options());
    let mut bob = station(options);
    let (a, b) = connected(&mut alice, &mut bob, now);

    alice.tcp_send(a, b"12345678").unwrap();
    let first = one_frame(&mut alice, now);
    bob.receive(&first).unwrap();
    let later = now.saturating_add(Duration::from_micros(1));
    let seen = drain(&mut bob, later);
    assert_eq!(seen.deliveries, vec![b"12345678".to_vec()]);
    let (ack, _) = segment_of(&seen.frames[0]);
    assert_eq!(ack.window_size, 2);
    alice.receive(&seen.frames[0]).unwrap();

    alice.tcp_send(a, b"abcdefgh").unwrap();
    let second = one_frame(&mut alice, later);
    bob.receive(&second).unwrap();
    // no room: the data is left, and the answer says so at once.
    let seen = drain(&mut bob, later);
    assert!(seen.deliveries.is_empty());
    let (ack, _) = segment_of(&seen.frames[0]);
    assert_eq!(ack.ack_num, segment_of(&second).0.seq_num);
    assert_eq!(ack.window_size, 2);
    alice.receive(&seen.frames[0]).unwrap();

    assert_eq!(bob.tcp_recv(b), Ok(b"12345678".to_vec()));
    // the retransmission fits.
    let again = one_frame(&mut alice, later.saturating_add(Duration::from_secs(1)));
    assert_eq!(again, second);
    bob.receive(&again).unwrap();
    assert_eq!(bob.tcp_recv(b), Ok(b"abcdefgh".to_vec()));
}

#[test]
fn out_of_order_data_is_left() {
    let now = Instant::origin();
    let mut alice = station(alice_options());
    let mut bob = station(bob_options());
    let (a, b) = connected(&mut alice, &mut bob, now);
    alice.tcp_send(a, b"abc").unwrap();
    let frame = one_frame(&mut alice, now);
    bob.receive(&frame).unwrap();
    assert_eq!(drain(&mut bob, now).deliveries.len(), 1);
    // the same segment again is a duplicate: left, and answered at once.
    bob.receive(&frame).unwrap();
    let seen = drain(&mut bob, now);
    assert!(seen.deliveries.is_empty());
    assert_eq!(seen.frames.len(), 1);
    assert_eq!(
        segment_of(&seen.frames[0]).0.ack_num,
        segment_of(&frame).0.seq_num.wrapping_add(3)
    );
    assert_eq!(bob.tcp_recv(b), Ok(b"abc".to_vec()));
}

#[test]
fn reset_gives_the_connection_up() {
    let now = Instant::origin();
    let mut alice = station(alice_options());
    let mut bob = station(bob_options());
    let (a, _) = connected(&mut alice, &mut bob, now);
    let reset = TcpHeader {
        src_port: BOB_PORT,
        dest_port: ALICE_PORT,
        seq_num: 0,
        ack_num: 0,
        urg: false,
        ack: false,
        psh: false,
        rst: true,
        syn: false,
        fin: false,
        window_size: 0,
        urgent_pointer: 0,
        mss: None,
    };
    alice.receive(&one_ack_frame(reset)).unwrap();
    assert_eq!(
        alice.tcp_status(a),
        Some((TcpState::Closed, Some(Fail::ConnectionReset)))
    );
    assert_eq!(alice.tcp_send(a, b"x"), Err(Fail::ConnectionReset));
    assert!(drain(&mut alice, at_millis(10_000)).frames.is_empty());
}

#[test]
fn handles_and_end_points() {
    let now = Instant::origin();
    let mut alice = station(alice_options());
    let mut bob = station(bob_options());
    assert_eq!(alice.tcp_status(0), None);
    assert_eq!(alice.tcp_send(0, b"x"), Err(Fail::NoSuchConnection));
    assert_eq!(alice.tcp_recv(0), Err(Fail::NoSuchConnection));
    assert_eq!(alice.tcp_close(0), Err(Fail::NoSuchConnection));
    assert!(!alice.tcp_release(0));

    let first = alice.tcp_connect(ALICE_PORT, bob_ip(), BOB_PORT).unwrap();
    assert_eq!(
        alice.tcp_connect(ALICE_PORT, bob_ip(), BOB_PORT),
        Err(Fail::AddressInUse)
    );
    let second = alice.tcp_connect(ALICE_PORT + 1, bob_ip(), BOB_PORT).unwrap();
    assert_ne!(first, second);
    let frames = drain(&mut alice, now).frames;
    assert_eq!(frames.len(), 2);
    // initial sequence numbers are drawn at random.
    assert_ne!(segment_of(&frames[0]).0.seq_num, segment_of(&frames[1]).0.seq_num);

    // nobody listens: the opening segment is left unanswered.
    bob.receive(&frames[0]).unwrap();
    assert!(drain(&mut bob, now).frames.is_empty());
    assert_eq!(bob.tcp_accept(BOB_PORT), None);

    // closing before the answer arrives ends the attempt at once.
    alice.tcp_close(first).unwrap();
    assert_eq!(alice.tcp_status(first), Some((TcpState::Closed, None)));
    assert!(alice.tcp_release(first));
    let third = alice.tcp_connect(ALICE_PORT, bob_ip(), BOB_PORT).unwrap();
    assert_ne!(third, first);
    assert_ne!(third, second);
}

#[test]
fn connection_waits_for_address_resolution() {
    let now = Instant::origin();
    let mut alice = Engine::from_options(now, alice_options()).unwrap();
    let mut bob = Engine::from_options(now, bob_options()).unwrap();
    bob.tcp_listen(BOB_PORT);
    let handle = alice.tcp_connect(ALICE_PORT, bob_ip(), BOB_PORT).unwrap();
    // bob's link address is not known: an address request goes out instead.
    let request = one_frame(&mut alice, now);
    assert_eq!(
        Frame::from_bytes(&request).unwrap().header.ether_type,
        catnip::protocols::ethernet2::EtherType::Arp
    );
    bob.receive(&request).unwrap();
    let reply = one_frame(&mut bob, now);
    alice.receive(&reply).unwrap();
    assert!(drain(&mut alice, now).frames.is_empty());
    // the opening segment goes out when its timer comes round.
    let syn = one_frame(&mut alice, at_millis(3_000));
    assert!(segment_of(&syn).0.syn);
    bob.advance_clock(at_millis(3_000));
    bob.receive(&syn).unwrap();
    let syn_ack = one_frame(&mut bob, at_millis(3_000));
    alice.receive(&syn_ack).unwrap();
    assert_eq!(alice.tcp_status(handle), Some((TcpState::Established, None)));
    bob.receive(&one_frame(&mut alice, at_millis(3_000))).unwrap();
    assert!(bob.tcp_accept(BOB_PORT).is_some());
}

#[test]
fn data_queued_during_the_handshake_follows_it() {
    let now = Instant::origin();
    let mut alice = station(alice_options());
    let mut bob = station(bob_options());
    bob.tcp_listen(BOB_PORT);
    let a = alice.tcp_connect(ALICE_PORT, bob_ip(), BOB_PORT).unwrap();
    alice.tcp_send(a, b"early").unwrap();
    let syn = one_frame(&mut alice, now);
    bob.receive(&syn).unwrap();
    let syn_ack = one_frame(&mut bob, now);
    alice.receive(&syn_ack).unwrap();
    let seen = drain(&mut alice, now);
    assert_eq!(seen.frames.len(), 2);
    assert!(segment_of(&seen.frames[0]).1.is_empty());
    assert_eq!(segment_of(&seen.frames[1]).1, b"early".to_vec());
    bob.receive(&seen.frames[0]).unwrap();
    bob.receive(&seen.frames[1]).unwrap();
    let b = bob.tcp_accept(BOB_PORT).unwrap();
    assert_eq!(bob.tcp_recv(b), Ok(b"early".to_vec()));
}

#[test]
fn lost_acknowledgment_of_the_handshake_is_sent_again() {
    let now = Instant::origin();
    let mut alice = station(alice_options());
    let mut bob = station(bob_options());
    bob.tcp_listen(BOB_PORT);
    let a = alice.tcp_connect(ALICE_PORT, bob_ip(), BOB_PORT).unwrap();
    let syn = one_frame(&mut alice, now);
    bob.receive(&syn).unwrap();
    let syn_ack = one_frame(&mut bob, now);
    alice.receive(&syn_ack).unwrap();
    let lost = one_frame(&mut alice, now);
    assert_eq!(alice.tcp_status(a), Some((TcpState::Established, None)));
    // a second opening segment tells bob nothing new: his answer is in flight.
    bob.receive(&syn).unwrap();
    assert!(drain(&mut bob, now).frames.is_empty());
    // bob hears nothing and answers again when his timer comes round.
    let again = one_frame(&mut bob, at_millis(3_000));
    assert_eq!(again, syn_ack);
    alice.receive(&again).unwrap();
    let ack = one_frame(&mut alice, now);
    assert_eq!(ack, lost);
    bob.receive(&ack).unwrap();
    assert!(bob.tcp_accept(BOB_PORT).is_some());
}
