use catnip::effect::Effect;
use catnip::engine::Engine;
use catnip::fail::Fail;
use catnip::options::Options;
use catnip::protocols::ethernet2::{build_frame, EtherType, Ethernet2Header, MacAddress};
use catnip::protocols::icmpv4::error::{build_error, ErrorId, TimeExceeded};
use catnip::protocols::ipv4::address::Ipv4Addr;
use catnip::protocols::ipv4::packet::{build_packet, Ipv4Header, Ipv4Protocol};
use catnip::protocols::udp::datagram::{build_datagram, UdpHeader};
use catnip::time::Instant;

fn my_link() -> MacAddress {
    MacAddress::new([2, 0, 0, 0, 0, 1])
}

fn my_ip() -> Ipv4Addr {
    Ipv4Addr::new(10, 0, 0, 1)
}

fn their_link() -> MacAddress {
    MacAddress::new([2, 0, 0, 0, 0, 2])
}

fn their_ip() -> Ipv4Addr {
    Ipv4Addr::new(10, 0, 0, 2)
}

fn station() -> Engine {
    Engine::from_options(Instant::origin(), Options::new(my_link(), my_ip())).unwrap()
}

fn frame_to(dest: MacAddress, packet: &[u8]) -> Vec<u8> {
    build_frame(
        Ethernet2Header {
            dest_addr: dest,
            src_addr: their_link(),
            ether_type: EtherType::Ipv4,
        },
        packet,
    )
}

fn datagram_to(dest: Ipv4Addr, port: u16) -> Vec<u8> {
    let udp = build_datagram(
        their_ip(),
        dest,
        &UdpHeader {
            src_port: 4000,
            dest_port: port,
        },
        &[1, 2, 3],
    );
    build_packet(&Ipv4Header::new(Ipv4Protocol::Udp, their_ip(), dest), &udp)
}

#[test]
fn misdelivered_packet_is_dropped_silently() {
    let mut engine = station();
    engine.open_udp_port(7);
    let packet = datagram_to(Ipv4Addr::new(10, 0, 0, 9), 7);
    assert_eq!(
        engine.receive(&frame_to(my_link(), &packet)),
        Err(Fail::Misdelivered)
    );
    assert!(engine.poll(Instant::origin()).is_none());
    assert!(engine.udp_recv(7).is_none());
}

#[test]
fn unknown_protocol_is_dropped_silently() {
    let mut engine = station();
    let mut header = Ipv4Header::new(Ipv4Protocol::Udp, their_ip(), my_ip());
    for protocol in [0u8, 2, 41, 47, 89, 255] {
        header.protocol = protocol;
        let packet = build_packet(&header, &[0; 32]);
        assert_eq!(
            engine.receive(&frame_to(my_link(), &packet)),
            Err(Fail::Unsupported)
        );
        assert!(engine.poll(Instant::origin()).is_none());
    }
    // the destination is looked at first.
    header.dest_addr = Ipv4Addr::new(10, 0, 0, 9);
    let packet = build_packet(&header, &[0; 32]);
    assert_eq!(
        engine.receive(&frame_to(my_link(), &packet)),
        Err(Fail::Misdelivered)
    );
}

#[test]
fn malformed_packet_is_dropped_silently() {
    let mut engine = station();
    engine.open_udp_port(7);
    let mut packet = datagram_to(my_ip(), 7);
    packet[10] ^= 0xff;
    assert_eq!(
        engine.receive(&frame_to(my_link(), &packet)),
        Err(Fail::Malformed)
    );
    assert_eq!(engine.receive(&[1, 2, 3]), Err(Fail::Malformed));
    assert!(engine.poll(Instant::origin()).is_none());
}

#[test]
fn packets_are_dispatched_by_protocol_alone() {
    let mut engine = station();
    engine.open_udp_port(7);
    let udp = build_datagram(
        their_ip(),
        my_ip(),
        &UdpHeader {
            src_port: 4000,
            dest_port: 7,
        },
        &[1, 2, 3],
    );
    let mut header = Ipv4Header::new(Ipv4Protocol::Udp, their_ip(), my_ip());
    // whatever the other fields of the header say, the protocol decides.
    header.flags_and_offset = 0x4000;
    header.identification = 0x1234;
    header.dscp_ecn = 0xb8;
    header.ttl = 1;
    let packet = build_packet(&header, &udp);
    assert_eq!(engine.receive(&frame_to(my_link(), &packet)), Ok(()));
    assert!(matches!(
        engine.poll(Instant::origin()),
        Some(Effect::BytesReceived { .. })
    ));
    assert_eq!(engine.udp_recv(7), Some(vec![1, 2, 3]));
    header.protocol = 47;
    let packet = build_packet(&header, &udp);
    assert_eq!(
        engine.receive(&frame_to(my_link(), &packet)),
        Err(Fail::Unsupported)
    );
    assert!(engine.poll(Instant::origin()).is_none());
}

#[test]
fn frames_for_other_stations_are_misdelivered() {
    let mut engine = station();
    engine.open_udp_port(7);
    let packet = datagram_to(my_ip(), 7);
    assert_eq!(
        engine.receive(&frame_to(their_link(), &packet)),
        Err(Fail::Misdelivered)
    );
    assert!(engine.poll(Instant::origin()).is_none());
    // broadcast frames and broadcast packets are taken.
    assert_eq!(
        engine.receive(&frame_to(MacAddress::broadcast(), &packet)),
        Ok(())
    );
    assert!(matches!(
        engine.poll(Instant::origin()),
        Some(Effect::BytesReceived { .. })
    ));
    let packet = datagram_to(Ipv4Addr::broadcast(), 7);
    assert_eq!(engine.receive(&frame_to(my_link(), &packet)), Ok(()));
    assert!(matches!(
        engine.poll(Instant::origin()),
        Some(Effect::BytesReceived { .. })
    ));
}

#[test]
fn error_reports_are_shown() {
    let mut engine = station();
    let error = build_error(ErrorId::TimeExceeded(TimeExceeded::TtlExpired), 0, &[5; 28]);
    let packet = build_packet(
        &Ipv4Header::new(Ipv4Protocol::Icmpv4, their_ip(), my_ip()),
        &error,
    );
    assert_eq!(engine.receive(&frame_to(my_link(), &packet)), Ok(()));
    match engine.poll(Instant::origin()) {
        Some(Effect::Icmpv4Error {
            id,
            next_hop_mtu,
            context,
        }) => {
            assert_eq!(id, ErrorId::TimeExceeded(TimeExceeded::TtlExpired));
            assert_eq!(next_hop_mtu, 0);
            assert_eq!(context, vec![5; 28]);
        }
        e => panic!("got unanticipated effect `{:?}`", e),
    }
    assert!(engine.poll(Instant::origin()).is_none());

    let mut echo = vec![8u8, 0, 0xf7, 0xfd, 0, 1, 0, 1];
    echo.extend_from_slice(&[0; 20]);
    let packet = build_packet(
        &Ipv4Header::new(Ipv4Protocol::Icmpv4, their_ip(), my_ip()),
        &echo,
    );
    assert_eq!(
        engine.receive(&frame_to(my_link(), &packet)),
        Err(Fail::Unsupported)
    );
    assert!(engine.poll(Instant::origin()).is_none());
}
