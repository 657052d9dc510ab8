use catnip::fail::Fail;
use catnip::protocols::arp::pdu::{ArpMessage, ArpOperation, ArpPdu};
use catnip::protocols::ethernet2::{
    build_frame, EtherType, Ethernet2Header, Frame, MacAddress,
};
use catnip::protocols::icmpv4::error::{
    build_error, DestinationUnreachable, Error, ErrorId, TimeExceeded,
};
use catnip::protocols::ipv4::address::Ipv4Addr;
use catnip::protocols::ipv4::packet::{
    build_packet, Ipv4Header, Ipv4Packet, Ipv4Protocol,
};
use catnip::protocols::tcp::segment::{build_segment, TcpHeader, TcpPacket, TcpSegment};
use catnip::protocols::udp::datagram::{build_datagram, UdpDatagram, UdpHeader, UdpPacket};
use catnip::runtime::{copy_into, PacketBuf};
use catnip::wire::{checksum, push_bytes, push_u16, push_u32, push_zeros, read_u16, read_u32};

fn header(src: MacAddress, dest: MacAddress, ether_type: EtherType) -> Ethernet2Header {
    Ethernet2Header {
        dest_addr: dest,
        src_addr: src,
        ether_type,
    }
}

#[test]
fn checksum_of_known_bytes() {
    assert_eq!(
        checksum(&[0x00, 0x01, 0xf2, 0x03, 0xf4, 0xf5, 0xf6, 0xf7]),
        0x220d
    );
    assert_eq!(checksum(&[]), 0xffff);
    assert_eq!(checksum(&[0xff, 0xff]), 0);
    assert_eq!(checksum(&[0x12]), !0x1200u16);
    assert_eq!(checksum(&[0xff, 0xff, 0x00, 0x01]), !0x0001u16);
}

#[test]
fn big_endian_fields() {
    let mut buf = Vec::new();
    push_u16(&mut buf, 0x1234);
    push_u32(&mut buf, 0xdeadbeef);
    push_bytes(&mut buf, &[9, 8, 7, 6], 1, 3);
    push_zeros(&mut buf, 2);
    assert_eq!(buf, vec![0x12, 0x34, 0xde, 0xad, 0xbe, 0xef, 8, 7, 0, 0]);
    assert_eq!(read_u16(&buf, 0), 0x1234);
    assert_eq!(read_u32(&buf, 2), 0xdeadbeef);
    assert_eq!(read_u16(&buf, 6), 0x0807);
}

#[test]
fn mac_address_bytes() {
    let addr = MacAddress::new([0x12, 0x23, 0x45, 0x67, 0x89, 0xab]);
    assert_eq!(addr.to_array(), [0x12, 0x23, 0x45, 0x67, 0x89, 0xab]);
    assert!(!addr.is_broadcast());
    assert!(MacAddress::broadcast().is_broadcast());
    assert_eq!(MacAddress::broadcast().to_array(), [0xff; 6]);
    assert_eq!(MacAddress::nil().to_array(), [0; 6]);
    let mut buf = vec![0xaa];
    addr.push_to(&mut buf);
    assert_eq!(buf, vec![0xaa, 0x12, 0x23, 0x45, 0x67, 0x89, 0xab]);
    assert_eq!(MacAddress::read(&buf, 1), addr);
}

#[test]
fn ipv4_address_bytes() {
    let addr = Ipv4Addr::new(192, 168, 1, 2);
    assert_eq!(addr.value, 0xc0a80102);
    assert_eq!(addr.octets(), [192, 168, 1, 2]);
    assert!(!addr.is_broadcast());
    assert!(Ipv4Addr::broadcast().is_broadcast());
    assert_eq!(Ipv4Addr::broadcast().octets(), [255, 255, 255, 255]);
    let mut buf = Vec::new();
    addr.push_to(&mut buf);
    assert_eq!(buf, vec![192, 168, 1, 2]);
    assert_eq!(Ipv4Addr::read(&buf, 0), addr);
}

#[test]
fn frame_is_padded_and_read_back() {
    let alice = MacAddress::new([1, 2, 3, 4, 5, 6]);
    let bob = MacAddress::new([7, 8, 9, 10, 11, 12]);
    let bytes = build_frame(header(alice, bob, EtherType::Ipv4), &[0xaa; 10]);
    assert_eq!(bytes.len(), 60);
    assert_eq!(&bytes[0..6], &[7, 8, 9, 10, 11, 12]);
    assert_eq!(&bytes[6..12], &[1, 2, 3, 4, 5, 6]);
    assert_eq!(&bytes[12..14], &[0x08, 0x00]);
    assert_eq!(&bytes[14..24], &[0xaa; 10]);
    assert!(bytes[24..].iter().all(|b| *b == 0));
    let frame = Frame::from_bytes(&bytes).unwrap();
    assert_eq!(frame.header, header(alice, bob, EtherType::Ipv4));
    assert_eq!(frame.text.len(), 46);
    assert_eq!(frame.to_bytes(), bytes);

    let long = build_frame(header(alice, bob, EtherType::Arp), &[0x55; 100]);
    assert_eq!(long.len(), 114);
    assert_eq!(&long[12..14], &[0x08, 0x06]);
    assert_eq!(Frame::from_bytes(&long).unwrap().text, vec![0x55; 100]);
    assert_eq!(EtherType::Arp.to_u16(), 0x0806);
    assert_eq!(EtherType::from_u16(0x0800), Some(EtherType::Ipv4));
    assert_eq!(EtherType::from_u16(0x86dd), None);
}

#[test]
fn frame_refusals() {
    assert_eq!(Frame::from_bytes(&[0; 13]).unwrap_err(), Fail::Malformed);
    let mut bytes = vec![0u8; 60];
    bytes[12] = 0x86;
    bytes[13] = 0xdd;
    assert_eq!(Frame::from_bytes(&bytes).unwrap_err(), Fail::Unsupported);
}

#[test]
fn ipv4_header_checksum_of_known_packet() {
    let header = Ipv4Header {
        dscp_ecn: 0,
        identification: 0,
        flags_and_offset: 0x4000,
        ttl: 0x40,
        protocol: 0x11,
        src_addr: Ipv4Addr::new(192, 168, 0, 1),
        dest_addr: Ipv4Addr::new(192, 168, 0, 199),
    };
    let text = vec![0u8; 0x73 - 20];
    let bytes = build_packet(&header, &text);
    assert_eq!(
        &bytes[..20],
        &[
            0x45, 0x00, 0x00, 0x73, 0x00, 0x00, 0x40, 0x00, 0x40, 0x11, 0xb8, 0x61, 0xc0, 0xa8,
            0x00, 0x01, 0xc0, 0xa8, 0x00, 0xc7
        ]
    );
    let packet = Ipv4Packet::from_bytes(&bytes).unwrap();
    assert_eq!(packet.header, header);
    assert_eq!(packet.text, text);
    assert_eq!(packet.wire, bytes);
    assert_eq!(packet.to_bytes(), bytes);
    let built = Ipv4Packet::new(header, text);
    assert_eq!(built.wire, bytes);
    assert_eq!(built.to_bytes(), bytes);
}

#[test]
fn ipv4_packet_ignores_what_follows_it() {
    let header = Ipv4Header::new(
        Ipv4Protocol::Udp,
        Ipv4Addr::new(10, 0, 0, 1),
        Ipv4Addr::new(10, 0, 0, 2),
    );
    assert_eq!(header.ttl, 64);
    assert_eq!(header.protocol, 17);
    let mut bytes = build_packet(&header, &[1, 2, 3]);
    assert_eq!(bytes.len(), 23);
    bytes.extend_from_slice(&[0; 23]);
    let packet = Ipv4Packet::from_bytes(&bytes).unwrap();
    assert_eq!(packet.header, header);
    assert_eq!(packet.text, vec![1, 2, 3]);
    assert_eq!(packet.wire.as_slice(), &bytes[..23]);
}

#[test]
fn ipv4_packet_keeps_its_options_on_the_wire() {
    let header = Ipv4Header::new(
        Ipv4Protocol::Udp,
        Ipv4Addr::new(10, 0, 0, 1),
        Ipv4Addr::new(10, 0, 0, 2),
    );
    let plain = build_packet(&header, &[9, 8, 7]);
    // the same packet with one word of options in its header.
    let mut bytes = plain[..20].to_vec();
    bytes[0] = 0x46;
    bytes[3] = 27;
    bytes[10] = 0;
    bytes[11] = 0;
    bytes.extend_from_slice(&[1, 1, 1, 0]);
    let sum = checksum(&bytes);
    bytes[10] = (sum >> 8) as u8;
    bytes[11] = (sum & 0xff) as u8;
    bytes.extend_from_slice(&[9, 8, 7]);
    let mut padded = bytes.clone();
    padded.extend_from_slice(&[0; 19]);
    let packet = Ipv4Packet::from_bytes(&padded).unwrap();
    assert_eq!(packet.header, header);
    assert_eq!(packet.text, vec![9, 8, 7]);
    assert_eq!(packet.wire, bytes);
    assert_eq!(packet.to_bytes(), bytes);
    assert_ne!(packet.to_bytes(), plain);
}

#[test]
fn ipv4_packet_refusals() {
    let header = Ipv4Header::new(
        Ipv4Protocol::Tcp,
        Ipv4Addr::new(10, 0, 0, 1),
        Ipv4Addr::new(10, 0, 0, 2),
    );
    let good = build_packet(&header, &[1, 2, 3, 4]);
    assert!(Ipv4Packet::from_bytes(&good).is_ok());
    assert_eq!(Ipv4Packet::from_bytes(&good[..19]).unwrap_err(), Fail::Malformed);
    let mut bad = good.clone();
    bad[0] = 0x65;
    assert_eq!(Ipv4Packet::from_bytes(&bad).unwrap_err(), Fail::Malformed);
    let mut bad = good.clone();
    bad[0] = 0x44;
    assert_eq!(Ipv4Packet::from_bytes(&bad).unwrap_err(), Fail::Malformed);
    let mut bad = good.clone();
    bad[8] = 63;
    assert_eq!(Ipv4Packet::from_bytes(&bad).unwrap_err(), Fail::Malformed);
    let mut bad = good.clone();
    bad[3] = 25;
    assert_eq!(Ipv4Packet::from_bytes(&bad).unwrap_err(), Fail::Malformed);
    assert_eq!(Ipv4Packet::from_bytes(&good[..23]).unwrap_err(), Fail::Malformed);
}

#[test]
fn ipv4_protocol_numbers() {
    assert_eq!(Ipv4Protocol::from_u8(1), Some(Ipv4Protocol::Icmpv4));
    assert_eq!(Ipv4Protocol::from_u8(6), Some(Ipv4Protocol::Tcp));
    assert_eq!(Ipv4Protocol::from_u8(17), Some(Ipv4Protocol::Udp));
    assert_eq!(Ipv4Protocol::from_u8(47), None);
    assert_eq!(Ipv4Protocol::Icmpv4.to_u8(), 1);
}

#[test]
fn udp_datagram_round_trip() {
    let src = Ipv4Addr::new(192, 168, 1, 1);
    let dest = Ipv4Addr::new(192, 168, 1, 2);
    let header = UdpHeader {
        src_port: 54321,
        dest_port: 12345,
    };
    let bytes = build_datagram(src, dest, &header, &[0xff; 10]);
    assert_eq!(bytes.len(), 18);
    assert_eq!(&bytes[0..2], &[0xd4, 0x31]);
    assert_eq!(&bytes[2..4], &[0x30, 0x39]);
    assert_eq!(&bytes[4..6], &[0, 18]);
    assert_ne!(&bytes[6..8], &[0, 0]);
    assert_eq!(&bytes[8..], &[0xff; 10]);
    let packet = Ipv4Packet::new(Ipv4Header::new(Ipv4Protocol::Udp, src, dest), bytes.clone());
    let datagram = UdpDatagram::from_packet(&packet).unwrap();
    assert_eq!(datagram.header, header);
    assert_eq!(datagram.text, vec![0xff; 10]);
    assert_eq!(datagram.to_bytes(src, dest), bytes);
}

#[test]
fn udp_datagram_refusals() {
    let src = Ipv4Addr::new(192, 168, 1, 1);
    let dest = Ipv4Addr::new(192, 168, 1, 2);
    let header = UdpHeader {
        src_port: 1,
        dest_port: 2,
    };
    let ip = Ipv4Header::new(Ipv4Protocol::Udp, src, dest);
    let good = build_datagram(src, dest, &header, &[1, 2, 3]);

    let mut bad = good.clone();
    bad[10] ^= 0x40;
    assert_eq!(
        UdpDatagram::from_packet(&Ipv4Packet::new(ip, bad)).unwrap_err(),
        Fail::Malformed
    );
    let other = Ipv4Header::new(Ipv4Protocol::Udp, src, Ipv4Addr::new(192, 168, 1, 3));
    assert_eq!(
        UdpDatagram::from_packet(&Ipv4Packet::new(other, good.clone())).unwrap_err(),
        Fail::Malformed
    );
    let mut bad = good.clone();
    bad[5] = 7;
    assert_eq!(
        UdpDatagram::from_packet(&Ipv4Packet::new(ip, bad)).unwrap_err(),
        Fail::Malformed
    );
    let mut bad = good.clone();
    bad[5] = 12;
    assert_eq!(
        UdpDatagram::from_packet(&Ipv4Packet::new(ip, bad)).unwrap_err(),
        Fail::Malformed
    );
    assert_eq!(
        UdpDatagram::from_packet(&Ipv4Packet::new(ip, good[..7].to_vec())).unwrap_err(),
        Fail::Malformed
    );
    let mut unchecked = good.clone();
    unchecked[6] = 0;
    unchecked[7] = 0;
    let datagram = UdpDatagram::from_packet(&Ipv4Packet::new(ip, unchecked)).unwrap();
    assert_eq!(datagram.text, vec![1, 2, 3]);
}

#[test]
fn udp_packet_writes_itself() {
    let alice = MacAddress::new([1, 2, 3, 4, 5, 6]);
    let bob = MacAddress::new([7, 8, 9, 10, 11, 12]);
    let text = [0xffu8; 10];
    let packet = UdpPacket {
        ethernet: header(alice, bob, EtherType::Ipv4),
        ipv4: Ipv4Header::new(
            Ipv4Protocol::Udp,
            Ipv4Addr::new(192, 168, 1, 1),
            Ipv4Addr::new(192, 168, 1, 2),
        ),
        udp: UdpHeader {
            src_port: 54321,
            dest_port: 12345,
        },
        text: &text,
    };
    assert_eq!(packet.compute_size(), 60);
    let mut buf = vec![0xeeu8; 60];
    packet.serialize(&mut buf);
    assert_eq!(buf, packet.to_bytes());
    let datagram = UdpDatagram::from_bytes(&buf).unwrap();
    assert_eq!(datagram.header.src_port, 54321);
    assert_eq!(datagram.header.dest_port, 12345);
    assert_eq!(datagram.text, text.to_vec());

    let long = [7u8; 100];
    let packet = UdpPacket {
        text: &long,
        ..packet
    };
    assert_eq!(packet.compute_size(), 14 + 20 + 8 + 100);
    assert_eq!(packet.to_bytes().len(), 142);
}

#[test]
fn copy_into_overwrites() {
    let mut buf = [0u8; 4];
    copy_into(&mut buf, &[1, 2, 3, 4]);
    assert_eq!(buf, [1, 2, 3, 4]);
}

#[test]
fn icmpv4_error_round_trip() {
    let id = ErrorId::DestinationUnreachable(DestinationUnreachable::DestinationPortUnreachable);
    assert_eq!(id.encode(), (3, 3));
    assert_eq!(ErrorId::decode(3, 3), Some(id));
    assert_eq!(ErrorId::SourceQuench.encode(), (4, 0));
    assert_eq!(
        ErrorId::TimeExceeded(TimeExceeded::FragmentReassemblyTimeExceeded).encode(),
        (11, 1)
    );
    assert_eq!(
        ErrorId::decode(3, 0),
        Some(ErrorId::DestinationUnreachable(
            DestinationUnreachable::DestinationNetworkUnreachable
        ))
    );
    assert_eq!(ErrorId::decode(3, 6), None);
    assert_eq!(ErrorId::decode(8, 0), None);
    assert_eq!(ErrorId::decode(4, 1), None);

    let bytes = build_error(id, 1500, &[9, 8, 7, 6, 5]);
    assert_eq!(bytes.len(), 13);
    assert_eq!(&bytes[0..2], &[3, 3]);
    assert_eq!(&bytes[4..8], &[0, 0, 0x05, 0xdc]);
    assert_eq!(&bytes[8..], &[9, 8, 7, 6, 5]);
    let error = Error::from_text(&bytes).unwrap();
    assert_eq!(error.id, id);
    assert_eq!(error.next_hop_mtu, 1500);
    assert_eq!(error.context, vec![9, 8, 7, 6, 5]);
    assert_eq!(error.to_bytes(), bytes);
}

#[test]
fn icmpv4_error_refusals() {
    let bytes = build_error(ErrorId::SourceQuench, 0, &[1, 2, 3, 4]);
    assert_eq!(Error::from_text(&bytes[..7]).unwrap_err(), Fail::Malformed);
    let mut bad = bytes.clone();
    bad[9] ^= 1;
    assert_eq!(Error::from_text(&bad).unwrap_err(), Fail::Malformed);
    // An echo request with a good checksum is no error report.
    let mut echo = vec![8u8, 0, 0, 0, 0, 1, 0, 1];
    let sum = checksum(&echo);
    echo[2] = (sum >> 8) as u8;
    echo[3] = (sum & 0xff) as u8;
    assert_eq!(Error::from_text(&echo).unwrap_err(), Fail::Unsupported);
}

#[test]
fn arp_pdu_round_trip() {
    let pdu = ArpPdu {
        operation: ArpOperation::Request,
        sender_link_addr: MacAddress::new([1, 2, 3, 4, 5, 6]),
        sender_ipv4_addr: Ipv4Addr::new(10, 0, 0, 1),
        target_link_addr: MacAddress::nil(),
        target_ipv4_addr: Ipv4Addr::new(10, 0, 0, 2),
    };
    let bytes = pdu.to_bytes();
    assert_eq!(
        bytes,
        vec![
            0, 1, 8, 0, 6, 4, 0, 1, 1, 2, 3, 4, 5, 6, 10, 0, 0, 1, 0, 0, 0, 0, 0, 0, 10, 0, 0, 2
        ]
    );
    assert_eq!(ArpPdu::from_bytes(&bytes), Ok(pdu));
    let mut padded = bytes.clone();
    padded.extend_from_slice(&[0; 18]);
    assert_eq!(ArpPdu::from_bytes(&padded), Ok(pdu));
    assert_eq!(ArpPdu::from_bytes(&bytes[..27]), Err(Fail::Malformed));
    let mut bad = bytes.clone();
    bad[1] = 6;
    assert_eq!(ArpPdu::from_bytes(&bad), Err(Fail::Unsupported));
    let mut bad = bytes.clone();
    bad[7] = 3;
    assert_eq!(ArpPdu::from_bytes(&bad), Err(Fail::Unsupported));
    let mut reply = bytes.clone();
    reply[7] = 2;
    assert_eq!(
        ArpPdu::from_bytes(&reply).unwrap().operation,
        ArpOperation::Reply
    );
    assert_eq!(ArpOperation::from_u16(2), Some(ArpOperation::Reply));
    assert_eq!(ArpOperation::Request.to_u16(), 1);
}

#[test]
fn arp_message_writes_itself() {
    let me = MacAddress::new([1, 2, 3, 4, 5, 6]);
    let message = ArpMessage {
        ethernet: header(me, MacAddress::broadcast(), EtherType::Arp),
        pdu: ArpPdu {
            operation: ArpOperation::Request,
            sender_link_addr: me,
            sender_ipv4_addr: Ipv4Addr::new(10, 0, 0, 1),
            target_link_addr: MacAddress::nil(),
            target_ipv4_addr: Ipv4Addr::new(10, 0, 0, 2),
        },
    };
    assert_eq!(message.compute_size(), 60);
    let mut buf = vec![0xeeu8; 60];
    message.serialize(&mut buf);
    let frame = Frame::from_bytes(&buf).unwrap();
    assert_eq!(frame.header, message.ethernet);
    assert_eq!(ArpPdu::from_bytes(&frame.text), Ok(message.pdu));
    assert!(buf[42..].iter().all(|b| *b == 0));
}

fn syn_header() -> TcpHeader {
    TcpHeader {
        src_port: 5000,
        dest_port: 80,
        seq_num: 0x01020304,
        ack_num: 0,
        urg: false,
        ack: false,
        psh: false,
        rst: false,
        syn: true,
        fin: false,
        window_size: 0xffff,
        urgent_pointer: 0,
        mss: Some(1450),
    }
}

#[test]
fn tcp_segment_round_trip() {
    let src = Ipv4Addr::new(10, 0, 0, 1);
    let dest = Ipv4Addr::new(10, 0, 0, 2);
    let ip = Ipv4Header::new(Ipv4Protocol::Tcp, src, dest);
    let header = syn_header();
    let bytes = build_segment(src, dest, &header, &[]);
    assert_eq!(bytes.len(), 24);
    assert_eq!(&bytes[0..4], &[0x13, 0x88, 0x00, 0x50]);
    assert_eq!(&bytes[4..8], &[1, 2, 3, 4]);
    assert_eq!(bytes[12], 0x60);
    assert_eq!(bytes[13], 0x02);
    assert_eq!(&bytes[20..24], &[2, 4, 0x05, 0xaa]);
    let segment = TcpSegment::from_packet(&Ipv4Packet::new(ip, bytes.clone())).unwrap();
    assert_eq!(segment.header, header);
    assert!(segment.text.is_empty());
    assert_eq!(segment.to_bytes(src, dest), bytes);

    let data = TcpHeader {
        seq_num: 0xffff_fff0,
        ack_num: 77,
        ack: true,
        psh: true,
        syn: false,
        fin: true,
        window_size: 512,
        mss: None,
        ..header
    };
    let bytes = build_segment(src, dest, &data, b"hello");
    assert_eq!(bytes.len(), 25);
    assert_eq!(bytes[12], 0x50);
    assert_eq!(bytes[13], 0x19);
    let segment = TcpSegment::from_packet(&Ipv4Packet::new(ip, bytes)).unwrap();
    assert_eq!(segment.header, data);
    assert_eq!(segment.text, b"hello".to_vec());

    let reset = TcpHeader {
        rst: true,
        urg: true,
        urgent_pointer: 9,
        ..data
    };
    let bytes = build_segment(src, dest, &reset, &[]);
    assert_eq!(bytes[13], 0x3d);
    let segment = TcpSegment::from_packet(&Ipv4Packet::new(ip, bytes)).unwrap();
    assert_eq!(segment.header, reset);
}

#[test]
fn tcp_segment_refusals() {
    let src = Ipv4Addr::new(10, 0, 0, 1);
    let dest = Ipv4Addr::new(10, 0, 0, 2);
    let ip = Ipv4Header::new(Ipv4Protocol::Tcp, src, dest);
    let good = build_segment(src, dest, &syn_header(), &[1, 2, 3]);
    assert!(TcpSegment::from_packet(&Ipv4Packet::new(ip, good.clone())).is_ok());
    assert_eq!(
        TcpSegment::from_packet(&Ipv4Packet::new(ip, good[..19].to_vec())).unwrap_err(),
        Fail::Malformed
    );
    let mut bad = good.clone();
    bad[25] ^= 0xff;
    assert_eq!(
        TcpSegment::from_packet(&Ipv4Packet::new(ip, bad)).unwrap_err(),
        Fail::Malformed
    );
    let mut bad = good.clone();
    bad[12] = 0x40;
    assert_eq!(
        TcpSegment::from_packet(&Ipv4Packet::new(ip, bad)).unwrap_err(),
        Fail::Malformed
    );
    let mut bad = good.clone();
    bad[12] = 0xf0;
    assert_eq!(
        TcpSegment::from_packet(&Ipv4Packet::new(ip, bad)).unwrap_err(),
        Fail::Malformed
    );
    let elsewhere = Ipv4Header::new(Ipv4Protocol::Tcp, dest, src);
    assert!(TcpSegment::from_packet(&Ipv4Packet::new(elsewhere, good.clone())).is_ok());
    let other = Ipv4Header::new(Ipv4Protocol::Tcp, src, Ipv4Addr::new(10, 0, 0, 3));
    assert_eq!(
        TcpSegment::from_packet(&Ipv4Packet::new(other, good)).unwrap_err(),
        Fail::Malformed
    );
}

#[test]
fn tcp_packet_writes_itself() {
    let alice = MacAddress::new([1, 2, 3, 4, 5, 6]);
    let bob = MacAddress::new([7, 8, 9, 10, 11, 12]);
    let packet = TcpPacket {
        ethernet: header(alice, bob, EtherType::Ipv4),
        ipv4: Ipv4Header::new(
            Ipv4Protocol::Tcp,
            Ipv4Addr::new(10, 0, 0, 1),
            Ipv4Addr::new(10, 0, 0, 2),
        ),
        tcp: syn_header(),
        text: &[],
    };
    assert_eq!(packet.compute_size(), 60);
    let mut buf = vec![0u8; 60];
    packet.serialize(&mut buf);
    assert_eq!(buf, packet.to_bytes());
    let frame = Frame::from_bytes(&buf).unwrap();
    let ip = Ipv4Packet::from_bytes(&frame.text).unwrap();
    assert_eq!(ip.header.protocol, 6);
    assert_eq!(TcpSegment::from_packet(&ip).unwrap().header, syn_header());
}
