use vstd::prelude::*;
use crate::fail::Fail;
use crate::protocols::ethernet2::{
    build_frame, frame_bytes, frame_round_trip, parse_frame, EtherType, Ethernet2Header, Frame,
    ETHERNET2_HEADER_SIZE, MIN_PAYLOAD_SIZE,
};
use crate::protocols::ipv4::address::Ipv4Addr;
use crate::protocols::ipv4::packet::{
    build_packet, packet_bytes, packet_round_trip, packet_span, parse_packet, Ipv4Header,
    Ipv4Packet,
    IPV4_HEADER_SIZE, PROTOCOL_UDP,
};
use crate::runtime::{copy_into, PacketBuf};
use crate::wire::{checksum, checksum_of, push_bytes, push_u16, read_u16, u16_at, u16_bytes};

verus! {

pub const UDP_HEADER_SIZE: usize = 8;

/// The most that one datagram can carry.
pub const MAX_UDP_TEXT_SIZE: usize = 65507;

#[derive(Clone, Copy, Debug, PartialEq, Eq, Structural)]
pub struct UdpHeader {
    pub src_port: u16,
    pub dest_port: u16,
}

impl UdpHeader {
    /// The eight bytes of the header of a datagram of `length` bytes, with
    /// `check` in the checksum field.
    pub open spec fn bytes(self, length: u16, check: u16) -> Seq<u8> {
        u16_bytes(self.src_port) + u16_bytes(self.dest_port) + u16_bytes(length) + u16_bytes(check)
    }

    fn push_to(&self, buf: &mut Vec<u8>, length: u16, check: u16)
        ensures
            final(buf)@ == old(buf)@ + self.bytes(length, check),
    {
        push_u16(buf, self.src_port);
        push_u16(buf, self.dest_port);
        push_u16(buf, length);
        push_u16(buf, check);
        assert(buf@ =~= old(buf)@ + self.bytes(length, check));
    }
}

/// The twelve bytes that stand for the network layer in a datagram's
/// checksum.
pub open spec fn pseudo_header(src_addr: Ipv4Addr, dest_addr: Ipv4Addr, length: u16) -> Seq<u8> {
    src_addr.bytes() + dest_addr.bytes() + seq![0u8, PROTOCOL_UDP] + u16_bytes(length)
}

/// The checksum field of the datagram that carries `text` under `header`
/// between the two addresses. Zero on the wire means "no checksum", so a
/// sum of zero is sent as all ones.
pub open spec fn datagram_check(
    src_addr: Ipv4Addr,
    dest_addr: Ipv4Addr,
    header: UdpHeader,
    text: Seq<u8>,
) -> u16 {
    let length = (UDP_HEADER_SIZE + text.len()) as u16;
    let sum = checksum_of(pseudo_header(src_addr, dest_addr, length) + header.bytes(length, 0) + text);
    if sum == 0 {
        0xffff
    } else {
        sum
    }
}

/// The datagram that carries `text` under `header`, on the wire.
pub open spec fn datagram_bytes(
    src_addr: Ipv4Addr,
    dest_addr: Ipv4Addr,
    header: UdpHeader,
    text: Seq<u8>,
) -> Seq<u8> {
    header.bytes(
        (UDP_HEADER_SIZE + text.len()) as u16,
        datagram_check(src_addr, dest_addr, header, text),
    ) + text
}

/// What `b` holds, read as a datagram that travelled between the two
/// addresses: its header and its payload. The length field must cover the
/// header and lie within `b`; the checksum field must be zero or match.
pub open spec fn parse_datagram(
    src_addr: Ipv4Addr,
    dest_addr: Ipv4Addr,
    b: Seq<u8>,
) -> Result< (UdpHeader, Seq<u8>), Fail, > {
    if b.len() < UDP_HEADER_SIZE || u16_at(b, 4) < UDP_HEADER_SIZE || u16_at(b, 4) > b.len() {
        Err(Fail::Malformed)
    } else {
        let header = UdpHeader { src_port: u16_at(b, 0), dest_port: u16_at(b, 2) };
        let text = b.subrange(UDP_HEADER_SIZE as int, u16_at(b, 4) as int);
        if u16_at(b, 6) == 0 || u16_at(b, 6) == datagram_check(src_addr, dest_addr, header, text) {
            Ok((header, text))
        } else {
            Err(Fail::Malformed)
        }
    }
}

/// What a whole frame holds, read down to the datagram in it.
pub open spec fn parse_datagram_frame(b: Seq<u8>) -> Result<(UdpHeader, Seq<u8>), Fail> {
    match parse_frame(b) {
        Err(e) => Err(e),
        Ok((frame_header, frame_text)) => if frame_header.ether_type != EtherType::Ipv4 {
            Err(Fail::Unsupported)
        } else {
            match parse_packet(frame_text) {
                Err(e) => Err(e),
                Ok((header, text)) => if header.protocol != PROTOCOL_UDP {
                    Err(Fail::Unsupported)
                } else {
                    parse_datagram(header.src_addr, header.dest_addr, text)
                },
            }
        },
    }
}

fn compute_check(
    src_addr: Ipv4Addr,
    dest_addr: Ipv4Addr,
    header: &UdpHeader,
    text: &[u8],
) -> (c: u16)
    requires
        UDP_HEADER_SIZE + text@.len() <= 0xffff,
    ensures
        c == datagram_check(src_addr, dest_addr, *header, text@),
{
    let length: u16 = (UDP_HEADER_SIZE + text.len()) as u16;
    let mut summed: Vec<u8> = Vec::new();
    src_addr.push_to(&mut summed);
    dest_addr.push_to(&mut summed);
    summed.push(0u8);
    summed.push(PROTOCOL_UDP);
    push_u16(&mut summed, length);
    assert(summed@ =~= pseudo_header(src_addr, dest_addr, length));
    header.push_to(&mut summed, length, 0);
    push_bytes(&mut summed, text, 0, text.len());
    assert(text@.subrange(0, text@.len() as int) =~= text@);
    let sum = checksum(summed.as_slice());
    if sum == 0 {
        0xffff
    } else {
        sum
    }
}

/// A datagram that was taken apart.
#[derive(Debug)]
pub struct UdpDatagram {
    pub header: UdpHeader,
    pub text: Vec<u8>,
}

impl UdpDatagram {
    pub fn new(header: UdpHeader, text: Vec<u8>) -> (d: UdpDatagram)
        ensures
            d.header == header,
            d.text@ == text@,
    {
        UdpDatagram { header, text }
    }

    /// Takes the payload of `packet` apart.
    pub fn from_packet(packet: &Ipv4Packet) -> (r: Result<UdpDatagram, Fail>)
        ensures
            match parse_datagram(packet.header.src_addr, packet.header.dest_addr, packet.text@) {
                Ok((header, text)) => r is Ok && r->Ok_0.header == header && r->Ok_0.text@ == text,
                Err(e) => r is Err && r->Err_0 == e,
            },
    {
        let b = packet.text.as_slice();
        if b.len() < UDP_HEADER_SIZE {
            return Err(Fail::Malformed);
        }
        let length: usize = read_u16(b, 4) as usize;
        if length < UDP_HEADER_SIZE || length > b.len() {
            return Err(Fail::Malformed);
        }
        let header = UdpHeader { src_port: read_u16(b, 0), dest_port: read_u16(b, 2) };
        let mut text: Vec<u8> = Vec::new();
        push_bytes(&mut text, b, UDP_HEADER_SIZE, length);
        let stored = read_u16(b, 6);
        if stored != 0 {
            let expected = compute_check(
                packet.header.src_addr,
                packet.header.dest_addr,
                &header,
                text.as_slice(),
            );
            if stored != expected {
                return Err(Fail::Malformed);
            }
        }
        Ok(UdpDatagram { header, text })
    }

    /// Takes a whole frame apart, down to the datagram in it.
    pub fn from_bytes(bytes: &[u8]) -> (r: Result<UdpDatagram, Fail>)
        ensures
            match parse_datagram_frame(bytes@) {
                Ok((header, text)) => r is Ok && r->Ok_0.header == header && r->Ok_0.text@ == text,
                Err(e) => r is Err && r->Err_0 == e,
            },
    {
        let frame = match Frame::from_bytes(bytes) {
            Err(e) => {
                return Err(e);
            },
            Ok(frame) => frame,
        };
        match frame.header.ether_type {
            EtherType::Ipv4 => {},
            EtherType::Arp => {
                return Err(Fail::Unsupported);
            },
        }
        let packet = match Ipv4Packet::from_bytes(frame.text.as_slice()) {
            Err(e) => {
                return Err(e);
            },
            Ok(packet) => packet,
        };
        if packet.header.protocol != PROTOCOL_UDP {
            return Err(Fail::Unsupported);
        }
        UdpDatagram::from_packet(&packet)
    }

    /// Puts the datagram on the wire, as the payload of a packet between
    /// the two addresses.
    pub fn to_bytes(&self, src_addr: Ipv4Addr, dest_addr: Ipv4Addr) -> (bytes: Vec<u8>)
        requires
            self.text@.len() <= MAX_UDP_TEXT_SIZE,
        ensures
            bytes@ == datagram_bytes(src_addr, dest_addr, self.header, self.text@),
    {
        build_datagram(src_addr, dest_addr, &self.header, self.text.as_slice())
    }
}

/// The bytes of the datagram that carries `text` under `header` between the
/// two addresses.
pub fn build_datagram(
    src_addr: Ipv4Addr,
    dest_addr: Ipv4Addr,
    header: &UdpHeader,
    text: &[u8],
) -> (bytes: Vec<u8>)
    requires
        text@.len() <= MAX_UDP_TEXT_SIZE,
    ensures
        bytes@ == datagram_bytes(src_addr, dest_addr, *header, text@),
{
    let length: u16 = (UDP_HEADER_SIZE + text.len()) as u16;
    let check = compute_check(src_addr, dest_addr, header, text);
    let mut bytes: Vec<u8> = Vec::new();
    header.push_to(&mut bytes, length, check);
    push_bytes(&mut bytes, text, 0, text.len());
    assert(text@.subrange(0, text@.len() as int) =~= text@);
    assert(bytes@ =~= datagram_bytes(src_addr, dest_addr, *header, text@));
    bytes
}

/// The frame that carries `text` as a datagram, under the three headers.
pub open spec fn udp_frame_bytes(
    ethernet: Ethernet2Header,
    ipv4: Ipv4Header,
    udp: UdpHeader,
    text: Seq<u8>,
) -> Seq<u8> {
    frame_bytes(
        ethernet,
        packet_bytes(ipv4, datagram_bytes(ipv4.src_addr, ipv4.dest_addr, udp, text)),
    )
}

/// A datagram under its network and link headers, ready for the wire.
pub struct UdpPacket<'a> {
    pub ethernet: Ethernet2Header,
    pub ipv4: Ipv4Header,
    pub udp: UdpHeader,
    pub text: &'a [u8],
}

impl<'a> UdpPacket<'a> {
    /// Writes the packet out.
    pub fn to_bytes(&self) -> (bytes: Vec<u8>)
        requires
            self.text@.len() <= MAX_UDP_TEXT_SIZE,
        ensures
            bytes@ == udp_frame_bytes(self.ethernet, self.ipv4, self.udp, self.text@),
    {
        let datagram = build_datagram(self.ipv4.src_addr, self.ipv4.dest_addr, &self.udp, self.text);
        proof {
            datagram_round_trip(
                self.ipv4.src_addr,
                self.ipv4.dest_addr,
                self.udp,
                self.text@,
                Seq::<u8>::empty(),
            );
        }
        let packet = build_packet(&self.ipv4, datagram.as_slice());
        build_frame(self.ethernet, packet.as_slice())
    }
}

impl<'a> PacketBuf for UdpPacket<'a> {
    open spec fn valid(&self) -> bool {
        self.text@.len() <= MAX_UDP_TEXT_SIZE
    }

    open spec fn bytes(&self) -> Seq<u8> {
        udp_frame_bytes(self.ethernet, self.ipv4, self.udp, self.text@)
    }

    fn is_valid(&self) -> (valid: bool) {
        self.text.len() <= MAX_UDP_TEXT_SIZE
    }

    fn compute_size(&self) -> (size: usize) {
        proof {
            let datagram = datagram_bytes(self.ipv4.src_addr, self.ipv4.dest_addr, self.udp, self.text@);
            datagram_round_trip(
                self.ipv4.src_addr,
                self.ipv4.dest_addr,
                self.udp,
                self.text@,
                Seq::<u8>::empty(),
            );
            packet_round_trip(self.ipv4, datagram, Seq::<u8>::empty());
            frame_round_trip(self.ethernet, packet_bytes(self.ipv4, datagram));
        }
        let inner: usize = IPV4_HEADER_SIZE + UDP_HEADER_SIZE + self.text.len();
        if inner < MIN_PAYLOAD_SIZE {
            ETHERNET2_HEADER_SIZE + MIN_PAYLOAD_SIZE
        } else {
            ETHERNET2_HEADER_SIZE + inner
        }
    }

    fn serialize(&self, buf: &mut [u8]) {
        let bytes = self.to_bytes();
        copy_into(buf, bytes.as_slice());
    }
}

/// A datagram that was built is read back as it was built, whatever follows
/// it in the buffer.
pub proof fn datagram_round_trip(
    src_addr: Ipv4Addr,
    dest_addr: Ipv4Addr,
    header: UdpHeader,
    text: Seq<u8>,
    trailer: Seq<u8>,
)
    requires
        text.len() <= MAX_UDP_TEXT_SIZE,
    ensures
        parse_datagram(
            src_addr,
            dest_addr,
            datagram_bytes(src_addr, dest_addr, header, text) + trailer,
        ) == Ok::<(UdpHeader, Seq<u8>), Fail>((header, text)),
        datagram_bytes(src_addr, dest_addr, header, text).len() == UDP_HEADER_SIZE + text.len(),
{
    let length = (UDP_HEADER_SIZE + text.len()) as u16;
    let check = datagram_check(src_addr, dest_addr, header, text);
    let hb = header.bytes(length, check);
    let b = datagram_bytes(src_addr, dest_addr, header, text) + trailer;
    assert(hb.len() == 8);
    assert forall|i: int| 0 <= i < 8 implies b[i] == hb[i] by {}
    assert(hb[0] == u16_bytes(header.src_port)[0] && hb[1] == u16_bytes(header.src_port)[1]);
    assert(hb[2] == u16_bytes(header.dest_port)[0] && hb[3] == u16_bytes(header.dest_port)[1]);
    assert(hb[4] == u16_bytes(length)[0] && hb[5] == u16_bytes(length)[1]);
    assert(hb[6] == u16_bytes(check)[0] && hb[7] == u16_bytes(check)[1]);
    assert(u16_at(b, 0) == header.src_port);
    assert(u16_at(b, 2) == header.dest_port);
    assert(u16_at(b, 4) == length);
    assert(u16_at(b, 6) == check);
    assert(b.subrange(8, length as int) =~= text);
}

/// A frame that was built around a datagram is read back, layer by layer,
/// as it was built: the frame's header, then the packet's, then the
/// datagram's header and the payload, without the frame's padding.
pub proof fn udp_frame_round_trip(
    ethernet: Ethernet2Header,
    ipv4: Ipv4Header,
    udp: UdpHeader,
    text: Seq<u8>,
)
    requires
        text.len() <= MAX_UDP_TEXT_SIZE,
    ensures
        ({
            let datagram = datagram_bytes(ipv4.src_addr, ipv4.dest_addr, udp, text);
            let parsed = parse_frame(udp_frame_bytes(ethernet, ipv4, udp, text));
            &&& parsed is Ok
            &&& parsed->Ok_0.0 == ethernet
            &&& parse_packet(parsed->Ok_0.1) == Ok::<(Ipv4Header, Seq<u8>), Fail>((ipv4, datagram))
            &&& packet_span(parsed->Ok_0.1) == packet_bytes(ipv4, datagram)
            &&& parse_datagram(ipv4.src_addr, ipv4.dest_addr, datagram) == Ok::<
                (UdpHeader, Seq<u8>),
                Fail,
            >((udp, text))
        }),
        ethernet.ether_type == EtherType::Ipv4 && ipv4.protocol == PROTOCOL_UDP ==> parse_datagram_frame(
            udp_frame_bytes(ethernet, ipv4, udp, text),
        ) == Ok::<(UdpHeader, Seq<u8>), Fail>((udp, text)),
{
    let datagram = datagram_bytes(ipv4.src_addr, ipv4.dest_addr, udp, text);
    datagram_round_trip(ipv4.src_addr, ipv4.dest_addr, udp, text, Seq::<u8>::empty());
    assert(datagram + Seq::<u8>::empty() =~= datagram);
    let packet = packet_bytes(ipv4, datagram);
    packet_round_trip(ipv4, datagram, crate::protocols::ethernet2::padding(packet.len()));
    frame_round_trip(ethernet, packet);
}

} // verus!
