use vstd::prelude::*;
use crate::fail::Fail;
use crate::protocols::ipv4::address::Ipv4Addr;
use crate::wire::{checksum, checksum_of, push_bytes, push_u16, read_u16, u16_at};

verus! {

/// The size of a header without options, which is what this stack sends.
pub const IPV4_HEADER_SIZE: usize = 20;

/// The most that one packet can carry behind a header without options.
pub const MAX_IPV4_TEXT_SIZE: usize = 65515;

pub const DEFAULT_TTL: u8 = 64;

pub const PROTOCOL_ICMPV4: u8 = 1;

pub const PROTOCOL_TCP: u8 = 6;

pub const PROTOCOL_UDP: u8 = 17;

/// The transport protocols that the network layer hands packets to.
#[derive(Clone, Copy, Debug, PartialEq, Eq, Structural)]
pub enum Ipv4Protocol {
    Icmpv4,
    Tcp,
    Udp,
}

impl Ipv4Protocol {
    /// The number that stands for this protocol in a header.
    pub open spec fn number(self) -> u8 {
        match self {
            Ipv4Protocol::Icmpv4 => PROTOCOL_ICMPV4,
            Ipv4Protocol::Tcp => PROTOCOL_TCP,
            Ipv4Protocol::Udp => PROTOCOL_UDP,
        }
    }

    /// The protocol that `n` stands for, if this stack speaks it.
    pub open spec fn of_number(n: u8) -> Option<Ipv4Protocol> {
        if n == PROTOCOL_ICMPV4 {
            Some(Ipv4Protocol::Icmpv4)
        } else if n == PROTOCOL_TCP {
            Some(Ipv4Protocol::Tcp)
        } else if n == PROTOCOL_UDP {
            Some(Ipv4Protocol::Udp)
        } else {
            None
        }
    }

    pub fn to_u8(self) -> (n: u8)
        ensures
            n == self.number(),
    {
        match self {
            Ipv4Protocol::Icmpv4 => PROTOCOL_ICMPV4,
            Ipv4Protocol::Tcp => PROTOCOL_TCP,
            Ipv4Protocol::Udp => PROTOCOL_UDP,
        }
    }

    pub fn from_u8(n: u8) -> (p: Option<Ipv4Protocol>)
        ensures
            p == Ipv4Protocol::of_number(n),
    {
        if n == PROTOCOL_ICMPV4 {
            Some(Ipv4Protocol::Icmpv4)
        } else if n == PROTOCOL_TCP {
            Some(Ipv4Protocol::Tcp)
        } else if n == PROTOCOL_UDP {
            Some(Ipv4Protocol::Udp)
        } else {
            None
        }
    }
}

/// The fields of a header that a packet's sender chooses. The lengths and
/// the checksum follow from them and from the payload.
#[derive(Clone, Copy, Debug, PartialEq, Eq, Structural)]
pub struct Ipv4Header {
    pub dscp_ecn: u8,
    pub identification: u16,
    /// Three flag bits above thirteen bits of fragment offset.
    pub flags_and_offset: u16,
    pub ttl: u8,
    /// The protocol number as it stands in the header, known or not.
    pub protocol: u8,
    pub src_addr: Ipv4Addr,
    pub dest_addr: Ipv4Addr,
}

impl Ipv4Header {
    /// The header of an unfragmented packet with the default time to live.
    pub fn new(protocol: Ipv4Protocol, src_addr: Ipv4Addr, dest_addr: Ipv4Addr) -> (h: Ipv4Header)
        ensures
            h == (Ipv4Header {
                dscp_ecn: 0,
                identification: 0,
                flags_and_offset: 0,
                ttl: DEFAULT_TTL,
                protocol: protocol.number(),
                src_addr,
                dest_addr,
            }),
    {
        Ipv4Header {
            dscp_ecn: 0,
            identification: 0,
            flags_and_offset: 0,
            ttl: DEFAULT_TTL,
            protocol: protocol.to_u8(),
            src_addr,
            dest_addr,
        }
    }

    /// The twenty bytes of the header for a packet of `total_length` bytes,
    /// with `check` in the checksum field.
    pub open spec fn bytes(self, total_length: u16, check: u16) -> Seq<u8> {
        seq![
            0x45u8,
            self.dscp_ecn,
            (total_length / 256) as u8,
            (total_length % 256) as u8,
            (self.identification / 256) as u8,
            (self.identification % 256) as u8,
            (self.flags_and_offset / 256) as u8,
            (self.flags_and_offset % 256) as u8,
            self.ttl,
            self.protocol,
            (check / 256) as u8,
            (check % 256) as u8,
            (self.src_addr.value / 16777216) as u8,
            ((self.src_addr.value / 65536) % 256) as u8,
            ((self.src_addr.value / 256) % 256) as u8,
            (self.src_addr.value % 256) as u8,
            (self.dest_addr.value / 16777216) as u8,
            ((self.dest_addr.value / 65536) % 256) as u8,
            ((self.dest_addr.value / 256) % 256) as u8,
            (self.dest_addr.value % 256) as u8,
        ]
    }

    fn push_to(&self, buf: &mut Vec<u8>, total_length: u16, check: u16)
        ensures
            final(buf)@ == old(buf)@ + self.bytes(total_length, check),
    {
        buf.push(0x45u8);
        buf.push(self.dscp_ecn);
        push_u16(buf, total_length);
        push_u16(buf, self.identification);
        push_u16(buf, self.flags_and_offset);
        buf.push(self.ttl);
        buf.push(self.protocol);
        push_u16(buf, check);
        self.src_addr.push_to(buf);
        self.dest_addr.push_to(buf);
        assert(buf@ =~= old(buf)@ + self.bytes(total_length, check));
    }
}

/// The header of a packet that this stack sends from `src_addr` to
/// `dest_addr` with the given protocol number.
pub open spec fn outbound_header(
    protocol: u8,
    src_addr: Ipv4Addr,
    dest_addr: Ipv4Addr,
) -> Ipv4Header {
    Ipv4Header {
        dscp_ecn: 0,
        identification: 0,
        flags_and_offset: 0,
        ttl: DEFAULT_TTL,
        protocol,
        src_addr,
        dest_addr,
    }
}

/// `b` with its checksum field, bytes 10 and 11, set to zero.
pub open spec fn without_checksum(b: Seq<u8>) -> Seq<u8> {
    b.update(10, 0u8).update(11, 0u8)
}

/// The packet that carries `text` under `header`, on the wire.
pub open spec fn packet_bytes(header: Ipv4Header, text: Seq<u8>) -> Seq<u8> {
    let total_length = (IPV4_HEADER_SIZE + text.len()) as u16;
    header.bytes(total_length, checksum_of(header.bytes(total_length, 0))) + text
}

/// Whether `b` starts with a header that can be trusted: version 4, a
/// header length of at least five words that lies within the total length,
/// a total length that lies within `b`, and a checksum that matches.
pub open spec fn well_formed(b: Seq<u8>) -> bool {
    &&& b.len() >= IPV4_HEADER_SIZE
    &&& b[0] / 16 == 4
    &&& b[0] % 16 >= 5
    &&& (b[0] % 16) * 4 <= u16_at(b, 2) <= b.len()
    &&& checksum_of(without_checksum(b.subrange(0, (b[0] % 16) * 4))) == u16_at(b, 10)
}

/// What `b` holds, read as a packet: its header and its payload. Bytes
/// beyond the total length, such as a frame's padding, are left out.
pub open spec fn parse_packet(b: Seq<u8>) -> Result<(Ipv4Header, Seq<u8>), Fail> {
    if well_formed(b) {
        Ok(
            (
                Ipv4Header {
                    dscp_ecn: b[1],
                    identification: u16_at(b, 4),
                    flags_and_offset: u16_at(b, 6),
                    ttl: b[8],
                    protocol: b[9],
                    src_addr: Ipv4Addr::at(b, 12),
                    dest_addr: Ipv4Addr::at(b, 16),
                },
                b.subrange((b[0] % 16) * 4, u16_at(b, 2) as int),
            ),
        )
    } else {
        Err(Fail::Malformed)
    }
}

/// The packet itself within `b`: the bytes from the start of its header to
/// its total length, options and all, without what follows it.
pub open spec fn packet_span(b: Seq<u8>) -> Seq<u8> {
    b.subrange(0, u16_at(b, 2) as int)
}

/// A packet that was taken apart.
#[derive(Debug)]
pub struct Ipv4Packet {
    pub header: Ipv4Header,
    pub text: Vec<u8>,
    /// The packet on the wire: as it was read, with the options that its
    /// header may hold, or as it was written.
    pub wire: Vec<u8>,
}

impl Ipv4Packet {
    /// The packet that carries `text` under `header`, and no options.
    pub fn new(header: Ipv4Header, text: Vec<u8>) -> (p: Ipv4Packet)
        requires
            text@.len() <= MAX_IPV4_TEXT_SIZE,
        ensures
            p.header == header,
            p.text@ == text@,
            p.wire@ == packet_bytes(header, text@),
    {
        let wire = build_packet(&header, text.as_slice());
        Ipv4Packet { header, text, wire }
    }

    /// Takes `bytes` apart, and keeps the packet as it stands in them. The
    /// payload of a packet that was read is one that a packet can carry.
    pub fn from_bytes(bytes: &[u8]) -> (r: Result<Ipv4Packet, Fail>)
        ensures
            match parse_packet(bytes@) {
                Ok((header, text)) => r is Ok && r->Ok_0.header == header && r->Ok_0.text@ == text
                    && r->Ok_0.wire@ == packet_span(bytes@),
                Err(e) => r is Err && r->Err_0 == e,
            },
            r is Ok ==> r->Ok_0.text@.len() <= MAX_IPV4_TEXT_SIZE,
    {
        if bytes.len() < IPV4_HEADER_SIZE {
            return Err(Fail::Malformed);
        }
        let version: u8 = bytes[0] / 16;
        let words: u8 = bytes[0] % 16;
        if version != 4 || words < 5 {
            return Err(Fail::Malformed);
        }
        let header_length: usize = (words as usize) * 4;
        let total_length: usize = read_u16(bytes, 2) as usize;
        if header_length > total_length || total_length > bytes.len() {
            return Err(Fail::Malformed);
        }
        let mut summed: Vec<u8> = Vec::new();
        push_bytes(&mut summed, bytes, 0, header_length);
        summed.set(10, 0u8);
        summed.set(11, 0u8);
        assert(summed@ =~= without_checksum(bytes@.subrange(0, header_length as int)));
        if checksum(summed.as_slice()) != read_u16(bytes, 10) {
            return Err(Fail::Malformed);
        }
        let header = Ipv4Header {
            dscp_ecn: bytes[1],
            identification: read_u16(bytes, 4),
            flags_and_offset: read_u16(bytes, 6),
            ttl: bytes[8],
            protocol: bytes[9],
            src_addr: Ipv4Addr::read(bytes, 12),
            dest_addr: Ipv4Addr::read(bytes, 16),
        };
        let mut text: Vec<u8> = Vec::new();
        push_bytes(&mut text, bytes, header_length, total_length);
        assert(text@ =~= bytes@.subrange(header_length as int, total_length as int));
        let mut wire: Vec<u8> = Vec::new();
        push_bytes(&mut wire, bytes, 0, total_length);
        Ok(Ipv4Packet { header, text, wire })
    }

    /// The packet on the wire.
    pub fn to_bytes(&self) -> (bytes: Vec<u8>)
        ensures
            bytes@ == self.wire@,
    {
        let mut bytes: Vec<u8> = Vec::new();
        push_bytes(&mut bytes, self.wire.as_slice(), 0, self.wire.len());
        assert(self.wire@.subrange(0, self.wire@.len() as int) =~= self.wire@);
        bytes
    }
}

/// The bytes of the packet that carries `text` under `header`.
pub fn build_packet(header: &Ipv4Header, text: &[u8]) -> (bytes: Vec<u8>)
    requires
        text@.len() <= MAX_IPV4_TEXT_SIZE,
    ensures
        bytes@ == packet_bytes(*header, text@),
{
    let total_length: u16 = (IPV4_HEADER_SIZE + text.len()) as u16;
    let mut blank: Vec<u8> = Vec::new();
    header.push_to(&mut blank, total_length, 0);
    assert(blank@ =~= header.bytes(total_length, 0));
    let check = checksum(blank.as_slice());
    let mut bytes: Vec<u8> = Vec::new();
    header.push_to(&mut bytes, total_length, check);
    push_bytes(&mut bytes, text, 0, text.len());
    assert(text@.subrange(0, text@.len() as int) =~= text@);
    assert(bytes@ =~= packet_bytes(*header, text@));
    bytes
}

/// A packet that was built is read back as it was built, whatever follows
/// it in the buffer.
#[verifier::rlimit(40)]
pub proof fn packet_round_trip(header: Ipv4Header, text: Seq<u8>, trailer: Seq<u8>)
    requires
        text.len() <= MAX_IPV4_TEXT_SIZE,
    ensures
        parse_packet(packet_bytes(header, text) + trailer) == Ok::<(Ipv4Header, Seq<u8>), Fail>(
            (header, text),
        ),
        packet_span(packet_bytes(header, text) + trailer) == packet_bytes(header, text),
        packet_bytes(header, text).len() == IPV4_HEADER_SIZE + text.len(),
{
    let total_length = (IPV4_HEADER_SIZE + text.len()) as u16;
    let blank = header.bytes(total_length, 0);
    let check = checksum_of(blank);
    let hb = header.bytes(total_length, check);
    let b = packet_bytes(header, text) + trailer;
    assert(hb.len() == 20);
    assert(b.len() == 20 + text.len() + trailer.len());
    assert forall|i: int| 0 <= i < 20 implies b[i] == hb[i] by {}
    assert(b.subrange(0, 20) =~= hb);
    assert(without_checksum(hb) =~= blank);
    assert(b[0] == 0x45 && b[0] / 16 == 4 && b[0] % 16 == 5);
    assert(u16_at(b, 2) == total_length);
    assert(u16_at(b, 10) == check);
    assert(well_formed(b));
    assert(u16_at(b, 4) == header.identification);
    assert(u16_at(b, 6) == header.flags_and_offset);
    assert(Ipv4Addr::at(b, 12) == header.src_addr);
    assert(Ipv4Addr::at(b, 16) == header.dest_addr);
    assert(b.subrange(20, total_length as int) =~= text);
    assert(b.subrange(0, total_length as int) =~= packet_bytes(header, text));
}

} // verus!
