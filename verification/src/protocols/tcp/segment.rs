use vstd::prelude::*;
use crate::fail::Fail;
use crate::protocols::ethernet2::{
    build_frame, frame_bytes, frame_round_trip, padding, parse_frame, Ethernet2Header,
    ETHERNET2_HEADER_SIZE, MIN_PAYLOAD_SIZE,
};
use crate::protocols::ipv4::address::Ipv4Addr;
use crate::protocols::ipv4::packet::{
    build_packet, packet_bytes, packet_round_trip, parse_packet, Ipv4Header, Ipv4Packet,
    IPV4_HEADER_SIZE, PROTOCOL_TCP,
};
use crate::runtime::{copy_into, PacketBuf};
use crate::wire::{
    checksum, checksum_of, push_bytes, push_u16, push_u32, read_u16, read_u32, u16_at, u16_bytes,
    u32_at,
};

verus! {

/// The size of a header without options.
pub const TCP_HEADER_SIZE: usize = 20;

/// The size of the one option that this stack sends: the maximum segment
/// size.
pub const MSS_OPTION_SIZE: usize = 4;

/// The most that one segment can carry.
pub const MAX_TCP_TEXT_SIZE: usize = 65491;

pub const OPTION_KIND_MSS: u8 = 2;

#[derive(Clone, Copy, Debug, PartialEq, Eq, Structural)]
pub struct TcpHeader {
    pub src_port: u16,
    pub dest_port: u16,
    pub seq_num: u32,
    pub ack_num: u32,
    pub urg: bool,
    pub ack: bool,
    pub psh: bool,
    pub rst: bool,
    pub syn: bool,
    pub fin: bool,
    pub window_size: u16,
    pub urgent_pointer: u16,
    /// The maximum segment size, where the header carries that option.
    pub mss: Option<u16>,
}

/// The six flags as one byte.
pub open spec fn flags_byte(
    urg: bool,
    ack: bool,
    psh: bool,
    rst: bool,
    syn: bool,
    fin: bool,
) -> u8 {
    ((if urg { 32int } else { 0 }) + (if ack { 16int } else { 0 }) + (if psh { 8int } else { 0 }) + (
    if rst { 4int } else { 0 }) + (if syn { 2int } else { 0 }) + (if fin { 1int } else { 0 })) as u8
}

impl TcpHeader {
    /// The length of the header on the wire.
    pub open spec fn length(self) -> nat {
        if self.mss is Some {
            (TCP_HEADER_SIZE + MSS_OPTION_SIZE) as nat
        } else {
            TCP_HEADER_SIZE as nat
        }
    }

    /// The options of the header on the wire.
    pub open spec fn option_bytes(self) -> Seq<u8> {
        match self.mss {
            Some(mss) => seq![OPTION_KIND_MSS, 4u8, (mss / 256) as u8, (mss % 256) as u8],
            None => Seq::<u8>::empty(),
        }
    }

    /// The header on the wire, with `check` in the checksum field.
    pub open spec fn bytes(self, check: u16) -> Seq<u8> {
        seq![
            (self.src_port / 256) as u8,
            (self.src_port % 256) as u8,
            (self.dest_port / 256) as u8,
            (self.dest_port % 256) as u8,
            (self.seq_num / 16777216) as u8,
            ((self.seq_num / 65536) % 256) as u8,
            ((self.seq_num / 256) % 256) as u8,
            (self.seq_num % 256) as u8,
            (self.ack_num / 16777216) as u8,
            ((self.ack_num / 65536) % 256) as u8,
            ((self.ack_num / 256) % 256) as u8,
            (self.ack_num % 256) as u8,
            if self.mss is Some { 0x60u8 } else { 0x50u8 },
            flags_byte(self.urg, self.ack, self.psh, self.rst, self.syn, self.fin),
            (self.window_size / 256) as u8,
            (self.window_size % 256) as u8,
            (check / 256) as u8,
            (check % 256) as u8,
            (self.urgent_pointer / 256) as u8,
            (self.urgent_pointer % 256) as u8,
        ] + self.option_bytes()
    }

    fn flags(&self) -> (f: u8)
        ensures
            f == flags_byte(self.urg, self.ack, self.psh, self.rst, self.syn, self.fin),
    {
        let mut f: u8 = 0;
        if self.urg {
            f = f + 32;
        }
        if self.ack {
            f = f + 16;
        }
        if self.psh {
            f = f + 8;
        }
        if self.rst {
            f = f + 4;
        }
        if self.syn {
            f = f + 2;
        }
        if self.fin {
            f = f + 1;
        }
        f
    }

    fn push_to(&self, buf: &mut Vec<u8>, check: u16)
        ensures
            final(buf)@ == old(buf)@ + self.bytes(check),
    {
        push_u16(buf, self.src_port);
        push_u16(buf, self.dest_port);
        push_u32(buf, self.seq_num);
        push_u32(buf, self.ack_num);
        buf.push(if self.mss.is_some() { 0x60u8 } else { 0x50u8 });
        buf.push(self.flags());
        push_u16(buf, self.window_size);
        push_u16(buf, check);
        push_u16(buf, self.urgent_pointer);
        match self.mss {
            Some(mss) => {
                buf.push(OPTION_KIND_MSS);
                buf.push(4u8);
                push_u16(buf, mss);
            },
            None => {},
        }
        assert(buf@ =~= old(buf)@ + self.bytes(check));
    }
}

/// The twelve bytes that stand for the network layer in a segment's
/// checksum.
pub open spec fn pseudo_header(src_addr: Ipv4Addr, dest_addr: Ipv4Addr, length: u16) -> Seq<u8> {
    src_addr.bytes() + dest_addr.bytes() + seq![0u8, PROTOCOL_TCP] + u16_bytes(length)
}

/// The checksum field of the segment that carries `text` under `header`
/// between the two addresses.
pub open spec fn segment_check(
    src_addr: Ipv4Addr,
    dest_addr: Ipv4Addr,
    header: TcpHeader,
    text: Seq<u8>,
) -> u16 {
    checksum_of(
        pseudo_header(src_addr, dest_addr, (header.length() + text.len()) as u16) + (header.bytes(
            0,
        ) + text),
    )
}

/// The segment that carries `text` under `header`, on the wire.
pub open spec fn segment_bytes(
    src_addr: Ipv4Addr,
    dest_addr: Ipv4Addr,
    header: TcpHeader,
    text: Seq<u8>,
) -> Seq<u8> {
    header.bytes(segment_check(src_addr, dest_addr, header, text)) + text
}

/// `b` with its checksum field, bytes 16 and 17, set to zero.
pub open spec fn without_checksum(b: Seq<u8>) -> Seq<u8> {
    b.update(16, 0u8).update(17, 0u8)
}

/// Whether `b` is a segment that can be trusted: it holds a header whose
/// length is at least five words and lies within `b`, and its checksum
/// matches.
pub open spec fn well_formed(src_addr: Ipv4Addr, dest_addr: Ipv4Addr, b: Seq<u8>) -> bool {
    &&& TCP_HEADER_SIZE <= b.len() <= 0xffff
    &&& b[12] / 16 >= 5
    &&& (b[12] / 16) * 4 <= b.len()
    &&& checksum_of(pseudo_header(src_addr, dest_addr, b.len() as u16) + without_checksum(b))
        == u16_at(b, 16)
}

/// The maximum segment size that the options of `b` name, if that option
/// comes first among them.
pub open spec fn mss_option(b: Seq<u8>) -> Option<u16> {
    if b[12] / 16 >= 6 && b[20] == OPTION_KIND_MSS && b[21] == 4 {
        Some(u16_at(b, 22))
    } else {
        None
    }
}

/// What `b` holds, read as a segment that travelled between the two
/// addresses: its header and its payload.
pub open spec fn parse_segment(
    src_addr: Ipv4Addr,
    dest_addr: Ipv4Addr,
    b: Seq<u8>,
) -> Result< (TcpHeader, Seq<u8>), Fail, > {
    if well_formed(src_addr, dest_addr, b) {
        Ok(
            (
                TcpHeader {
                    src_port: u16_at(b, 0),
                    dest_port: u16_at(b, 2),
                    seq_num: u32_at(b, 4),
                    ack_num: u32_at(b, 8),
                    urg: (b[13] / 32) % 2 == 1,
                    ack: (b[13] / 16) % 2 == 1,
                    psh: (b[13] / 8) % 2 == 1,
                    rst: (b[13] / 4) % 2 == 1,
                    syn: (b[13] / 2) % 2 == 1,
                    fin: b[13] % 2 == 1,
                    window_size: u16_at(b, 14),
                    urgent_pointer: u16_at(b, 18),
                    mss: mss_option(b),
                },
                b.subrange((b[12] / 16) * 4, b.len() as int),
            ),
        )
    } else {
        Err(Fail::Malformed)
    }
}

fn compute_check(
    src_addr: Ipv4Addr,
    dest_addr: Ipv4Addr,
    header: &TcpHeader,
    text: &[u8],
) -> (c: u16)
    requires
        text@.len() <= MAX_TCP_TEXT_SIZE,
    ensures
        c == segment_check(src_addr, dest_addr, *header, text@),
{
    let header_length: usize = if header.mss.is_some() {
        TCP_HEADER_SIZE + MSS_OPTION_SIZE
    } else {
        TCP_HEADER_SIZE
    };
    let length: u16 = (header_length + text.len()) as u16;
    let mut summed: Vec<u8> = Vec::new();
    src_addr.push_to(&mut summed);
    dest_addr.push_to(&mut summed);
    summed.push(0u8);
    summed.push(PROTOCOL_TCP);
    push_u16(&mut summed, length);
    assert(summed@ =~= pseudo_header(src_addr, dest_addr, length));
    header.push_to(&mut summed, 0);
    push_bytes(&mut summed, text, 0, text.len());
    assert(text@.subrange(0, text@.len() as int) =~= text@);
    assert(summed@ =~= pseudo_header(src_addr, dest_addr, length) + (header.bytes(0) + text@));
    checksum(summed.as_slice())
}

/// A segment that was taken apart.
#[derive(Debug)]
pub struct TcpSegment {
    pub header: TcpHeader,
    pub text: Vec<u8>,
}

impl TcpSegment {
    pub fn new(header: TcpHeader, text: Vec<u8>) -> (s: TcpSegment)
        ensures
            s.header == header,
            s.text@ == text@,
    {
        TcpSegment { header, text }
    }

    /// Takes the payload of `packet` apart.
    pub fn from_packet(packet: &Ipv4Packet) -> (r: Result<TcpSegment, Fail>)
        ensures
            match parse_segment(packet.header.src_addr, packet.header.dest_addr, packet.text@) {
                Ok((header, text)) => r is Ok && r->Ok_0.header == header && r->Ok_0.text@ == text,
                Err(e) => r is Err && r->Err_0 == e,
            },
    {
        let b = packet.text.as_slice();
        if b.len() < TCP_HEADER_SIZE || b.len() > 0xffff {
            return Err(Fail::Malformed);
        }
        let words: u8 = b[12] / 16;
        let header_length: usize = (words as usize) * 4;
        if words < 5 || header_length > b.len() {
            return Err(Fail::Malformed);
        }
        let src_addr = packet.header.src_addr;
        let dest_addr = packet.header.dest_addr;
        let mut summed: Vec<u8> = Vec::new();
        src_addr.push_to(&mut summed);
        dest_addr.push_to(&mut summed);
        summed.push(0u8);
        summed.push(PROTOCOL_TCP);
        push_u16(&mut summed, b.len() as u16);
        assert(summed@ =~= pseudo_header(src_addr, dest_addr, b@.len() as u16));
        push_bytes(&mut summed, b, 0, b.len());
        assert(b@.subrange(0, b@.len() as int) =~= b@);
        summed.set(28, 0u8);
        summed.set(29, 0u8);
        assert(summed@ =~= pseudo_header(src_addr, dest_addr, b@.len() as u16) + without_checksum(
            b@,
        ));
        if checksum(summed.as_slice()) != read_u16(b, 16) {
            return Err(Fail::Malformed);
        }
        let flags: u8 = b[13];
        let mss = if words >= 6 && b[20] == OPTION_KIND_MSS && b[21] == 4 {
            Some(read_u16(b, 22))
        } else {
            None
        };
        let header = TcpHeader {
            src_port: read_u16(b, 0),
            dest_port: read_u16(b, 2),
            seq_num: read_u32(b, 4),
            ack_num: read_u32(b, 8),
            urg: (flags / 32) % 2 == 1,
            ack: (flags / 16) % 2 == 1,
            psh: (flags / 8) % 2 == 1,
            rst: (flags / 4) % 2 == 1,
            syn: (flags / 2) % 2 == 1,
            fin: flags % 2 == 1,
            window_size: read_u16(b, 14),
            urgent_pointer: read_u16(b, 18),
            mss,
        };
        let mut text: Vec<u8> = Vec::new();
        push_bytes(&mut text, b, header_length, b.len());
        Ok(TcpSegment { header, text })
    }

    /// Puts the segment on the wire, as the payload of a packet between
    /// the two addresses.
    pub fn to_bytes(&self, src_addr: Ipv4Addr, dest_addr: Ipv4Addr) -> (bytes: Vec<u8>)
        requires
            self.text@.len() <= MAX_TCP_TEXT_SIZE,
        ensures
            bytes@ == segment_bytes(src_addr, dest_addr, self.header, self.text@),
    {
        build_segment(src_addr, dest_addr, &self.header, self.text.as_slice())
    }
}

/// The bytes of the segment that carries `text` under `header` between the
/// two addresses.
pub fn build_segment(
    src_addr: Ipv4Addr,
    dest_addr: Ipv4Addr,
    header: &TcpHeader,
    text: &[u8],
) -> (bytes: Vec<u8>)
    requires
        text@.len() <= MAX_TCP_TEXT_SIZE,
    ensures
        bytes@ == segment_bytes(src_addr, dest_addr, *header, text@),
{
    let check = compute_check(src_addr, dest_addr, header, text);
    let mut bytes: Vec<u8> = Vec::new();
    header.push_to(&mut bytes, check);
    push_bytes(&mut bytes, text, 0, text.len());
    assert(text@.subrange(0, text@.len() as int) =~= text@);
    bytes
}

/// The six flags are read back from their byte as they were written.
pub proof fn flags_round_trip(urg: bool, ack: bool, psh: bool, rst: bool, syn: bool, fin: bool)
    ensures
        ({
            let f = flags_byte(urg, ack, psh, rst, syn, fin);
            &&& ((f / 32) % 2 == 1) == urg
            &&& ((f / 16) % 2 == 1) == ack
            &&& ((f / 8) % 2 == 1) == psh
            &&& ((f / 4) % 2 == 1) == rst
            &&& ((f / 2) % 2 == 1) == syn
            &&& (f % 2 == 1) == fin
        }),
{
}

/// What the bytes of a header say of it, field by field.
#[verifier::rlimit(40)]
pub proof fn header_bytes_decode(header: TcpHeader, check: u16)
    ensures
        ({
            let hb = header.bytes(check);
            &&& hb.len() == header.length()
            &&& u16_at(hb, 0) == header.src_port
            &&& u16_at(hb, 2) == header.dest_port
            &&& u32_at(hb, 4) == header.seq_num
            &&& u32_at(hb, 8) == header.ack_num
            &&& hb[12] / 16 == header.length() / 4
            &&& hb[13] == flags_byte(
                header.urg,
                header.ack,
                header.psh,
                header.rst,
                header.syn,
                header.fin,
            )
            &&& u16_at(hb, 14) == header.window_size
            &&& u16_at(hb, 16) == check
            &&& u16_at(hb, 18) == header.urgent_pointer
            &&& header.mss is Some ==> hb[20] == OPTION_KIND_MSS && hb[21] == 4 && u16_at(hb, 22)
                == header.mss->Some_0
            &&& without_checksum(hb) == header.bytes(0)
        }),
{
    let hb = header.bytes(check);
    assert(without_checksum(hb) =~= header.bytes(0));
}

/// A segment that was built is read back as it was built.
#[verifier::rlimit(40)]
pub proof fn segment_round_trip(
    src_addr: Ipv4Addr,
    dest_addr: Ipv4Addr,
    header: TcpHeader,
    text: Seq<u8>,
)
    requires
        text.len() <= MAX_TCP_TEXT_SIZE,
    ensures
        parse_segment(src_addr, dest_addr, segment_bytes(src_addr, dest_addr, header, text)) == Ok::<
            (TcpHeader, Seq<u8>),
            Fail,
        >((header, text)),
        segment_bytes(src_addr, dest_addr, header, text).len() == header.length() + text.len(),
{
    let check = segment_check(src_addr, dest_addr, header, text);
    let hb = header.bytes(check);
    let b = hb + text;
    let hl = header.length() as int;
    header_bytes_decode(header, check);
    assert(b == segment_bytes(src_addr, dest_addr, header, text));
    assert(b.len() == hl + text.len());
    assert(b[0] == hb[0] && b[1] == hb[1] && b[2] == hb[2] && b[3] == hb[3]);
    assert(b[4] == hb[4] && b[5] == hb[5] && b[6] == hb[6] && b[7] == hb[7]);
    assert(b[8] == hb[8] && b[9] == hb[9] && b[10] == hb[10] && b[11] == hb[11]);
    assert(b[12] == hb[12] && b[13] == hb[13] && b[14] == hb[14] && b[15] == hb[15]);
    assert(b[16] == hb[16] && b[17] == hb[17] && b[18] == hb[18] && b[19] == hb[19]);
    if header.mss is Some {
        assert(b[20] == hb[20] && b[21] == hb[21] && b[22] == hb[22] && b[23] == hb[23]);
    }
    assert(without_checksum(b) =~= without_checksum(hb) + text);
    assert(b.subrange(hl, b.len() as int) =~= text);
    parsed_fields(src_addr, dest_addr, b, header, text, check);
}

/// A well-formed buffer is read as the header whose fields its bytes
/// spell.
#[verifier::rlimit(40)]
proof fn parsed_fields(
    src_addr: Ipv4Addr,
    dest_addr: Ipv4Addr,
    b: Seq<u8>,
    header: TcpHeader,
    text: Seq<u8>,
    check: u16,
)
    requires
        TCP_HEADER_SIZE <= b.len() <= 0xffff,
        b.len() == header.length() + text.len(),
        b.subrange(header.length() as int, b.len() as int) == text,
        check == checksum_of(
            pseudo_header(src_addr, dest_addr, b.len() as u16) + without_checksum(b),
        ),
        u16_at(b, 0) == header.src_port,
        u16_at(b, 2) == header.dest_port,
        u32_at(b, 4) == header.seq_num,
        u32_at(b, 8) == header.ack_num,
        b[12] / 16 == header.length() / 4,
        b[13] == flags_byte(header.urg, header.ack, header.psh, header.rst, header.syn, header.fin),
        u16_at(b, 14) == header.window_size,
        u16_at(b, 16) == check,
        u16_at(b, 18) == header.urgent_pointer,
        header.mss is Some ==> b[20] == OPTION_KIND_MSS && b[21] == 4 && u16_at(b, 22)
            == header.mss->Some_0,
    ensures
        parse_segment(src_addr, dest_addr, b) == Ok::<(TcpHeader, Seq<u8>), Fail>((header, text)),
{
    flags_round_trip(header.urg, header.ack, header.psh, header.rst, header.syn, header.fin);
    assert(well_formed(src_addr, dest_addr, b));
    assert(mss_option(b) == header.mss);
}

/// The frame that carries `text` as a segment, under the three headers.
pub open spec fn tcp_frame_bytes(
    ethernet: Ethernet2Header,
    ipv4: Ipv4Header,
    tcp: TcpHeader,
    text: Seq<u8>,
) -> Seq<u8> {
    frame_bytes(ethernet, packet_bytes(ipv4, segment_bytes(ipv4.src_addr, ipv4.dest_addr, tcp, text)))
}

/// A segment under its network and link headers, ready for the wire.
pub struct TcpPacket<'a> {
    pub ethernet: Ethernet2Header,
    pub ipv4: Ipv4Header,
    pub tcp: TcpHeader,
    pub text: &'a [u8],
}

impl<'a> TcpPacket<'a> {
    /// Writes the packet out.
    pub fn to_bytes(&self) -> (bytes: Vec<u8>)
        requires
            self.text@.len() <= MAX_TCP_TEXT_SIZE,
        ensures
            bytes@ == tcp_frame_bytes(self.ethernet, self.ipv4, self.tcp, self.text@),
    {
        let segment = build_segment(self.ipv4.src_addr, self.ipv4.dest_addr, &self.tcp, self.text);
        proof {
            segment_round_trip(self.ipv4.src_addr, self.ipv4.dest_addr, self.tcp, self.text@);
        }
        let packet = build_packet(&self.ipv4, segment.as_slice());
        build_frame(self.ethernet, packet.as_slice())
    }
}

impl<'a> PacketBuf for TcpPacket<'a> {
    open spec fn valid(&self) -> bool {
        self.text@.len() <= MAX_TCP_TEXT_SIZE
    }

    open spec fn bytes(&self) -> Seq<u8> {
        tcp_frame_bytes(self.ethernet, self.ipv4, self.tcp, self.text@)
    }

    fn is_valid(&self) -> (valid: bool) {
        self.text.len() <= MAX_TCP_TEXT_SIZE
    }

    fn compute_size(&self) -> (size: usize) {
        proof {
            let segment = segment_bytes(self.ipv4.src_addr, self.ipv4.dest_addr, self.tcp, self.text@);
            segment_round_trip(self.ipv4.src_addr, self.ipv4.dest_addr, self.tcp, self.text@);
            packet_round_trip(self.ipv4, segment, Seq::<u8>::empty());
            frame_round_trip(self.ethernet, packet_bytes(self.ipv4, segment));
        }
        let header_length: usize = if self.tcp.mss.is_some() {
            TCP_HEADER_SIZE + MSS_OPTION_SIZE
        } else {
            TCP_HEADER_SIZE
        };
        let inner: usize = IPV4_HEADER_SIZE + header_length + self.text.len();
        if inner < MIN_PAYLOAD_SIZE {
            ETHERNET2_HEADER_SIZE + MIN_PAYLOAD_SIZE
        } else {
            ETHERNET2_HEADER_SIZE + inner
        }
    }

    fn serialize(&self, buf: &mut [u8]) {
        let bytes = self.to_bytes();
        copy_into(buf, bytes.as_slice());
    }
}

/// A frame that was built around a segment is read back, layer by layer,
/// as it was built.
pub proof fn tcp_frame_round_trip(
    ethernet: Ethernet2Header,
    ipv4: Ipv4Header,
    tcp: TcpHeader,
    text: Seq<u8>,
)
    requires
        text.len() <= MAX_TCP_TEXT_SIZE,
    ensures
        ({
            let segment = segment_bytes(ipv4.src_addr, ipv4.dest_addr, tcp, text);
            let parsed = parse_frame(tcp_frame_bytes(ethernet, ipv4, tcp, text));
            &&& parsed is Ok
            &&& parsed->Ok_0.0 == ethernet
            &&& parse_packet(parsed->Ok_0.1) == Ok::<(Ipv4Header, Seq<u8>), Fail>((ipv4, segment))
            &&& parse_segment(ipv4.src_addr, ipv4.dest_addr, segment) == Ok::<
                (TcpHeader, Seq<u8>),
                Fail,
            >((tcp, text))
        }),
{
    let segment = segment_bytes(ipv4.src_addr, ipv4.dest_addr, tcp, text);
    segment_round_trip(ipv4.src_addr, ipv4.dest_addr, tcp, text);
    let packet = packet_bytes(ipv4, segment);
    packet_round_trip(ipv4, segment, padding(packet.len()));
    frame_round_trip(ethernet, packet);
}

} // verus!
