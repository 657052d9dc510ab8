//! Ethernet II framing.

use vstd::prelude::*;
use crate::fail::Fail;
use crate::wire::{push_bytes, push_u16, push_zeros, read_u16, u16_at, u16_bytes};

verus! {

pub const ETHERNET2_HEADER_SIZE: usize = 14;

/// A frame carries at least this much payload; shorter payloads are padded
/// with zeros.
pub const MIN_PAYLOAD_SIZE: usize = 46;

pub const ETHER_TYPE_IPV4: u16 = 0x0800;

pub const ETHER_TYPE_ARP: u16 = 0x0806;

/// A link-layer address.
#[derive(Clone, Copy, Debug, PartialEq, Eq, Structural)]
pub struct MacAddress {
    pub o0: u8,
    pub o1: u8,
    pub o2: u8,
    pub o3: u8,
    pub o4: u8,
    pub o5: u8,
}

impl MacAddress {
    pub fn new(bytes: [u8; 6]) -> (m: MacAddress)
        ensures
            m.bytes() == bytes@,
    {
        let m = MacAddress {
            o0: bytes[0],
            o1: bytes[1],
            o2: bytes[2],
            o3: bytes[3],
            o4: bytes[4],
            o5: bytes[5],
        };
        assert(m.bytes() =~= bytes@);
        m
    }

    /// The address that every station listens to.
    pub fn broadcast() -> (m: MacAddress)
        ensures
            m.is_broadcast(),
    {
        MacAddress { o0: 0xff, o1: 0xff, o2: 0xff, o3: 0xff, o4: 0xff, o5: 0xff }
    }

    /// The all-zero address, which stands for "not known" in an ARP request.
    pub fn nil() -> (m: MacAddress)
        ensures
            m == (MacAddress { o0: 0, o1: 0, o2: 0, o3: 0, o4: 0, o5: 0 }),
    {
        MacAddress { o0: 0, o1: 0, o2: 0, o3: 0, o4: 0, o5: 0 }
    }

    #[verifier::when_used_as_spec(spec_is_broadcast)]
    pub fn is_broadcast(&self) -> (b: bool)
        ensures
            b == self.spec_is_broadcast(),
    {
        self.o0 == 0xff && self.o1 == 0xff && self.o2 == 0xff && self.o3 == 0xff && self.o4 == 0xff
            && self.o5 == 0xff
    }

    pub open spec fn spec_is_broadcast(&self) -> bool {
        *self == (MacAddress { o0: 0xff, o1: 0xff, o2: 0xff, o3: 0xff, o4: 0xff, o5: 0xff })
    }

    /// The six bytes of the address, in transmission order.
    pub open spec fn bytes(self) -> Seq<u8> {
        seq![self.o0, self.o1, self.o2, self.o3, self.o4, self.o5]
    }

    /// The address held in `b[i] .. b[i + 5]`.
    pub open spec fn at(b: Seq<u8>, i: int) -> MacAddress {
        MacAddress { o0: b[i], o1: b[i + 1], o2: b[i + 2], o3: b[i + 3], o4: b[i + 4], o5: b[i + 5] }
    }

    pub fn to_array(&self) -> (a: [u8; 6])
        ensures
            a@ == self.bytes(),
    {
        let a = [self.o0, self.o1, self.o2, self.o3, self.o4, self.o5];
        assert(a@ =~= self.bytes());
        a
    }

    pub fn read(b: &[u8], i: usize) -> (m: MacAddress)
        requires
            i + 6 <= b@.len(),
        ensures
            m == MacAddress::at(b@, i as int),
    {
        MacAddress {
            o0: b[i],
            o1: b[i + 1],
            o2: b[i + 2],
            o3: b[i + 3],
            o4: b[i + 4],
            o5: b[i + 5],
        }
    }

    pub fn push_to(&self, buf: &mut Vec<u8>)
        ensures
            final(buf)@ == old(buf)@ + self.bytes(),
    {
        buf.push(self.o0);
        buf.push(self.o1);
        buf.push(self.o2);
        buf.push(self.o3);
        buf.push(self.o4);
        buf.push(self.o5);
        assert(buf@ =~= old(buf)@ + self.bytes());
    }
}

/// What a frame carries.
#[derive(Clone, Copy, Debug, PartialEq, Eq, Structural)]
pub enum EtherType {
    Arp,
    Ipv4,
}

impl EtherType {
    /// The number that stands for this payload type on the wire.
    pub open spec fn number(self) -> u16 {
        match self {
            EtherType::Arp => ETHER_TYPE_ARP,
            EtherType::Ipv4 => ETHER_TYPE_IPV4,
        }
    }

    /// The payload type that `n` stands for, if this stack routes it.
    pub open spec fn of_number(n: u16) -> Option<EtherType> {
        if n == ETHER_TYPE_ARP {
            Some(EtherType::Arp)
        } else if n == ETHER_TYPE_IPV4 {
            Some(EtherType::Ipv4)
        } else {
            None
        }
    }

    pub fn to_u16(self) -> (n: u16)
        ensures
            n == self.number(),
    {
        match self {
            EtherType::Arp => ETHER_TYPE_ARP,
            EtherType::Ipv4 => ETHER_TYPE_IPV4,
        }
    }

    pub fn from_u16(n: u16) -> (t: Option<EtherType>)
        ensures
            t == EtherType::of_number(n),
    {
        if n == ETHER_TYPE_ARP {
            Some(EtherType::Arp)
        } else if n == ETHER_TYPE_IPV4 {
            Some(EtherType::Ipv4)
        } else {
            None
        }
    }
}

#[derive(Clone, Copy, Debug, PartialEq, Eq, Structural)]
pub struct Ethernet2Header {
    pub dest_addr: MacAddress,
    pub src_addr: MacAddress,
    pub ether_type: EtherType,
}

impl Ethernet2Header {
    /// The fourteen bytes of the header.
    pub open spec fn bytes(self) -> Seq<u8> {
        self.dest_addr.bytes() + self.src_addr.bytes() + u16_bytes(self.ether_type.number())
    }
}

/// Zeros that bring a payload of `len` bytes up to the minimum.
pub open spec fn padding(len: nat) -> Seq<u8> {
    Seq::new(if len < MIN_PAYLOAD_SIZE { (MIN_PAYLOAD_SIZE - len) as nat } else { 0 }, |i: int| 0u8)
}

/// The frame that carries `text` under `header`, on the wire.
pub open spec fn frame_bytes(header: Ethernet2Header, text: Seq<u8>) -> Seq<u8> {
    header.bytes() + text + padding(text.len())
}

/// What `b` holds, read as a frame: its header and everything after it.
/// Too few bytes for a header are malformed; a payload type other than ARP
/// and IPv4 is unsupported.
pub open spec fn parse_frame(b: Seq<u8>) -> Result<(Ethernet2Header, Seq<u8>), Fail> {
    if b.len() < ETHERNET2_HEADER_SIZE {
        Err(Fail::Malformed)
    } else {
        match EtherType::of_number(u16_at(b, 12)) {
            None => Err(Fail::Unsupported),
            Some(ether_type) => Ok(
                (
                    Ethernet2Header {
                        dest_addr: MacAddress::at(b, 0),
                        src_addr: MacAddress::at(b, 6),
                        ether_type,
                    },
                    b.subrange(ETHERNET2_HEADER_SIZE as int, b.len() as int),
                ),
            ),
        }
    }
}

/// A frame that was taken apart: its header and its payload, which holds
/// the sender's padding where there was any.
#[derive(Debug)]
pub struct Frame {
    pub header: Ethernet2Header,
    pub text: Vec<u8>,
}

impl Frame {
    pub fn new(header: Ethernet2Header, text: Vec<u8>) -> (f: Frame)
        ensures
            f.header == header,
            f.text@ == text@,
    {
        Frame { header, text }
    }

    /// Takes `bytes` apart.
    pub fn from_bytes(bytes: &[u8]) -> (r: Result<Frame, Fail>)
        ensures
            match parse_frame(bytes@) {
                Ok((header, text)) => r is Ok && r->Ok_0.header == header && r->Ok_0.text@ == text,
                Err(e) => r is Err && r->Err_0 == e,
            },
    {
        if bytes.len() < ETHERNET2_HEADER_SIZE {
            return Err(Fail::Malformed);
        }
        let ether_type = match EtherType::from_u16(read_u16(bytes, 12)) {
            None => {
                return Err(Fail::Unsupported);
            },
            Some(t) => t,
        };
        let header = Ethernet2Header {
            dest_addr: MacAddress::read(bytes, 0),
            src_addr: MacAddress::read(bytes, 6),
            ether_type,
        };
        let mut text: Vec<u8> = Vec::new();
        push_bytes(&mut text, bytes, ETHERNET2_HEADER_SIZE, bytes.len());
        assert(text@ =~= bytes@.subrange(ETHERNET2_HEADER_SIZE as int, bytes@.len() as int));
        Ok(Frame { header, text })
    }

    /// Puts the frame on the wire, padded to the minimum size.
    pub fn to_bytes(&self) -> (bytes: Vec<u8>)
        ensures
            bytes@ == frame_bytes(self.header, self.text@),
    {
        build_frame(self.header, self.text.as_slice())
    }
}

/// The bytes of the frame that carries `text` under `header`.
pub fn build_frame(header: Ethernet2Header, text: &[u8]) -> (bytes: Vec<u8>)
    ensures
        bytes@ == frame_bytes(header, text@),
{
    let mut bytes: Vec<u8> = Vec::new();
    header.dest_addr.push_to(&mut bytes);
    header.src_addr.push_to(&mut bytes);
    push_u16(&mut bytes, header.ether_type.to_u16());
    push_bytes(&mut bytes, text, 0, text.len());
    assert(text@.subrange(0, text@.len() as int) =~= text@);
    let pad: usize = if text.len() < MIN_PAYLOAD_SIZE { MIN_PAYLOAD_SIZE - text.len() } else { 0 };
    push_zeros(&mut bytes, pad);
    assert(bytes@ =~= frame_bytes(header, text@));
    bytes
}

/// A frame that was built is read back as it was built: the same header,
/// and the payload followed by its padding.
pub proof fn frame_round_trip(header: Ethernet2Header, text: Seq<u8>)
    ensures
        parse_frame(frame_bytes(header, text)) == Ok::<(Ethernet2Header, Seq<u8>), Fail>(
            (header, text + padding(text.len())),
        ),
        frame_bytes(header, text).len() == ETHERNET2_HEADER_SIZE + text.len() + padding(
            text.len(),
        ).len(),
{
    let b = frame_bytes(header, text);
    let hb = header.bytes();
    assert(hb.len() == 14);
    assert forall|i: int| 0 <= i < 14 implies b[i] == hb[i] by {}
    assert(MacAddress::at(b, 0) == header.dest_addr);
    assert(MacAddress::at(b, 6) == header.src_addr);
    assert(u16_at(b, 12) == header.ether_type.number());
    assert(b.subrange(14, b.len() as int) =~= text + padding(text.len()));
}

} // verus!
