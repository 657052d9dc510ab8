use vstd::prelude::*;
use crate::fail::Fail;
use crate::protocols::ethernet2::{
    build_frame, frame_bytes, frame_round_trip, Ethernet2Header, MacAddress, ETHERNET2_HEADER_SIZE,
    MIN_PAYLOAD_SIZE,
};
use crate::runtime::{copy_into, PacketBuf};
use crate::protocols::ipv4::address::Ipv4Addr;
use crate::wire::{push_u16, read_u16, u16_at, u16_bytes};

verus! {

pub const ARP_PDU_SIZE: usize = 28;

pub const HARDWARE_ETHERNET: u16 = 1;

pub const PROTOCOL_IPV4: u16 = 0x0800;

pub const OPERATION_REQUEST: u16 = 1;

pub const OPERATION_REPLY: u16 = 2;

#[derive(Clone, Copy, Debug, PartialEq, Eq, Structural)]
pub enum ArpOperation {
    Request,
    Reply,
}

impl ArpOperation {
    pub open spec fn number(self) -> u16 {
        match self {
            ArpOperation::Request => OPERATION_REQUEST,
            ArpOperation::Reply => OPERATION_REPLY,
        }
    }

    pub open spec fn of_number(n: u16) -> Option<ArpOperation> {
        if n == OPERATION_REQUEST {
            Some(ArpOperation::Request)
        } else if n == OPERATION_REPLY {
            Some(ArpOperation::Reply)
        } else {
            None
        }
    }

    pub fn to_u16(self) -> (n: u16)
        ensures
            n == self.number(),
    {
        match self {
            ArpOperation::Request => OPERATION_REQUEST,
            ArpOperation::Reply => OPERATION_REPLY,
        }
    }

    pub fn from_u16(n: u16) -> (op: Option<ArpOperation>)
        ensures
            op == ArpOperation::of_number(n),
    {
        if n == OPERATION_REQUEST {
            Some(ArpOperation::Request)
        } else if n == OPERATION_REPLY {
            Some(ArpOperation::Reply)
        } else {
            None
        }
    }
}

/// One address-resolution message, for IPv4 over Ethernet.
#[derive(Clone, Copy, Debug, PartialEq, Eq, Structural)]
pub struct ArpPdu {
    pub operation: ArpOperation,
    pub sender_link_addr: MacAddress,
    pub sender_ipv4_addr: Ipv4Addr,
    pub target_link_addr: MacAddress,
    pub target_ipv4_addr: Ipv4Addr,
}

impl ArpPdu {
    /// The twenty-eight bytes of the message.
    pub open spec fn bytes(self) -> Seq<u8> {
        u16_bytes(HARDWARE_ETHERNET) + u16_bytes(PROTOCOL_IPV4) + seq![6u8, 4u8] + u16_bytes(
            self.operation.number(),
        ) + self.sender_link_addr.bytes() + self.sender_ipv4_addr.bytes()
            + self.target_link_addr.bytes() + self.target_ipv4_addr.bytes()
    }

    /// Takes `b` apart; bytes beyond the message, such as a frame's
    /// padding, are left out.
    pub fn from_bytes(b: &[u8]) -> (r: Result<ArpPdu, Fail>)
        ensures
            r == parse_pdu(b@),
    {
        if b.len() < ARP_PDU_SIZE {
            return Err(Fail::Malformed);
        }
        if read_u16(b, 0) != HARDWARE_ETHERNET || read_u16(b, 2) != PROTOCOL_IPV4 || b[4] != 6
            || b[5] != 4 {
            return Err(Fail::Unsupported);
        }
        let operation = match ArpOperation::from_u16(read_u16(b, 6)) {
            None => {
                return Err(Fail::Unsupported);
            },
            Some(operation) => operation,
        };
        Ok(
            ArpPdu {
                operation,
                sender_link_addr: MacAddress::read(b, 8),
                sender_ipv4_addr: Ipv4Addr::read(b, 14),
                target_link_addr: MacAddress::read(b, 18),
                target_ipv4_addr: Ipv4Addr::read(b, 24),
            },
        )
    }

    /// Puts the message on the wire.
    pub fn to_bytes(&self) -> (bytes: Vec<u8>)
        ensures
            bytes@ == self.bytes(),
    {
        let mut bytes: Vec<u8> = Vec::new();
        push_u16(&mut bytes, HARDWARE_ETHERNET);
        push_u16(&mut bytes, PROTOCOL_IPV4);
        bytes.push(6u8);
        bytes.push(4u8);
        push_u16(&mut bytes, self.operation.to_u16());
        self.sender_link_addr.push_to(&mut bytes);
        self.sender_ipv4_addr.push_to(&mut bytes);
        self.target_link_addr.push_to(&mut bytes);
        self.target_ipv4_addr.push_to(&mut bytes);
        assert(bytes@ =~= self.bytes());
        bytes
    }
}

/// What `b` holds, read as an address-resolution message. Too few bytes
/// are malformed; another hardware or protocol kind, other address sizes
/// or an unknown operation are unsupported.
pub open spec fn parse_pdu(b: Seq<u8>) -> Result<ArpPdu, Fail> {
    if b.len() < ARP_PDU_SIZE {
        Err(Fail::Malformed)
    } else if u16_at(b, 0) != HARDWARE_ETHERNET || u16_at(b, 2) != PROTOCOL_IPV4 || b[4] != 6
        || b[5] != 4 {
        Err(Fail::Unsupported)
    } else {
        match ArpOperation::of_number(u16_at(b, 6)) {
            None => Err(Fail::Unsupported),
            Some(operation) => Ok(
                ArpPdu {
                    operation,
                    sender_link_addr: MacAddress::at(b, 8),
                    sender_ipv4_addr: Ipv4Addr::at(b, 14),
                    target_link_addr: MacAddress::at(b, 18),
                    target_ipv4_addr: Ipv4Addr::at(b, 24),
                },
            ),
        }
    }
}

/// An address-resolution message in its frame.
#[derive(Clone, Copy, Debug, PartialEq, Eq, Structural)]
pub struct ArpMessage {
    pub ethernet: Ethernet2Header,
    pub pdu: ArpPdu,
}

impl PacketBuf for ArpMessage {
    open spec fn valid(&self) -> bool {
        true
    }

    open spec fn bytes(&self) -> Seq<u8> {
        frame_bytes(self.ethernet, self.pdu.bytes())
    }

    fn is_valid(&self) -> (valid: bool) {
        true
    }

    fn compute_size(&self) -> (size: usize) {
        proof {
            frame_round_trip(self.ethernet, self.pdu.bytes());
            pdu_round_trip(self.pdu, Seq::<u8>::empty());
        }
        ETHERNET2_HEADER_SIZE + MIN_PAYLOAD_SIZE
    }

    fn serialize(&self, buf: &mut [u8]) {
        let text = self.pdu.to_bytes();
        let bytes = build_frame(self.ethernet, text.as_slice());
        copy_into(buf, bytes.as_slice());
    }
}

/// A message that was built is read back as it was built, whatever follows
/// it in the buffer.
pub proof fn pdu_round_trip(pdu: ArpPdu, trailer: Seq<u8>)
    ensures
        parse_pdu(pdu.bytes() + trailer) == Ok::<ArpPdu, Fail>(pdu),
        pdu.bytes().len() == ARP_PDU_SIZE,
{
    let pb = pdu.bytes();
    let b = pb + trailer;
    assert(pb.len() == 28);
    assert forall|i: int| 0 <= i < 28 implies b[i] == pb[i] by {}
    assert(pb[0] == 0 && pb[1] == 1 && pb[2] == 8 && pb[3] == 0 && pb[4] == 6 && pb[5] == 4);
    assert(pb[6] == u16_bytes(pdu.operation.number())[0] && pb[7] == u16_bytes(
        pdu.operation.number(),
    )[1]);
    assert(u16_at(b, 6) == pdu.operation.number());
    assert(forall|i: int| 0 <= i < 6 ==> pb[8 + i] == pdu.sender_link_addr.bytes()[i]);
    assert(forall|i: int| 0 <= i < 4 ==> pb[14 + i] == pdu.sender_ipv4_addr.bytes()[i]);
    assert(forall|i: int| 0 <= i < 6 ==> pb[18 + i] == pdu.target_link_addr.bytes()[i]);
    assert(forall|i: int| 0 <= i < 4 ==> pb[24 + i] == pdu.target_ipv4_addr.bytes()[i]);
    assert(MacAddress::at(b, 8) == pdu.sender_link_addr);
    assert(Ipv4Addr::at(b, 14) == pdu.sender_ipv4_addr);
    assert(MacAddress::at(b, 18) == pdu.target_link_addr);
    assert(Ipv4Addr::at(b, 24) == pdu.target_ipv4_addr);
}

} // verus!
