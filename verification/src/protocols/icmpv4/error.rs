use vstd::prelude::*;
use crate::fail::Fail;
use crate::protocols::ethernet2::{
    build_frame, frame_bytes, frame_round_trip, padding, parse_frame, EtherType, Ethernet2Header,
    Frame,
};
use crate::protocols::ipv4::packet::{
    build_packet, packet_bytes, packet_round_trip, parse_packet, Ipv4Header, Ipv4Packet,
    PROTOCOL_ICMPV4,
};
use crate::wire::{checksum, checksum_of, push_bytes, push_u16, read_u16, u16_at, u16_bytes};

verus! {

pub const ERROR_HEADER_SIZE: usize = 8;

/// The most of an offending packet that an error datagram carries back.
pub const MAX_CONTEXT_SIZE: usize = 548;

pub const TYPE_DESTINATION_UNREACHABLE: u8 = 3;

pub const TYPE_SOURCE_QUENCH: u8 = 4;

pub const TYPE_TIME_EXCEEDED: u8 = 11;

/// Why a destination could not be reached.
#[derive(Clone, Copy, Debug, PartialEq, Eq, Structural)]
pub enum DestinationUnreachable {
    DestinationNetworkUnreachable,
    DestinationHostUnreachable,
    DestinationProtocolUnreachable,
    DestinationPortUnreachable,
    FragmentationRequired,
    SourceRouteFailed,
}

/// Which limit a packet ran into.
#[derive(Clone, Copy, Debug, PartialEq, Eq, Structural)]
pub enum TimeExceeded {
    TtlExpired,
    FragmentReassemblyTimeExceeded,
}

/// The identity of an error: its class and, within the class, its kind.
#[derive(Clone, Copy, Debug, PartialEq, Eq, Structural)]
pub enum ErrorId {
    DestinationUnreachable(DestinationUnreachable),
    SourceQuench,
    TimeExceeded(TimeExceeded),
}

impl ErrorId {
    /// The type and code that stand for this error on the wire.
    pub open spec fn numbers(self) -> (u8, u8) {
        match self {
            ErrorId::DestinationUnreachable(kind) => (
                TYPE_DESTINATION_UNREACHABLE,
                match kind {
                    DestinationUnreachable::DestinationNetworkUnreachable => 0u8,
                    DestinationUnreachable::DestinationHostUnreachable => 1u8,
                    DestinationUnreachable::DestinationProtocolUnreachable => 2u8,
                    DestinationUnreachable::DestinationPortUnreachable => 3u8,
                    DestinationUnreachable::FragmentationRequired => 4u8,
                    DestinationUnreachable::SourceRouteFailed => 5u8,
                },
            ),
            ErrorId::SourceQuench => (TYPE_SOURCE_QUENCH, 0u8),
            ErrorId::TimeExceeded(kind) => (
                TYPE_TIME_EXCEEDED,
                match kind {
                    TimeExceeded::TtlExpired => 0u8,
                    TimeExceeded::FragmentReassemblyTimeExceeded => 1u8,
                },
            ),
        }
    }

    /// The error that a type and a code stand for, if they stand for one.
    pub open spec fn of_numbers(kind: u8, code: u8) -> Option<ErrorId> {
        if kind == TYPE_DESTINATION_UNREACHABLE {
            if code == 0 {
                Some(ErrorId::DestinationUnreachable(DestinationUnreachable::DestinationNetworkUnreachable))
            } else if code == 1 {
                Some(ErrorId::DestinationUnreachable(DestinationUnreachable::DestinationHostUnreachable))
            } else if code == 2 {
                Some(ErrorId::DestinationUnreachable(DestinationUnreachable::DestinationProtocolUnreachable))
            } else if code == 3 {
                Some(ErrorId::DestinationUnreachable(DestinationUnreachable::DestinationPortUnreachable))
            } else if code == 4 {
                Some(ErrorId::DestinationUnreachable(DestinationUnreachable::FragmentationRequired))
            } else if code == 5 {
                Some(ErrorId::DestinationUnreachable(DestinationUnreachable::SourceRouteFailed))
            } else {
                None
            }
        } else if kind == TYPE_SOURCE_QUENCH {
            if code == 0 {
                Some(ErrorId::SourceQuench)
            } else {
                None
            }
        } else if kind == TYPE_TIME_EXCEEDED {
            if code == 0 {
                Some(ErrorId::TimeExceeded(TimeExceeded::TtlExpired))
            } else if code == 1 {
                Some(ErrorId::TimeExceeded(TimeExceeded::FragmentReassemblyTimeExceeded))
            } else {
                None
            }
        } else {
            None
        }
    }

    pub fn encode(self) -> (n: (u8, u8))
        ensures
            n == self.numbers(),
    {
        match self {
            ErrorId::DestinationUnreachable(kind) => (
                TYPE_DESTINATION_UNREACHABLE,
                match kind {
                    DestinationUnreachable::DestinationNetworkUnreachable => 0u8,
                    DestinationUnreachable::DestinationHostUnreachable => 1u8,
                    DestinationUnreachable::DestinationProtocolUnreachable => 2u8,
                    DestinationUnreachable::DestinationPortUnreachable => 3u8,
                    DestinationUnreachable::FragmentationRequired => 4u8,
                    DestinationUnreachable::SourceRouteFailed => 5u8,
                },
            ),
            ErrorId::SourceQuench => (TYPE_SOURCE_QUENCH, 0u8),
            ErrorId::TimeExceeded(kind) => (
                TYPE_TIME_EXCEEDED,
                match kind {
                    TimeExceeded::TtlExpired => 0u8,
                    TimeExceeded::FragmentReassemblyTimeExceeded => 1u8,
                },
            ),
        }
    }

    pub fn decode(kind: u8, code: u8) -> (id: Option<ErrorId>)
        ensures
            id == ErrorId::of_numbers(kind, code),
    {
        if kind == TYPE_DESTINATION_UNREACHABLE {
            match code {
                0 => Some(ErrorId::DestinationUnreachable(DestinationUnreachable::DestinationNetworkUnreachable)),
                1 => Some(ErrorId::DestinationUnreachable(DestinationUnreachable::DestinationHostUnreachable)),
                2 => Some(ErrorId::DestinationUnreachable(DestinationUnreachable::DestinationProtocolUnreachable)),
                3 => Some(ErrorId::DestinationUnreachable(DestinationUnreachable::DestinationPortUnreachable)),
                4 => Some(ErrorId::DestinationUnreachable(DestinationUnreachable::FragmentationRequired)),
                5 => Some(ErrorId::DestinationUnreachable(DestinationUnreachable::SourceRouteFailed)),
                _ => None,
            }
        } else if kind == TYPE_SOURCE_QUENCH {
            if code == 0 {
                Some(ErrorId::SourceQuench)
            } else {
                None
            }
        } else if kind == TYPE_TIME_EXCEEDED {
            match code {
                0 => Some(ErrorId::TimeExceeded(TimeExceeded::TtlExpired)),
                1 => Some(ErrorId::TimeExceeded(TimeExceeded::FragmentReassemblyTimeExceeded)),
                _ => None,
            }
        } else {
            None
        }
    }
}

/// Every error is told apart by its type and code.
pub proof fn error_id_round_trip(id: ErrorId)
    ensures
        ErrorId::of_numbers(id.numbers().0, id.numbers().1) == Some(id),
{
}

/// The eight bytes ahead of the context, with `check` in the checksum
/// field.
pub open spec fn header_bytes(id: ErrorId, next_hop_mtu: u16, check: u16) -> Seq<u8> {
    seq![id.numbers().0, id.numbers().1] + u16_bytes(check) + seq![0u8, 0u8] + u16_bytes(
        next_hop_mtu,
    )
}

/// The error datagram on the wire.
pub open spec fn error_bytes(id: ErrorId, next_hop_mtu: u16, context: Seq<u8>) -> Seq<u8> {
    header_bytes(id, next_hop_mtu, checksum_of(header_bytes(id, next_hop_mtu, 0) + context))
        + context
}

/// `b` with its checksum field, bytes 2 and 3, set to zero.
pub open spec fn without_checksum(b: Seq<u8>) -> Seq<u8> {
    b.update(2, 0u8).update(3, 0u8)
}

/// What `b` holds, read as an error datagram: the error's identity, the
/// next-hop MTU and the context. A datagram that is too short or fails its
/// checksum is malformed; a type and code that name no error are
/// unsupported.
pub open spec fn parse_error(b: Seq<u8>) -> Result<(ErrorId, u16, Seq<u8>), Fail> {
    if b.len() < ERROR_HEADER_SIZE || checksum_of(without_checksum(b)) != u16_at(b, 2) {
        Err(Fail::Malformed)
    } else {
        match ErrorId::of_numbers(b[0], b[1]) {
            None => Err(Fail::Unsupported),
            Some(id) => Ok((id, u16_at(b, 6), b.subrange(ERROR_HEADER_SIZE as int, b.len() as int))),
        }
    }
}

fn push_header(buf: &mut Vec<u8>, id: ErrorId, next_hop_mtu: u16, check: u16)
    ensures
        final(buf)@ == old(buf)@ + header_bytes(id, next_hop_mtu, check),
{
    let (kind, code) = id.encode();
    buf.push(kind);
    buf.push(code);
    push_u16(buf, check);
    buf.push(0u8);
    buf.push(0u8);
    push_u16(buf, next_hop_mtu);
    assert(buf@ =~= old(buf)@ + header_bytes(id, next_hop_mtu, check));
}

/// An error datagram that was taken apart.
#[derive(Debug)]
pub struct Error {
    pub id: ErrorId,
    pub next_hop_mtu: u16,
    pub context: Vec<u8>,
}

impl Error {
    pub fn new(id: ErrorId, next_hop_mtu: u16, context: Vec<u8>) -> (e: Error)
        ensures
            e.id == id,
            e.next_hop_mtu == next_hop_mtu,
            e.context@ == context@,
    {
        Error { id, next_hop_mtu, context }
    }

    /// Takes the payload of a packet apart.
    pub fn from_text(b: &[u8]) -> (r: Result<Error, Fail>)
        ensures
            match parse_error(b@) {
                Ok((id, next_hop_mtu, context)) => r is Ok && r->Ok_0.id == id
                    && r->Ok_0.next_hop_mtu == next_hop_mtu && r->Ok_0.context@ == context,
                Err(e) => r is Err && r->Err_0 == e,
            },
    {
        if b.len() < ERROR_HEADER_SIZE {
            return Err(Fail::Malformed);
        }
        let mut summed: Vec<u8> = Vec::new();
        push_bytes(&mut summed, b, 0, b.len());
        summed.set(2, 0u8);
        summed.set(3, 0u8);
        assert(summed@ =~= without_checksum(b@));
        if checksum(summed.as_slice()) != read_u16(b, 2) {
            return Err(Fail::Malformed);
        }
        let id = match ErrorId::decode(b[0], b[1]) {
            None => {
                return Err(Fail::Unsupported);
            },
            Some(id) => id,
        };
        let mut context: Vec<u8> = Vec::new();
        push_bytes(&mut context, b, ERROR_HEADER_SIZE, b.len());
        Ok(Error { id, next_hop_mtu: read_u16(b, 6), context })
    }

    /// Takes a whole frame apart, down to the error datagram in it.
    pub fn from_bytes(bytes: &[u8]) -> (r: Result<Error, Fail>)
        ensures
            match parse_error_frame(bytes@) {
                Ok((id, next_hop_mtu, context)) => r is Ok && r->Ok_0.id == id
                    && r->Ok_0.next_hop_mtu == next_hop_mtu && r->Ok_0.context@ == context,
                Err(e) => r is Err && r->Err_0 == e,
            },
    {
        let frame = match Frame::from_bytes(bytes) {
            Err(e) => {
                return Err(e);
            },
            Ok(frame) => frame,
        };
        match frame.header.ether_type {
            EtherType::Ipv4 => {},
            EtherType::Arp => {
                return Err(Fail::Unsupported);
            },
        }
        let packet = match Ipv4Packet::from_bytes(frame.text.as_slice()) {
            Err(e) => {
                return Err(e);
            },
            Ok(packet) => packet,
        };
        if packet.header.protocol != PROTOCOL_ICMPV4 {
            return Err(Fail::Unsupported);
        }
        Error::from_text(packet.text.as_slice())
    }

    /// Puts the error on the wire, as the payload of a packet.
    pub fn to_bytes(&self) -> (bytes: Vec<u8>)
        requires
            self.context@.len() <= MAX_CONTEXT_SIZE,
        ensures
            bytes@ == error_bytes(self.id, self.next_hop_mtu, self.context@),
    {
        build_error(self.id, self.next_hop_mtu, self.context.as_slice())
    }
}

/// The bytes of the error datagram with the given identity, next-hop MTU
/// and context.
pub fn build_error(id: ErrorId, next_hop_mtu: u16, context: &[u8]) -> (bytes: Vec<u8>)
    requires
        context@.len() <= MAX_CONTEXT_SIZE,
    ensures
        bytes@ == error_bytes(id, next_hop_mtu, context@),
{
    let mut blank: Vec<u8> = Vec::new();
    push_header(&mut blank, id, next_hop_mtu, 0);
    push_bytes(&mut blank, context, 0, context.len());
    assert(context@.subrange(0, context@.len() as int) =~= context@);
    assert(blank@ =~= header_bytes(id, next_hop_mtu, 0) + context@);
    let check = checksum(blank.as_slice());
    let mut bytes: Vec<u8> = Vec::new();
    push_header(&mut bytes, id, next_hop_mtu, check);
    push_bytes(&mut bytes, context, 0, context.len());
    assert(bytes@ =~= error_bytes(id, next_hop_mtu, context@));
    bytes
}

/// What a whole frame holds, read down to the error datagram in it.
pub open spec fn parse_error_frame(b: Seq<u8>) -> Result<(ErrorId, u16, Seq<u8>), Fail> {
    match parse_frame(b) {
        Err(e) => Err(e),
        Ok((frame_header, frame_text)) => if frame_header.ether_type != EtherType::Ipv4 {
            Err(Fail::Unsupported)
        } else {
            match parse_packet(frame_text) {
                Err(e) => Err(e),
                Ok((header, text)) => if header.protocol != PROTOCOL_ICMPV4 {
                    Err(Fail::Unsupported)
                } else {
                    parse_error(text)
                },
            }
        },
    }
}

/// The frame that carries an error datagram under the two headers.
pub open spec fn error_frame_bytes(
    ethernet: Ethernet2Header,
    ipv4: Ipv4Header,
    id: ErrorId,
    next_hop_mtu: u16,
    context: Seq<u8>,
) -> Seq<u8> {
    frame_bytes(ethernet, packet_bytes(ipv4, error_bytes(id, next_hop_mtu, context)))
}

/// The bytes of the frame that carries an error datagram under the two
/// headers.
pub fn build_error_frame(
    ethernet: Ethernet2Header,
    ipv4: &Ipv4Header,
    id: ErrorId,
    next_hop_mtu: u16,
    context: &[u8],
) -> (bytes: Vec<u8>)
    requires
        context@.len() <= MAX_CONTEXT_SIZE,
    ensures
        bytes@ == error_frame_bytes(ethernet, *ipv4, id, next_hop_mtu, context@),
{
    let error = build_error(id, next_hop_mtu, context);
    proof {
        error_round_trip(id, next_hop_mtu, context@);
    }
    let packet = build_packet(ipv4, error.as_slice());
    build_frame(ethernet, packet.as_slice())
}

/// An error datagram that was built is read back as it was built.
pub proof fn error_round_trip(id: ErrorId, next_hop_mtu: u16, context: Seq<u8>)
    ensures
        parse_error(error_bytes(id, next_hop_mtu, context)) == Ok::<(ErrorId, u16, Seq<u8>), Fail>(
            (id, next_hop_mtu, context),
        ),
        error_bytes(id, next_hop_mtu, context).len() == ERROR_HEADER_SIZE + context.len(),
{
    let blank = header_bytes(id, next_hop_mtu, 0) + context;
    let check = checksum_of(blank);
    let hb = header_bytes(id, next_hop_mtu, check);
    let b = error_bytes(id, next_hop_mtu, context);
    assert(hb.len() == 8);
    assert forall|i: int| 0 <= i < 8 implies b[i] == hb[i] by {}
    assert(hb[2] == u16_bytes(check)[0] && hb[3] == u16_bytes(check)[1]);
    assert(u16_at(b, 2) == check);
    assert(hb[6] == u16_bytes(next_hop_mtu)[0] && hb[7] == u16_bytes(next_hop_mtu)[1]);
    assert(u16_at(b, 6) == next_hop_mtu);
    assert(without_checksum(b) =~= blank);
    error_id_round_trip(id);
    assert(b.subrange(8, b.len() as int) =~= context);
}

/// A frame that was built around an error datagram is read back, layer by
/// layer, as it was built.
pub proof fn error_frame_round_trip(
    ethernet: Ethernet2Header,
    ipv4: Ipv4Header,
    id: ErrorId,
    next_hop_mtu: u16,
    context: Seq<u8>,
)
    requires
        context.len() <= MAX_CONTEXT_SIZE,
    ensures
        ({
            let error = error_bytes(id, next_hop_mtu, context);
            let parsed = parse_frame(error_frame_bytes(ethernet, ipv4, id, next_hop_mtu, context));
            &&& parsed is Ok
            &&& parsed->Ok_0.0 == ethernet
            &&& parse_packet(parsed->Ok_0.1) == Ok::<(Ipv4Header, Seq<u8>), Fail>((ipv4, error))
            &&& parse_error(error) == Ok::<(ErrorId, u16, Seq<u8>), Fail>(
                (id, next_hop_mtu, context),
            )
        }),
{
    let error = error_bytes(id, next_hop_mtu, context);
    error_round_trip(id, next_hop_mtu, context);
    let packet = packet_bytes(ipv4, error);
    packet_round_trip(ipv4, error, padding(packet.len()));
    frame_round_trip(ethernet, packet);
}

} // verus!
