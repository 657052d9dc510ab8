use vstd::prelude::*;
use crate::fail::Fail;
use crate::protocols::arp::peer::{ArpPeer, ArpPeerView};
use crate::protocols::ethernet2::{parse_frame, EtherType, Ethernet2Header, Frame};
use crate::protocols::icmpv4::error::{
    error_frame_round_trip, parse_error_frame, DestinationUnreachable, ErrorId, MAX_CONTEXT_SIZE,
};
use crate::protocols::icmpv4::peer::{receive_error, Icmpv4Peer};
use crate::protocols::ipv4::packet::{
    outbound_header, packet_span, parse_packet, Ipv4Packet, Ipv4Protocol,
};
use crate::protocols::udp::datagram::parse_datagram;
use crate::protocols::tcp::peer::{TcpPeer, TcpPeerView};
use crate::protocols::udp::peer::{
    unreachable_context, unreachable_context_fits, unreachable_frame, UdpPeer, UdpPeerView,
};
use crate::runtime::{Runtime, RuntimeView};

verus! {

/// A network-layer peer as contracts speak of it.
pub struct Ipv4PeerView {
    pub udp: UdpPeerView,
    pub tcp: TcpPeerView,
}

impl Ipv4PeerView {
    pub open spec fn wf(self) -> bool {
        self.udp.wf() && self.tcp.wf()
    }

    /// A peer whose transport peers have just been built.
    pub open spec fn fresh() -> Ipv4PeerView {
        Ipv4PeerView { udp: UdpPeer::new_view(), tcp: TcpPeerView::fresh() }
    }

    /// The sends that wait look at the resolver again.
    pub open spec fn resume(
        self,
        rt: RuntimeView,
        arp: ArpPeerView,
    ) -> (Ipv4PeerView, RuntimeView) {
        let (udp, rt1) = self.udp.resume(rt, arp);
        (Ipv4PeerView { udp, ..self }, rt1)
    }

    /// The passing of time: the sends that wait look at the resolver, and
    /// the connections at their timers.
    pub open spec fn advance(
        self,
        rt: RuntimeView,
        arp: ArpPeerView,
    ) -> (Ipv4PeerView, RuntimeView) {
        let (udp, rt1) = self.udp.resume(rt, arp);
        let (tcp, rt2) = self.tcp.advance(rt1, arp);
        (Ipv4PeerView { udp, tcp }, rt2)
    }

    /// The arrival of a frame whose payload is `text`. A payload that is
    /// no packet is malformed. A packet for another station is
    /// misdelivered. A packet of a protocol that this stack does not
    /// speak is unsupported. In all three cases nothing changes and
    /// nothing is shown. Any other packet goes to the peer of its
    /// protocol. `iss` is the first sequence number of the
    /// connection that the packet may start.
    pub open spec fn receive(
        self,
        rt: RuntimeView,
        frame_header: Ethernet2Header,
        text: Seq<u8>,
        iss: u32,
    ) -> (Ipv4PeerView, RuntimeView, Result<(), Fail>) {
        match parse_packet(text) {
            Err(e) => (self, rt, Err(e)),
            Ok((header, payload)) => if header.dest_addr != rt.options.my_ipv4_addr
                && !header.dest_addr.is_broadcast() {
                (self, rt, Err(Fail::Misdelivered))
            } else {
                match Ipv4Protocol::of_number(header.protocol) {
                    Some(Ipv4Protocol::Udp) => {
                        let (udp, rt1, r) = self.udp.receive(
                            rt,
                            frame_header.src_addr,
                            header,
                            payload,
                            packet_span(text),
                        );
                        (Ipv4PeerView { udp, ..self }, rt1, r)
                    },
                    Some(Ipv4Protocol::Tcp) => {
                        let (tcp, rt1, r) = self.tcp.receive(
                            rt,
                            frame_header.src_addr,
                            header,
                            payload,
                            iss,
                        );
                        (Ipv4PeerView { tcp, ..self }, rt1, r)
                    },
                    Some(Ipv4Protocol::Icmpv4) => {
                        let (rt1, r) = receive_error(rt, payload);
                        (self, rt1, r)
                    },
                    None => (self, rt, Err(Fail::Unsupported)),
                }
            },
        }
    }
}

/// The peer that checks inbound packets and routes them to the transport
/// peers, which it owns.
pub struct Ipv4Peer {
    pub udp: UdpPeer,
    pub tcp: TcpPeer,
    pub icmpv4: Icmpv4Peer,
}

impl View for Ipv4Peer {
    type V = Ipv4PeerView;

    open spec fn view(&self) -> Ipv4PeerView {
        Ipv4PeerView { udp: self.udp@, tcp: self.tcp@ }
    }
}

impl Ipv4Peer {
    pub fn new() -> (peer: Ipv4Peer)
        ensures
            peer@ == Ipv4PeerView::fresh(),
            peer@.wf(),
    {
        Ipv4Peer { udp: UdpPeer::new(), tcp: TcpPeer::new(), icmpv4: Icmpv4Peer::new() }
    }

    /// Takes in a frame that the link layer found to carry a packet. `iss`
    /// is the first sequence number of the connection that the packet may
    /// start.
    pub fn receive(&mut self, rt: &mut Runtime, frame: Frame, iss: u32) -> (r: Result<(), Fail>)
        requires
            old(self)@.wf(),
        ensures
            (final(self)@, final(rt)@, r) == old(self)@.receive(
                old(rt)@,
                frame.header,
                frame.text@,
                iss,
            ),
            final(self)@.wf(),
    {
        let options = rt.options();
        let packet = match Ipv4Packet::from_bytes(frame.text.as_slice()) {
            Err(e) => {
                return Err(e);
            },
            Ok(packet) => packet,
        };
        let dest_addr = packet.header.dest_addr;
        if dest_addr != options.my_ipv4_addr && !dest_addr.is_broadcast() {
            return Err(Fail::Misdelivered);
        }
        match Ipv4Protocol::from_u8(packet.header.protocol) {
            Some(Ipv4Protocol::Udp) => self.udp.receive(rt, frame.header.src_addr, &packet),
            Some(Ipv4Protocol::Tcp) => self.tcp.receive(rt, frame.header.src_addr, &packet, iss),
            Some(Ipv4Protocol::Icmpv4) => self.icmpv4.receive(rt, &packet),
            None => Err(Fail::Unsupported),
        }
    }

    /// Looks at the resolver again on behalf of the sends that wait.
    pub fn resume(&mut self, rt: &mut Runtime, arp: &ArpPeer)
        requires
            old(self)@.wf(),
        ensures
            (final(self)@, final(rt)@) == old(self)@.resume(old(rt)@, arp@),
            final(self)@.wf(),
    {
        self.udp.resume(rt, arp);
    }

    /// Looks at the clock on behalf of the transport peers.
    pub fn advance(&mut self, rt: &mut Runtime, arp: &ArpPeer)
        requires
            old(self)@.wf(),
        ensures
            (final(self)@, final(rt)@) == old(self)@.advance(old(rt)@, arp@),
            final(self)@.wf(),
    {
        self.udp.resume(rt, arp);
        self.tcp.advance(rt, arp);
    }
}

/// A packet for another station is dropped: whatever it carries, the peer
/// answers that it was misdelivered, keeps its state and shows nothing.
pub proof fn misdelivered_packet_changes_nothing(
    peer: Ipv4PeerView,
    rt: RuntimeView,
    frame_header: Ethernet2Header,
    text: Seq<u8>,
    iss: u32,
)
    requires
        parse_packet(text) is Ok,
        parse_packet(text)->Ok_0.0.dest_addr != rt.options.my_ipv4_addr,
        !parse_packet(text)->Ok_0.0.dest_addr.is_broadcast(),
    ensures
        peer.receive(rt, frame_header, text, iss) == (
            peer,
            rt,
            Err::<(), Fail>(Fail::Misdelivered),
        ),
{
}

/// A datagram for a port that is not bound is answered, not refused.
/// Whatever the packet's header holds, options included, the peer answers
/// `Ok`, keeps its state, so that the port stays unbound and nothing is
/// queued, and shows exactly one effect: the transmission of a frame to
/// the station that the offending frame came from. Read back, that frame
/// holds a port-unreachable error with a next-hop MTU of zero whose
/// context is the packet as it was received, from its first byte on, as
/// far as a report has room.
pub proof fn datagram_for_unbound_port_is_answered(
    peer: Ipv4PeerView,
    rt: RuntimeView,
    frame_header: Ethernet2Header,
    text: Seq<u8>,
    iss: u32,
)
    requires
        parse_packet(text) is Ok,
        parse_packet(text)->Ok_0.0.dest_addr == rt.options.my_ipv4_addr || parse_packet(
            text,
        )->Ok_0.0.dest_addr.is_broadcast(),
        Ipv4Protocol::of_number(parse_packet(text)->Ok_0.0.protocol) == Some(Ipv4Protocol::Udp),
        parse_datagram(
            parse_packet(text)->Ok_0.0.src_addr,
            parse_packet(text)->Ok_0.0.dest_addr,
            parse_packet(text)->Ok_0.1,
        ) is Ok,
        !peer.udp.ports.dom().contains(
            parse_datagram(
                parse_packet(text)->Ok_0.0.src_addr,
                parse_packet(text)->Ok_0.0.dest_addr,
                parse_packet(text)->Ok_0.1,
            )->Ok_0.0.dest_port,
        ),
    ensures
        ({
            let header = parse_packet(text)->Ok_0.0;
            let report = unreachable_frame(
                rt.options,
                frame_header.src_addr,
                header.src_addr,
                packet_span(text),
            );
            let context = unreachable_context(packet_span(text));
            &&& peer.receive(rt, frame_header, text, iss) == (
                peer,
                rt.transmit(report),
                Ok::<(), Fail>(()),
            )
            &&& parse_frame(report) is Ok
            &&& parse_frame(report)->Ok_0.0.dest_addr == frame_header.src_addr
            &&& parse_error_frame(report) == Ok::<(ErrorId, u16, Seq<u8>), Fail>(
                (
                    ErrorId::DestinationUnreachable(
                        DestinationUnreachable::DestinationPortUnreachable,
                    ),
                    0,
                    context,
                ),
            )
            &&& context.len() <= text.len()
            &&& context.len() == packet_span(text).len() || context.len() == MAX_CONTEXT_SIZE
            &&& forall|i: int| 0 <= i < context.len() ==> context[i] == text[i]
        }),
{
    let header = parse_packet(text)->Ok_0.0;
    let context = unreachable_context(packet_span(text));
    unreachable_context_fits(packet_span(text));
    error_frame_round_trip(
        Ethernet2Header {
            dest_addr: frame_header.src_addr,
            src_addr: rt.options.my_link_addr,
            ether_type: EtherType::Ipv4,
        },
        outbound_header(1, rt.options.my_ipv4_addr, header.src_addr),
        ErrorId::DestinationUnreachable(DestinationUnreachable::DestinationPortUnreachable),
        0,
        context,
    );
}

/// A packet for this station, or for every station, whose protocol number
/// is none that the stack speaks is dropped: the peer answers that it is
/// unsupported, keeps its state and shows nothing.
pub proof fn unknown_protocol_changes_nothing(
    peer: Ipv4PeerView,
    rt: RuntimeView,
    frame_header: Ethernet2Header,
    text: Seq<u8>,
    iss: u32,
)
    requires
        parse_packet(text) is Ok,
        parse_packet(text)->Ok_0.0.dest_addr == rt.options.my_ipv4_addr || parse_packet(
            text,
        )->Ok_0.0.dest_addr.is_broadcast(),
        Ipv4Protocol::of_number(parse_packet(text)->Ok_0.0.protocol) is None,
    ensures
        peer.receive(rt, frame_header, text, iss) == (
            peer,
            rt,
            Err::<(), Fail>(Fail::Unsupported),
        ),
{
}

} // verus!
