use vstd::prelude::*;
use std::collections::HashMap;
use crate::effect::{Effect, EffectView};
use crate::fail::Fail;
use crate::options::Options;
use crate::protocols::arp::peer::{ArpPeer, ArpPeerView, ArpQuery};
use crate::protocols::ethernet2::{EtherType, Ethernet2Header, MacAddress};
use crate::protocols::icmpv4::error::{
    build_error_frame, error_frame_bytes, DestinationUnreachable, ErrorId, MAX_CONTEXT_SIZE,
};
use crate::protocols::ipv4::address::Ipv4Addr;
use crate::protocols::ipv4::packet::{
    outbound_header, Ipv4Header, Ipv4Packet, Ipv4Protocol, DEFAULT_TTL, PROTOCOL_UDP,
};
use crate::protocols::udp::datagram::{
    parse_datagram, udp_frame_bytes, UdpDatagram, UdpHeader, UdpPacket, MAX_UDP_TEXT_SIZE,
};
use crate::runtime::{Runtime, RuntimeView};
use crate::wire::{push_bytes, push_zeros};

verus! {

/// What a minimum-size frame leaves for a datagram's payload. A shorter
/// payload is handed to the application with zeros behind it, up to this
/// size.
pub const MIN_SEGMENT_SIZE: usize = 18;

/// `text` as an application sees it: followed by zeros where it is shorter
/// than a segment.
pub open spec fn pad_segment(text: Seq<u8>) -> Seq<u8> {
    text + Seq::new(
        if text.len() < MIN_SEGMENT_SIZE {
            (MIN_SEGMENT_SIZE - text.len()) as nat
        } else {
            0
        },
        |i: int| 0u8,
    )
}

/// The first `limit` bytes of `b`, or all of it where it has fewer.
pub open spec fn prefix(b: Seq<u8>, limit: nat) -> Seq<u8> {
    if b.len() <= limit {
        b
    } else {
        b.subrange(0, limit as int)
    }
}

/// The frame in which a station with `options` sends `text` from its port
/// `src_port` to port `dest_port` of `dest_addr`, which is at `link_addr`.
pub open spec fn cast_frame(
    options: Options,
    link_addr: MacAddress,
    dest_addr: Ipv4Addr,
    dest_port: u16,
    src_port: u16,
    text: Seq<u8>,
) -> Seq<u8> {
    udp_frame_bytes(
        Ethernet2Header {
            dest_addr: link_addr,
            src_addr: options.my_link_addr,
            ether_type: EtherType::Ipv4,
        },
        outbound_header(PROTOCOL_UDP, options.my_ipv4_addr, dest_addr),
        UdpHeader { src_port, dest_port },
        text,
    )
}

/// What an error report carries back of an offending packet: the packet
/// as it was received, from its start, as far as a report has room.
pub open spec fn unreachable_context(offending: Seq<u8>) -> Seq<u8> {
    prefix(offending, MAX_CONTEXT_SIZE as nat)
}

pub proof fn unreachable_context_fits(offending: Seq<u8>)
    ensures
        unreachable_context(offending).len() <= MAX_CONTEXT_SIZE,
        unreachable_context(offending).len() <= offending.len(),
        forall|i: int|
            0 <= i < unreachable_context(offending).len() ==> unreachable_context(offending)[i]
                == offending[i],
{
}

/// A segment shows the payload first and zeros after it.
pub proof fn padded_segment_starts_with_text(text: Seq<u8>)
    ensures
        pad_segment(text).len() >= text.len(),
        pad_segment(text).len() >= MIN_SEGMENT_SIZE,
        forall|i: int| 0 <= i < text.len() ==> pad_segment(text)[i] == text[i],
        forall|i: int| text.len() <= i < pad_segment(text).len() ==> pad_segment(text)[i] == 0,
{
}

/// The frame in which a station with `options` tells the sender of a
/// packet, who is at `src_addr` and `link_addr`, that the packet's
/// destination port is not bound. It carries the start of the packet back,
/// as the packet was received.
pub open spec fn unreachable_frame(
    options: Options,
    link_addr: MacAddress,
    src_addr: Ipv4Addr,
    offending: Seq<u8>,
) -> Seq<u8> {
    error_frame_bytes(
        Ethernet2Header {
            dest_addr: link_addr,
            src_addr: options.my_link_addr,
            ether_type: EtherType::Ipv4,
        },
        outbound_header(1, options.my_ipv4_addr, src_addr),
        ErrorId::DestinationUnreachable(DestinationUnreachable::DestinationPortUnreachable),
        0,
        unreachable_context(offending),
    )
}

/// A send that waits for its destination's link address.
pub struct WaitingCast {
    pub handle: u64,
    pub dest_addr: Ipv4Addr,
    pub dest_port: u16,
    pub src_port: u16,
    pub text: Vec<u8>,
}

/// A waiting send as contracts speak of it.
pub struct WaitingCastView {
    pub handle: u64,
    pub dest_addr: Ipv4Addr,
    pub dest_port: u16,
    pub src_port: u16,
    pub text: Seq<u8>,
}

impl View for WaitingCast {
    type V = WaitingCastView;

    open spec fn view(&self) -> WaitingCastView {
        WaitingCastView {
            handle: self.handle,
            dest_addr: self.dest_addr,
            dest_port: self.dest_port,
            src_port: self.src_port,
            text: self.text@,
        }
    }
}

/// The link address that a send to `dest_addr` goes to, as far as it is
/// known at once: every station's for the broadcast address, the cache's
/// fresh answer otherwise.
pub open spec fn link_addr_of(
    arp: ArpPeerView,
    rt: RuntimeView,
    dest_addr: Ipv4Addr,
) -> Option< MacAddress, > {
    if dest_addr.is_broadcast() {
        Some(MacAddress { o0: 0xff, o1: 0xff, o2: 0xff, o3: 0xff, o4: 0xff, o5: 0xff })
    } else {
        arp.lookup(dest_addr, rt.now)
    }
}

/// What becomes of the waiting sends when the resolver is looked at again.
/// A send whose destination is resolved is transmitted and finishes well.
/// One whose resolution is still in flight goes on waiting. One whose
/// resolution is neither answered nor in flight has lost it to a timeout,
/// and finishes with that failure. The sends are gone through in the order
/// in which they were made.
pub open spec fn resume_casts(
    waiting: Seq<WaitingCastView>,
    finished: Seq<(u64, Result<(), Fail>)>,
    rt: RuntimeView,
    arp: ArpPeerView,
) -> (Seq<WaitingCastView>, Seq<(u64, Result<(), Fail>)>, RuntimeView)
    decreases waiting.len(),
{
    if waiting.len() == 0 {
        (waiting, finished, rt)
    } else {
        let (w, f, rt1) = resume_casts(waiting.drop_last(), finished, rt, arp);
        let c = waiting.last();
        match arp.lookup(c.dest_addr, rt.now) {
            Some(link_addr) => (
                w,
                f.push((c.handle, Ok(()))),
                rt1.transmit(
                    cast_frame(rt.options, link_addr, c.dest_addr, c.dest_port, c.src_port, c.text),
                ),
            ),
            None => if arp.is_pending(c.dest_addr) {
                (w.push(c), f, rt1)
            } else {
                (w, f.push((c.handle, Err(Fail::ResolutionTimeout))), rt1)
            },
        }
    }
}

/// The first of the finished sends from index `from` on that has the given
/// handle.
pub open spec fn find_finished(
    finished: Seq<(u64, Result<(), Fail>)>,
    handle: u64,
    from: int,
) -> Option<int>
    decreases finished.len() - from,
{
    if from < 0 || from >= finished.len() {
        None
    } else if finished[from].0 == handle {
        Some(from)
    } else {
        find_finished(finished, handle, from + 1)
    }
}

/// A datagram peer as contracts speak of it.
pub struct UdpPeerView {
    /// The bound ports, each with its undelivered payloads, oldest first.
    pub ports: Map<u16, Seq<Seq<u8>>>,
    /// The sends that wait for address resolution, oldest first.
    pub waiting: Seq<WaitingCastView>,
    /// The sends that have finished and whose outcome nobody has asked for
    /// yet, in the order in which they finished.
    pub finished: Seq<(u64, Result<(), Fail>)>,
    /// The handle that the next send gets.
    pub next_handle: u64,
}

impl UdpPeerView {
    /// Every waiting send fits one datagram.
    pub open spec fn wf(self) -> bool {
        forall|i: int|
            0 <= i < self.waiting.len() ==> (#[trigger] self.waiting[i]).text.len()
                <= MAX_UDP_TEXT_SIZE
    }

    /// The peer after `port` has been bound: a port that is bound already
    /// keeps its queue.
    pub open spec fn open_port(self, port: u16) -> UdpPeerView {
        if self.ports.dom().contains(port) {
            self
        } else {
            UdpPeerView { ports: self.ports.insert(port, Seq::<Seq<u8>>::empty()), ..self }
        }
    }

    /// The peer after `port` has been unbound, which drops its queue.
    pub open spec fn close_port(self, port: u16) -> UdpPeerView {
        UdpPeerView { ports: self.ports.remove(port), ..self }
    }

    /// The arrival of a packet with the given header and payload in a frame
    /// that came from `link_src`; `offending` is the packet as it was
    /// received. A payload that is no datagram is refused. A datagram for
    /// a bound port is queued there and shown to the application. A
    /// datagram for any other port is answered with a port-unreachable
    /// error that carries the start of the received packet back, and the
    /// caller hears of no failure.
    pub open spec fn receive(
        self,
        rt: RuntimeView,
        link_src: MacAddress,
        header: Ipv4Header,
        text: Seq<u8>,
        offending: Seq<u8>,
    ) -> (UdpPeerView, RuntimeView, Result<(), Fail>) {
        match parse_datagram(header.src_addr, header.dest_addr, text) {
            Err(e) => (self, rt, Err(e)),
            Ok((udp, payload)) => if self.ports.dom().contains(udp.dest_port) {
                (
                    UdpPeerView {
                        ports: self.ports.insert(
                            udp.dest_port,
                            self.ports[udp.dest_port].push(payload),
                        ),
                        ..self
                    },
                    rt.emit(
                        EffectView::BytesReceived {
                            protocol: Ipv4Protocol::Udp,
                            src_addr: header.src_addr,
                            src_port: udp.src_port,
                            dest_port: udp.dest_port,
                            text: seq![pad_segment(payload)],
                        },
                    ),
                    Ok(()),
                )
            } else {
                (
                    self,
                    rt.transmit(
                        unreachable_frame(rt.options, link_src, header.src_addr, offending),
                    ),
                    Ok(()),
                )
            },
        }
    }

    /// A send of `text` from `src_port` to `dest_port` of `dest_addr`. A
    /// payload that no datagram can carry is refused, and so is a send
    /// when the handles have run out. Otherwise the send gets the next
    /// handle. Where the destination's link address is known the datagram
    /// is transmitted at once and the send has finished; where it is not,
    /// the send waits for the resolution that the lookup joined or
    /// started.
    pub open spec fn cast(
        self,
        rt: RuntimeView,
        arp: ArpPeerView,
        dest_addr: Ipv4Addr,
        dest_port: u16,
        src_port: u16,
        text: Seq<u8>,
    ) -> (UdpPeerView, RuntimeView, ArpPeerView, Result<u64, Fail>) {
        if text.len() > MAX_UDP_TEXT_SIZE {
            (self, rt, arp, Err(Fail::TooLarge))
        } else if self.next_handle == u64::MAX {
            (self, rt, arp, Err(Fail::ResourceExhausted))
        } else {
            let handle = self.next_handle;
            let next_handle = (self.next_handle + 1) as u64;
            let (arp1, rt1, answer) = if dest_addr.is_broadcast() {
                (
                    arp,
                    rt,
                    ArpQuery::Resolved(
                        MacAddress { o0: 0xff, o1: 0xff, o2: 0xff, o3: 0xff, o4: 0xff, o5: 0xff },
                    ),
                )
            } else {
                arp.query(rt, dest_addr)
            };
            match answer {
                ArpQuery::Resolved(link_addr) => (
                    UdpPeerView {
                        finished: self.finished.push((handle, Ok(()))),
                        next_handle,
                        ..self
                    },
                    rt1.transmit(
                        cast_frame(rt.options, link_addr, dest_addr, dest_port, src_port, text),
                    ),
                    arp1,
                    Ok(handle),
                ),
                ArpQuery::Pending => (
                    UdpPeerView {
                        waiting: self.waiting.push(
                            WaitingCastView { handle, dest_addr, dest_port, src_port, text },
                        ),
                        next_handle,
                        ..self
                    },
                    rt1,
                    arp1,
                    Ok(handle),
                ),
            }
        }
    }

    /// The application asks for the outcome of the send with the given
    /// handle. A send that has finished tells its outcome once; one that
    /// still waits, or was never made, tells nothing.
    pub open spec fn poll_cast(self, handle: u64) -> (UdpPeerView, Option<Result<(), Fail>>) {
        match find_finished(self.finished, handle, 0) {
            Some(i) => (
                UdpPeerView { finished: self.finished.remove(i), ..self },
                Some(self.finished[i].1),
            ),
            None => (self, None),
        }
    }

    /// The application takes the oldest undelivered payload from the
    /// queue of `port`.
    pub open spec fn recv(self, port: u16) -> (UdpPeerView, Option<Seq<u8>>) {
        if self.ports.dom().contains(port) && self.ports[port].len() > 0 {
            (
                UdpPeerView {
                    ports: self.ports.insert(
                        port,
                        self.ports[port].subrange(1, self.ports[port].len() as int),
                    ),
                    ..self
                },
                Some(self.ports[port][0]),
            )
        } else {
            (self, None)
        }
    }

    /// See `resume_casts`.
    pub open spec fn resume(self, rt: RuntimeView, arp: ArpPeerView) -> (UdpPeerView, RuntimeView) {
        let (waiting, finished, rt1) = resume_casts(self.waiting, self.finished, rt, arp);
        (UdpPeerView { waiting, finished, ..self }, rt1)
    }
}

/// Every waiting send is settled by what the resolver knows. One whose
/// destination is resolved is among the finished sends afterwards, with
/// success; one whose resolution has been given up is among them with a
/// resolution timeout; one whose resolution is still in flight goes on
/// waiting.
pub proof fn resume_settles_each_cast(
    waiting: Seq<WaitingCastView>,
    finished: Seq<(u64, Result<(), Fail>)>,
    rt: RuntimeView,
    arp: ArpPeerView,
    k: int,
)
    requires
        0 <= k < waiting.len(),
    ensures
        ({
            let (still, done, rt1) = resume_casts(waiting, finished, rt, arp);
            let c = waiting[k];
            &&& arp.lookup(c.dest_addr, rt.now) is Some ==> done.contains((c.handle, Ok::<(), Fail>(())))
            &&& arp.lookup(c.dest_addr, rt.now) is None && !arp.is_pending(c.dest_addr)
                ==> done.contains((c.handle, Err::<(), Fail>(Fail::ResolutionTimeout)))
            &&& arp.lookup(c.dest_addr, rt.now) is None && arp.is_pending(c.dest_addr)
                ==> still.contains(c)
            &&& forall|entry: (u64, Result<(), Fail>)|
                finished.contains(entry) ==> #[trigger] done.contains(entry)
            &&& rt1.now == rt.now && rt1.options == rt.options
        }),
    decreases waiting.len(),
{
    let front = waiting.drop_last();
    let last = waiting.last();
    let (w, f, rt0) = resume_casts(front, finished, rt, arp);
    let (still, done, rt1) = resume_casts(waiting, finished, rt, arp);
    if front.len() > 0 {
        resume_settles_each_cast(front, finished, rt, arp, if k < front.len() { k } else { 0 });
    }
    assert forall|entry: (u64, Result<(), Fail>)| f.contains(entry) implies #[trigger] done.contains(
        entry,
    ) by {
        let i = choose|i: int| 0 <= i < f.len() && f[i] == entry;
        assert(done[i] == entry);
    }
    assert forall|entry: (u64, Result<(), Fail>)| finished.contains(entry) implies #[trigger] done.contains(
        entry,
    ) by {
        if front.len() == 0 {
            assert(f == finished);
        }
        assert(f.contains(entry));
    }
    if k == waiting.len() - 1 {
        if done.len() == f.len() + 1 {
            assert(done[f.len() as int] == done.last());
        }
        if still.len() == w.len() + 1 {
            assert(still[w.len() as int] == last);
        }
    } else {
        assert(front[k] == waiting[k]);
        if still.len() == w.len() + 1 {
            if w.contains(waiting[k]) {
                let i = choose|i: int| 0 <= i < w.len() && w[i] == waiting[k];
                assert(still[i] == waiting[k]);
            }
        }
    }
}

/// Binding is idempotent: binding a port twice is binding it once, and
/// binding a port that is bound changes nothing, so that what is queued at
/// the port stays queued.
pub proof fn binding_twice_is_binding_once(peer: UdpPeerView, port: u16)
    ensures
        peer.open_port(port).open_port(port) == peer.open_port(port),
        peer.open_port(port).ports.dom().contains(port),
        peer.ports.dom().contains(port) ==> peer.open_port(port) == peer,
        forall|other: u16|
            peer.ports.dom().contains(other) ==> peer.open_port(port).ports.dom().contains(other)
                && #[trigger] peer.open_port(port).ports[other] == peer.ports[other],
{
}

/// A port's queue as contracts speak of it.
pub open spec fn queue_view(queue: Vec<Vec<u8>>) -> Seq<Seq<u8>> {
    queue@.map_values(|payload: Vec<u8>| payload@)
}

/// The waiting sends as contracts speak of them.
pub open spec fn waiting_view(waiting: Seq<WaitingCast>) -> Seq<WaitingCastView> {
    waiting.map_values(|c: WaitingCast| c@)
}

pub struct UdpPeer {
    ports: HashMap<u16, Vec<Vec<u8>>>,
    waiting: Vec<WaitingCast>,
    finished: Vec<(u64, Result<(), Fail>)>,
    next_handle: u64,
}

impl View for UdpPeer {
    type V = UdpPeerView;

    closed spec fn view(&self) -> UdpPeerView {
        UdpPeerView {
            ports: self.ports@.map_values(|queue: Vec<Vec<u8>>| queue_view(queue)),
            waiting: waiting_view(self.waiting@),
            finished: self.finished@,
            next_handle: self.next_handle,
        }
    }
}

fn copy_of(text: &[u8]) -> (copy: Vec<u8>)
    ensures
        copy@ == text@,
{
    let mut copy: Vec<u8> = Vec::new();
    push_bytes(&mut copy, text, 0, text.len());
    assert(text@.subrange(0, text@.len() as int) =~= text@);
    copy
}

fn padded_copy_of(text: &[u8]) -> (copy: Vec<u8>)
    ensures
        copy@ == pad_segment(text@),
{
    let mut copy = copy_of(text);
    let pad: usize = if text.len() < MIN_SEGMENT_SIZE {
        MIN_SEGMENT_SIZE - text.len()
    } else {
        0
    };
    push_zeros(&mut copy, pad);
    copy
}

fn build_cast_frame(
    options: Options,
    link_addr: MacAddress,
    dest_addr: Ipv4Addr,
    dest_port: u16,
    src_port: u16,
    text: &[u8],
) -> (bytes: Vec<u8>)
    requires
        text@.len() <= MAX_UDP_TEXT_SIZE,
    ensures
        bytes@ == cast_frame(options, link_addr, dest_addr, dest_port, src_port, text@),
{
    let packet = UdpPacket {
        ethernet: Ethernet2Header {
            dest_addr: link_addr,
            src_addr: options.my_link_addr,
            ether_type: EtherType::Ipv4,
        },
        ipv4: Ipv4Header::new(Ipv4Protocol::Udp, options.my_ipv4_addr, dest_addr),
        udp: UdpHeader { src_port, dest_port },
        text,
    };
    packet.to_bytes()
}

fn build_unreachable_frame(
    options: Options,
    link_addr: MacAddress,
    src_addr: Ipv4Addr,
    offending: &[u8],
) -> (bytes: Vec<u8>)
    ensures
        bytes@ == unreachable_frame(options, link_addr, src_addr, offending@),
{
    let limit: usize = if offending.len() <= MAX_CONTEXT_SIZE {
        offending.len()
    } else {
        MAX_CONTEXT_SIZE
    };
    let mut context: Vec<u8> = Vec::new();
    push_bytes(&mut context, offending, 0, limit);
    assert(context@ =~= unreachable_context(offending@));
    let ipv4 = Ipv4Header {
        dscp_ecn: 0,
        identification: 0,
        flags_and_offset: 0,
        ttl: DEFAULT_TTL,
        protocol: 1,
        src_addr: options.my_ipv4_addr,
        dest_addr: src_addr,
    };
    build_error_frame(
        Ethernet2Header {
            dest_addr: link_addr,
            src_addr: options.my_link_addr,
            ether_type: EtherType::Ipv4,
        },
        &ipv4,
        ErrorId::DestinationUnreachable(DestinationUnreachable::DestinationPortUnreachable),
        0,
        context.as_slice(),
    )
}

impl UdpPeer {
    /// A peer with no port bound and no send under way, as contracts speak
    /// of it.
    pub open spec fn new_view() -> UdpPeerView {
        UdpPeerView {
            ports: Map::<u16, Seq<Seq<u8>>>::empty(),
            waiting: Seq::<WaitingCastView>::empty(),
            finished: Seq::<(u64, Result<(), Fail>)>::empty(),
            next_handle: 0,
        }
    }

    /// A peer with no port bound and no send under way.
    pub fn new() -> (peer: UdpPeer)
        ensures
            peer@ == UdpPeer::new_view(),
            peer@.wf(),
    {
        let peer = UdpPeer {
            ports: HashMap::new(),
            waiting: Vec::new(),
            finished: Vec::new(),
            next_handle: 0,
        };
        assert(peer@.ports =~= Map::<u16, Seq<Seq<u8>>>::empty());
        assert(peer@.waiting =~= Seq::<WaitingCastView>::empty());
        peer
    }

    pub fn is_port_open(&self, port: u16) -> (open: bool)
        ensures
            open == self@.ports.dom().contains(port),
    {
        self.ports.contains_key(&port)
    }

    /// Binds `port`. Binding a bound port changes nothing: what is queued
    /// there stays queued.
    pub fn open_port(&mut self, port: u16)
        ensures
            final(self)@ == old(self)@.open_port(port),
            old(self)@.ports.dom().contains(port) ==> final(self)@ == old(self)@,
    {
        if !self.ports.contains_key(&port) {
            let queue: Vec<Vec<u8>> = Vec::new();
            assert(queue_view(queue) =~= Seq::<Seq<u8>>::empty());
            self.ports.insert(port, queue);
            assert(final(self)@.ports =~= old(self)@.ports.insert(port, Seq::<Seq<u8>>::empty()));
        }
    }

    /// Unbinds `port` and drops what is queued there.
    pub fn close_port(&mut self, port: u16)
        ensures
            final(self)@ == old(self)@.close_port(port),
    {
        self.ports.remove(&port);
        assert(final(self)@.ports =~= old(self)@.ports.remove(port));
    }

    /// Takes the oldest undelivered payload from the queue of `port`.
    pub fn recv(&mut self, port: u16) -> (payload: Option<Vec<u8>>)
        ensures
            final(self)@ == old(self)@.recv(port).0,
            match payload {
                Some(bytes) => old(self)@.recv(port).1 == Some(bytes@),
                None => old(self)@.recv(port).1 is None,
            },
            old(self)@.wf() ==> final(self)@.wf(),
    {
        match self.ports.remove(&port) {
            None => {
                assert(final(self)@.ports =~= old(self)@.ports);
                None
            },
            Some(mut queue) => {
                if queue.len() == 0 {
                    self.ports.insert(port, queue);
                    assert(self.ports@ =~= old(self).ports@);
                    None
                } else {
                    let payload = queue.remove(0);
                    self.ports.insert(port, queue);
                    assert(queue_view(queue) =~= old(self)@.ports[port].subrange(
                        1,
                        old(self)@.ports[port].len() as int,
                    ));
                    assert(final(self)@.ports =~= old(self)@.ports.insert(
                        port,
                        old(self)@.ports[port].subrange(1, old(self)@.ports[port].len() as int),
                    ));
                    Some(payload)
                }
            },
        }
    }

    /// Takes in a packet that the network layer found to carry a datagram.
    pub fn receive(
        &mut self,
        rt: &mut Runtime,
        link_src: MacAddress,
        packet: &Ipv4Packet,
    ) -> (r: Result<(), Fail>)
        ensures
            (final(self)@, final(rt)@, r) == old(self)@.receive(
                old(rt)@,
                link_src,
                packet.header,
                packet.text@,
                packet.wire@,
            ),
            old(self)@.wf() ==> final(self)@.wf(),
    {
        let datagram = match UdpDatagram::from_packet(packet) {
            Err(e) => {
                return Err(e);
            },
            Ok(datagram) => datagram,
        };
        let dest_port = datagram.header.dest_port;
        match self.ports.remove(&dest_port) {
            Some(mut queue) => {
                let ghost before = queue_view(queue);
                queue.push(copy_of(datagram.text.as_slice()));
                assert(queue_view(queue) =~= before.push(datagram.text@));
                self.ports.insert(dest_port, queue);
                assert(final(self)@.ports =~= old(self)@.ports.insert(
                    dest_port,
                    old(self)@.ports[dest_port].push(datagram.text@),
                ));
                let mut text: Vec<Vec<u8>> = Vec::new();
                text.push(padded_copy_of(datagram.text.as_slice()));
                let effect = Effect::BytesReceived {
                    protocol: Ipv4Protocol::Udp,
                    src_addr: packet.header.src_addr,
                    src_port: datagram.header.src_port,
                    dest_port,
                    text,
                };
                assert(effect@->BytesReceived_text =~= seq![pad_segment(datagram.text@)]);
                rt.emit_effect(effect);
            },
            None => {
                assert(final(self)@.ports =~= old(self)@.ports);
                let frame = build_unreachable_frame(
                    rt.options(),
                    link_src,
                    packet.header.src_addr,
                    packet.wire.as_slice(),
                );
                rt.transmit(frame);
            },
        }
        Ok(())
    }

    /// Sends `text` from `src_port` to `dest_port` of `dest_addr`, now or
    /// once the destination's link address is known, and gives the send a
    /// handle by which its outcome is asked for.
    pub fn cast(
        &mut self,
        rt: &mut Runtime,
        arp: &mut ArpPeer,
        dest_addr: Ipv4Addr,
        dest_port: u16,
        src_port: u16,
        text: Vec<u8>,
    ) -> (r: Result<u64, Fail>)
        requires
            old(self)@.wf(),
            old(arp)@.wf(),
        ensures
            (final(self)@, final(rt)@, final(arp)@, r) == old(self)@.cast(
                old(rt)@,
                old(arp)@,
                dest_addr,
                dest_port,
                src_port,
                text@,
            ),
            final(self)@.wf(),
            final(arp)@.wf(),
    {
        if text.len() > MAX_UDP_TEXT_SIZE {
            return Err(Fail::TooLarge);
        }
        if self.next_handle == u64::MAX {
            return Err(Fail::ResourceExhausted);
        }
        let handle = self.next_handle;
        let options = rt.options();
        let answer = if dest_addr.is_broadcast() {
            ArpQuery::Resolved(MacAddress::broadcast())
        } else {
            arp.query(rt, dest_addr)
        };
        self.next_handle = handle + 1;
        match answer {
            ArpQuery::Resolved(link_addr) => {
                let frame = build_cast_frame(
                    options,
                    link_addr,
                    dest_addr,
                    dest_port,
                    src_port,
                    text.as_slice(),
                );
                rt.transmit(frame);
                self.finished.push((handle, Ok(())));
            },
            ArpQuery::Pending => {
                let cast = WaitingCast { handle, dest_addr, dest_port, src_port, text };
                self.waiting.push(cast);
                assert(final(self)@.waiting =~= old(self)@.waiting.push(cast@));
            },
        }
        Ok(handle)
    }

    /// Looks at the resolver again on behalf of the waiting sends.
    #[verifier::rlimit(40)]
    pub fn resume(&mut self, rt: &mut Runtime, arp: &ArpPeer)
        requires
            old(self)@.wf(),
        ensures
            (final(self)@, final(rt)@) == old(self)@.resume(old(rt)@, arp@),
            final(self)@.wf(),
    {
        let options = rt.options();
        let ghost all = old(self)@.waiting;
        let mut kept: Vec<WaitingCast> = Vec::new();
        let mut i: usize = 0;
        while i < self.waiting.len()
            invariant
                i <= self.waiting@.len(),
                self.waiting == old(self).waiting,
                self.ports == old(self).ports,
                self.next_handle == old(self).next_handle,
                all == waiting_view(self.waiting@),
                all == old(self)@.waiting,
                old(self)@.wf(),
                options == old(rt)@.options,
                rt@.now == old(rt)@.now,
                rt@.options == old(rt)@.options,
                (waiting_view(kept@), self.finished@, rt@) == resume_casts(
                    all.subrange(0, i as int),
                    old(self).finished@,
                    old(rt)@,
                    arp@,
                ),
                forall|k: int|
                    0 <= k < kept@.len() ==> (#[trigger] waiting_view(kept@)[k]).text.len()
                        <= MAX_UDP_TEXT_SIZE,
            decreases self.waiting@.len() - i,
        {
            let c = &self.waiting[i];
            assert(all.subrange(0, i + 1).drop_last() =~= all.subrange(0, i as int));
            assert(all.subrange(0, i + 1).last() == c@);
            assert(old(self)@.waiting[i as int].text.len() <= MAX_UDP_TEXT_SIZE);
            let ghost kept_before = waiting_view(kept@);
            match arp.query_cache(rt, c.dest_addr) {
                Some(link_addr) => {
                    let frame = build_cast_frame(
                        options,
                        link_addr,
                        c.dest_addr,
                        c.dest_port,
                        c.src_port,
                        c.text.as_slice(),
                    );
                    rt.transmit(frame);
                    self.finished.push((c.handle, Ok(())));
                },
                None => {
                    if arp.is_pending(c.dest_addr) {
                        let copy = WaitingCast {
                            handle: c.handle,
                            dest_addr: c.dest_addr,
                            dest_port: c.dest_port,
                            src_port: c.src_port,
                            text: copy_of(c.text.as_slice()),
                        };
                        kept.push(copy);
                        assert(waiting_view(kept@) =~= kept_before.push(c@));
                    } else {
                        self.finished.push((c.handle, Err(Fail::ResolutionTimeout)));
                    }
                },
            }
            i = i + 1;
        }
        assert(all.subrange(0, i as int) =~= all);
        self.waiting = kept;
    }

    /// Asks for the outcome of the send with the given handle. A send that
    /// has finished tells its outcome once; one that still waits, or was
    /// never made, tells nothing.
    pub fn poll_cast(&mut self, handle: u64) -> (outcome: Option<Result<(), Fail>>)
        ensures
            (final(self)@, outcome) == old(self)@.poll_cast(handle),
            old(self)@.wf() ==> final(self)@.wf(),
    {
        let mut i: usize = 0;
        while i < self.finished.len()
            invariant
                i <= self.finished@.len(),
                *self == *old(self),
                find_finished(self.finished@, handle, 0) == find_finished(
                    self.finished@,
                    handle,
                    i as int,
                ),
            decreases self.finished@.len() - i,
        {
            if self.finished[i].0 == handle {
                let (_, result) = self.finished.remove(i);
                assert(final(self)@.waiting == old(self)@.waiting);
                return Some(result);
            }
            i = i + 1;
        }
        None
    }
}

} // verus!
