//! One station: the runtime and the peers, behind the calls that a driver
//! and an application make.

use vstd::prelude::*;
use crate::effect::{Effect, EffectView};
use crate::fail::Fail;
use crate::options::Options;
use crate::protocols::arp::pdu::{parse_pdu, pdu_round_trip, ArpPdu};
use crate::protocols::arp::peer::{
    import_entries, reply_message, request_message, without_target_properties, ArpPeer,
    ArpPeerView, ArpQuery, CacheRecord, Resolution,
};
use crate::protocols::ethernet2::{
    frame_round_trip, padding, parse_frame, EtherType, Ethernet2Header, Frame, MacAddress,
};
use crate::protocols::icmpv4::error::{error_frame_round_trip, DestinationUnreachable, ErrorId};
use crate::protocols::ipv4::address::Ipv4Addr;
use crate::protocols::ipv4::packet::{
    outbound_header, packet_bytes, packet_span, parse_packet, Ipv4Header, Ipv4Protocol, PROTOCOL_UDP,
};
use crate::protocols::ipv4::peer::{Ipv4Peer, Ipv4PeerView};
use crate::protocols::tcp::peer::TcpPeerView;
use crate::protocols::tcp::state::TcpState;
use crate::protocols::udp::datagram::{
    datagram_bytes, parse_datagram, udp_frame_round_trip, UdpHeader, MAX_UDP_TEXT_SIZE,
};
use crate::protocols::udp::peer::{
    cast_frame, pad_segment, padded_segment_starts_with_text, prefix, resume_casts,
    unreachable_context,
    unreachable_context_fits, unreachable_frame, UdpPeerView, WaitingCastView,
};
use crate::runtime::{PacketBuf, Runtime, RuntimeView};
use crate::time::Instant;

verus! {

/// A station as contracts speak of it.
pub struct EngineView {
    pub rt: RuntimeView,
    pub arp: ArpPeerView,
    pub ipv4: Ipv4PeerView,
}

impl EngineView {
    pub open spec fn wf(self) -> bool {
        self.arp.wf() && self.ipv4.wf()
    }

    /// A station that has just been built.
    pub open spec fn fresh(now: Instant, options: Options) -> EngineView {
        EngineView {
            rt: RuntimeView { now, options, effects: Seq::<EffectView>::empty() },
            arp: ArpPeerView {
                cache: Map::<u32, CacheRecord>::empty(),
                pending: Seq::<Resolution>::empty(),
            },
            ipv4: Ipv4PeerView::fresh(),
        }
    }

    /// The arrival of a frame. Bytes that are no frame are refused as the
    /// link layer's format says. A frame for another station is
    /// misdelivered. An address-resolution frame goes to the resolver,
    /// and what the resolver learnt is at once put to use for the sends
    /// that wait. A frame with a packet goes to the network layer. `iss`
    /// is the first sequence number of the connection that the frame may
    /// start.
    pub open spec fn receive(self, bytes: Seq<u8>, iss: u32) -> (EngineView, Result<(), Fail>) {
        match parse_frame(bytes) {
            Err(e) => (self, Err(e)),
            Ok((header, text)) => if header.dest_addr != self.rt.options.my_link_addr
                && !header.dest_addr.is_broadcast() {
                (self, Err(Fail::Misdelivered))
            } else {
                match header.ether_type {
                    EtherType::Arp => {
                        let (arp, rt1, r) = self.arp.receive_text(self.rt, text);
                        let (ipv4, rt2) = self.ipv4.resume(rt1, arp);
                        (EngineView { rt: rt2, arp, ipv4 }, r)
                    },
                    EtherType::Ipv4 => {
                        let (ipv4, rt1, r) = self.ipv4.receive(self.rt, header, text, iss);
                        (EngineView { rt: rt1, ipv4, ..self }, r)
                    },
                }
            },
        }
    }

    /// A send of a datagram; see `UdpPeerView::cast`.
    pub open spec fn udp_cast(
        self,
        dest_addr: Ipv4Addr,
        dest_port: u16,
        src_port: u16,
        text: Seq<u8>,
    ) -> (EngineView, Result<u64, Fail>) {
        let (udp, rt, arp, r) = self.ipv4.udp.cast(
            self.rt,
            self.arp,
            dest_addr,
            dest_port,
            src_port,
            text,
        );
        (EngineView { rt, arp, ipv4: Ipv4PeerView { udp, ..self.ipv4 } }, r)
    }

    /// The clock moves to `now`, or stays where it is when `now` has
    /// passed. Then the resolver looks at its deadlines, the sends that
    /// wait look at the resolver, and the connections at their timers.
    pub open spec fn advance_clock(self, now: Instant) -> EngineView {
        let rt0 = RuntimeView {
            now: if now.nanos >= self.rt.now.nanos {
                now
            } else {
                self.rt.now
            },
            ..self.rt
        };
        let (arp, rt1) = self.arp.advance(rt0);
        let (ipv4, rt2) = self.ipv4.advance(rt1, arp);
        EngineView { rt: rt2, arp, ipv4 }
    }

    /// The application opens a connection; see `TcpPeerView::connect`.
    pub open spec fn tcp_connect(
        self,
        local_port: u16,
        remote_addr: Ipv4Addr,
        remote_port: u16,
        iss: u32,
    ) -> (EngineView, Result<u64, Fail>) {
        let (tcp, rt, arp, r) = self.ipv4.tcp.connect(
            self.rt,
            self.arp,
            local_port,
            remote_addr,
            remote_port,
            iss,
        );
        (EngineView { rt, arp, ipv4: Ipv4PeerView { tcp, ..self.ipv4 } }, r)
    }

    /// The application hands bytes to a connection; see
    /// `TcpPeerView::send`.
    pub open spec fn tcp_send(self, handle: u64, bytes: Seq<u8>) -> (EngineView, Result<(), Fail>) {
        let (tcp, rt, r) = self.ipv4.tcp.send(self.rt, handle, bytes);
        (EngineView { rt, ipv4: Ipv4PeerView { tcp, ..self.ipv4 }, ..self }, r)
    }

    /// The application closes a connection; see `TcpPeerView::close`.
    pub open spec fn tcp_close(self, handle: u64) -> (EngineView, Result<(), Fail>) {
        let (tcp, rt, r) = self.ipv4.tcp.close(self.rt, handle);
        (EngineView { rt, ipv4: Ipv4PeerView { tcp, ..self.ipv4 }, ..self }, r)
    }

    /// The station with another datagram peer.
    pub open spec fn with_udp(self, udp: UdpPeerView) -> EngineView {
        EngineView { ipv4: Ipv4PeerView { udp, ..self.ipv4 }, ..self }
    }

    /// The station with another transmission-control peer.
    pub open spec fn with_tcp(self, tcp: TcpPeerView) -> EngineView {
        EngineView { ipv4: Ipv4PeerView { tcp, ..self.ipv4 }, ..self }
    }
}

pub struct Engine {
    rt: Runtime,
    arp: ArpPeer,
    ipv4: Ipv4Peer,
}

impl View for Engine {
    type V = EngineView;

    closed spec fn view(&self) -> EngineView {
        EngineView { rt: self.rt@, arp: self.arp@, ipv4: self.ipv4@ }
    }
}

impl Engine {
    /// A station whose clock reads `now`, which knows no neighbour, has no
    /// port bound and has nothing to report. Options that break a bound
    /// are refused.
    pub fn from_options(now: Instant, options: Options) -> (r: Result<Engine, Fail>)
        ensures
            options.valid() ==> r is Ok && r->Ok_0@ == EngineView::fresh(now, options)
                && r->Ok_0@.wf(),
            !options.valid() ==> r is Err && r->Err_0 == Fail::InvalidConfiguration,
    {
        match Runtime::from_options(now, options) {
            Err(e) => Err(e),
            Ok(rt) => Ok(Engine { rt, arp: ArpPeer::new(), ipv4: Ipv4Peer::new() }),
        }
    }

    pub fn options(&self) -> (options: Options)
        ensures
            options == self@.rt.options,
    {
        self.rt.options()
    }

    pub fn now(&self) -> (now: Instant)
        ensures
            now == self@.rt.now,
    {
        self.rt.now()
    }

    /// Takes in a frame from the wire. The frame may start a connection,
    /// whose first sequence number is then drawn at random: what is
    /// promised holds for the number that was drawn.
    pub fn receive(&mut self, bytes: &[u8]) -> (r: Result<(), Fail>)
        requires
            old(self)@.wf(),
        ensures
            exists|iss: u32| (final(self)@, r) == #[trigger] old(self)@.receive(bytes@, iss),
            final(self)@.wf(),
    {
        let iss = self.rt.rng_gen();
        self.receive_with(bytes, iss)
    }

    /// Takes in a frame from the wire. `iss` is the first sequence number
    /// of the connection that the frame may start.
    pub fn receive_with(&mut self, bytes: &[u8], iss: u32) -> (r: Result<(), Fail>)
        requires
            old(self)@.wf(),
        ensures
            (final(self)@, r) == old(self)@.receive(bytes@, iss),
            final(self)@.wf(),
    {
        let frame = match Frame::from_bytes(bytes) {
            Err(e) => {
                return Err(e);
            },
            Ok(frame) => frame,
        };
        let dest_addr = frame.header.dest_addr;
        if dest_addr != self.rt.local_link_addr() && !dest_addr.is_broadcast() {
            return Err(Fail::Misdelivered);
        }
        match frame.header.ether_type {
            EtherType::Arp => {
                let r = self.arp.receive(&mut self.rt, &frame);
                self.ipv4.resume(&mut self.rt, &self.arp);
                r
            },
            EtherType::Ipv4 => self.ipv4.receive(&mut self.rt, frame, iss),
        }
    }

    /// Teaches the resolver every pair of `entries`, in order, without a
    /// word on the wire.
    pub fn import_arp_cache(&mut self, entries: &Vec<(Ipv4Addr, MacAddress)>)
        requires
            old(self)@.wf(),
        ensures
            final(self)@ == (EngineView {
                arp: import_entries(
                    old(self)@.arp,
                    old(self)@.rt.options,
                    old(self)@.rt.now,
                    entries@,
                ),
                ..old(self)@
            }),
            final(self)@.wf(),
    {
        self.arp.import_cache(&self.rt, entries);
    }

    /// Looks an address up, and starts a resolution where there is no
    /// fresh answer and none is in flight.
    pub fn arp_query(&mut self, target: Ipv4Addr) -> (answer: ArpQuery)
        requires
            old(self)@.wf(),
        ensures
            ({
                let (arp, rt, a) = old(self)@.arp.query(old(self)@.rt, target);
                final(self)@ == (EngineView { rt, arp, ..old(self)@ }) && answer == a
            }),
            final(self)@.wf(),
    {
        self.arp.query(&mut self.rt, target)
    }

    /// Binds a datagram port. Binding a bound port is no change at all.
    pub fn open_udp_port(&mut self, port: u16)
        ensures
            final(self)@ == old(self)@.with_udp(old(self)@.ipv4.udp.open_port(port)),
            old(self)@.ipv4.udp.ports.dom().contains(port) ==> final(self)@ == old(self)@,
            old(self)@.wf() ==> final(self)@.wf(),
    {
        self.ipv4.udp.open_port(port);
    }

    /// Unbinds a datagram port and drops what is queued there.
    pub fn close_udp_port(&mut self, port: u16)
        ensures
            final(self)@ == old(self)@.with_udp(old(self)@.ipv4.udp.close_port(port)),
            old(self)@.wf() ==> final(self)@.wf(),
    {
        self.ipv4.udp.close_port(port);
    }

    pub fn is_udp_port_open(&self, port: u16) -> (open: bool)
        ensures
            open == self@.ipv4.udp.ports.dom().contains(port),
    {
        self.ipv4.udp.is_port_open(port)
    }

    /// Sends `text` from `src_port` to `dest_port` of `dest_addr` and
    /// gives the send a handle.
    pub fn udp_cast(
        &mut self,
        dest_addr: Ipv4Addr,
        dest_port: u16,
        src_port: u16,
        text: Vec<u8>,
    ) -> (r: Result<u64, Fail>)
        requires
            old(self)@.wf(),
        ensures
            (final(self)@, r) == old(self)@.udp_cast(dest_addr, dest_port, src_port, text@),
            final(self)@.wf(),
    {
        self.ipv4.udp.cast(&mut self.rt, &mut self.arp, dest_addr, dest_port, src_port, text)
    }

    /// Asks for the outcome of the send with the given handle. A send that
    /// has finished tells its outcome once; one that still waits, or was
    /// never made, tells nothing.
    pub fn poll_cast(&mut self, handle: u64) -> (outcome: Option<Result<(), Fail>>)
        ensures
            final(self)@ == old(self)@.with_udp(old(self)@.ipv4.udp.poll_cast(handle).0),
            outcome == old(self)@.ipv4.udp.poll_cast(handle).1,
            old(self)@.wf() ==> final(self)@.wf(),
    {
        self.ipv4.udp.poll_cast(handle)
    }

    /// Takes the oldest undelivered payload from the queue of `port`.
    pub fn udp_recv(&mut self, port: u16) -> (payload: Option<Vec<u8>>)
        ensures
            final(self)@ == old(self)@.with_udp(old(self)@.ipv4.udp.recv(port).0),
            match payload {
                Some(bytes) => old(self)@.ipv4.udp.recv(port).1 == Some(bytes@),
                None => old(self)@.ipv4.udp.recv(port).1 is None,
            },
            old(self)@.wf() ==> final(self)@.wf(),
    {
        self.ipv4.udp.recv(port)
    }

    /// Moves the virtual clock and lets every timer that has come due do
    /// its work.
    pub fn advance_clock(&mut self, now: Instant)
        requires
            old(self)@.wf(),
        ensures
            final(self)@ == old(self)@.advance_clock(now),
            final(self)@.wf(),
    {
        self.rt.advance_clock(now);
        self.arp.advance(&mut self.rt);
        self.ipv4.advance(&mut self.rt, &self.arp);
    }

    /// Waits for connections at `port`.
    pub fn tcp_listen(&mut self, port: u16)
        ensures
            final(self)@ == old(self)@.with_tcp(old(self)@.ipv4.tcp.listen(port)),
            old(self)@.wf() ==> final(self)@.wf(),
    {
        self.ipv4.tcp.listen(port);
    }

    /// Opens a connection from `local_port` to `remote_port` of
    /// `remote_addr` and gives it a handle. Its first sequence number is
    /// drawn at random: what is promised holds for the number that was
    /// drawn.
    pub fn tcp_connect(
        &mut self,
        local_port: u16,
        remote_addr: Ipv4Addr,
        remote_port: u16,
    ) -> (r: Result<u64, Fail>)
        requires
            old(self)@.wf(),
        ensures
            exists|iss: u32| (final(self)@, r) == #[trigger] old(self)@.tcp_connect(
                local_port,
                remote_addr,
                remote_port,
                iss,
            ),
            final(self)@.wf(),
    {
        let iss = self.rt.rng_gen();
        self.tcp_connect_with(local_port, remote_addr, remote_port, iss)
    }

    /// Opens a connection whose first sequence number is `iss`.
    pub fn tcp_connect_with(
        &mut self,
        local_port: u16,
        remote_addr: Ipv4Addr,
        remote_port: u16,
        iss: u32,
    ) -> (r: Result<u64, Fail>)
        requires
            old(self)@.wf(),
        ensures
            (final(self)@, r) == old(self)@.tcp_connect(local_port, remote_addr, remote_port, iss),
            final(self)@.wf(),
    {
        self.ipv4.tcp.connect(
            &mut self.rt,
            &mut self.arp,
            local_port,
            remote_addr,
            remote_port,
            iss,
        )
    }

    /// Takes up the oldest established connection at `port` that a remote
    /// station opened and the application has not been told of.
    pub fn tcp_accept(&mut self, port: u16) -> (handle: Option<u64>)
        requires
            old(self)@.wf(),
        ensures
            final(self)@ == old(self)@.with_tcp(old(self)@.ipv4.tcp.accept(port).0),
            handle == old(self)@.ipv4.tcp.accept(port).1,
            final(self)@.wf(),
    {
        self.ipv4.tcp.accept(port)
    }

    /// Hands `bytes` to a connection for sending.
    pub fn tcp_send(&mut self, handle: u64, bytes: &[u8]) -> (r: Result<(), Fail>)
        requires
            old(self)@.wf(),
        ensures
            (final(self)@, r) == old(self)@.tcp_send(handle, bytes@),
            final(self)@.wf(),
    {
        self.ipv4.tcp.send(&mut self.rt, handle, bytes)
    }

    /// Takes what has arrived on a connection.
    pub fn tcp_recv(&mut self, handle: u64) -> (r: Result<Vec<u8>, Fail>)
        requires
            old(self)@.wf(),
        ensures
            match old(self)@.ipv4.tcp.recv(handle).1 {
                Ok(bytes) => r is Ok && r->Ok_0@ == bytes,
                Err(e) => r is Err && r->Err_0 == e,
            },
            final(self)@ == old(self)@.with_tcp(old(self)@.ipv4.tcp.recv(handle).0),
            final(self)@.wf(),
    {
        self.ipv4.tcp.recv(handle)
    }

    /// Closes a connection on the application's behalf.
    pub fn tcp_close(&mut self, handle: u64) -> (r: Result<(), Fail>)
        requires
            old(self)@.wf(),
        ensures
            (final(self)@, r) == old(self)@.tcp_close(handle),
            final(self)@.wf(),
    {
        self.ipv4.tcp.close(&mut self.rt, handle)
    }

    /// Where a connection stands, and why it was given up if it was.
    pub fn tcp_status(&self, handle: u64) -> (status: Option<(TcpState, Option<Fail>)>)
        ensures
            status == self@.ipv4.tcp.status(handle),
    {
        self.ipv4.tcp.status(handle)
    }

    /// Lets go of a closed connection, and tells whether it did.
    pub fn tcp_release(&mut self, handle: u64) -> (released: bool)
        requires
            old(self)@.wf(),
        ensures
            final(self)@ == old(self)@.with_tcp(old(self)@.ipv4.tcp.release(handle).0),
            released == old(self)@.ipv4.tcp.release(handle).1,
            final(self)@.wf(),
    {
        self.ipv4.tcp.release(handle)
    }

    /// Moves the virtual clock, then hands out the oldest effect that has
    /// not been drained, if there is one.
    pub fn poll(&mut self, now: Instant) -> (effect: Option<Effect>)
        requires
            old(self)@.wf(),
        ensures
            ({
                let advanced = old(self)@.advance_clock(now);
                &&& advanced.rt.effects.len() == 0 ==> effect is None && final(self)@ == advanced
                &&& advanced.rt.effects.len() > 0 ==> effect is Some && effect->Some_0@
                    == advanced.rt.effects[0] && final(self)@ == (EngineView {
                    rt: RuntimeView {
                        effects: advanced.rt.effects.subrange(1, advanced.rt.effects.len() as int),
                        ..advanced.rt
                    },
                    ..advanced
                })
            }),
            final(self)@.wf(),
    {
        self.advance_clock(now);
        self.rt.poll()
    }
}

/// A request and its reply teach two stations each other's link address.
/// The request that one station broadcasts for the other's network
/// address makes the other learn the asker and send exactly one frame, the
/// reply; the reply makes the asker learn the answerer, and its request is
/// no longer in flight. Neither station has sends that wait, and both
/// keep what they learn for longer than no time at all.
#[verifier::rlimit(60)]
pub proof fn resolution_round_trip(asker: EngineView, answerer: EngineView, iss: u32)
    requires
        asker.wf(),
        answerer.wf(),
        asker.ipv4.udp.waiting.len() == 0,
        answerer.ipv4.udp.waiting.len() == 0,
        asker.rt.options.arp.cache_ttl.nanos > 0,
        answerer.rt.options.arp.cache_ttl.nanos > 0,
        asker.rt.now.nanos < u128::MAX,
        answerer.rt.now.nanos < u128::MAX,
    ensures
        ({
            let target = answerer.rt.options.my_ipv4_addr;
            let request = request_message(asker.rt.options, target);
            let reply = reply_message(answerer.rt.options, request.pdu);
            let (answerer1, r1) = answerer.receive(request.bytes(), iss);
            let (asker1, r2) = asker.receive(reply.bytes(), iss);
            &&& r1 == Ok::<(), Fail>(())
            &&& answerer1.rt == answerer.rt.transmit(reply.bytes())
            &&& answerer1.arp.lookup(asker.rt.options.my_ipv4_addr, answerer.rt.now) == Some(
                asker.rt.options.my_link_addr,
            )
            &&& r2 == Ok::<(), Fail>(())
            &&& asker1.rt == asker.rt
            &&& asker1.arp.lookup(target, asker.rt.now) == Some(answerer.rt.options.my_link_addr)
            &&& !asker1.arp.is_pending(target)
        }),
{
    let target = answerer.rt.options.my_ipv4_addr;
    let request = request_message(asker.rt.options, target);
    let reply = reply_message(answerer.rt.options, request.pdu);
    frame_round_trip(request.ethernet, request.pdu.bytes());
    pdu_round_trip(request.pdu, padding(request.pdu.bytes().len()));
    frame_round_trip(reply.ethernet, reply.pdu.bytes());
    pdu_round_trip(reply.pdu, padding(reply.pdu.bytes().len()));
    let parsed = parse_frame(request.bytes());
    assert(parsed is Ok && parsed->Ok_0.0 == request.ethernet);
    assert(parse_pdu(parsed->Ok_0.1) == Ok::<ArpPdu, Fail>(request.pdu));
    let (arp1, rt1, r1) = answerer.arp.receive(answerer.rt, request.pdu);
    assert(r1 == Ok::<(), Fail>(()));
    assert(rt1 == answerer.rt.transmit(reply.bytes()));
    assert(answerer.ipv4.resume(rt1, arp1) == (answerer.ipv4, rt1)) by {
        assert(answerer.ipv4.udp.waiting =~= Seq::<WaitingCastView>::empty());
    }
    let parsed2 = parse_frame(reply.bytes());
    assert(parsed2 is Ok && parsed2->Ok_0.0 == reply.ethernet);
    assert(parse_pdu(parsed2->Ok_0.1) == Ok::<ArpPdu, Fail>(reply.pdu));
    let (arp2, rt2, r2) = asker.arp.receive(asker.rt, reply.pdu);
    assert(r2 == Ok::<(), Fail>(()));
    assert(rt2 == asker.rt);
    without_target_properties(asker.arp.pending, target);
    assert(asker.ipv4.resume(rt2, arp2) == (asker.ipv4, rt2)) by {
        assert(asker.ipv4.udp.waiting =~= Seq::<WaitingCastView>::empty());
    }
}

/// Two sends for one address share one resolution. On a station that
/// neither knows the address nor asks for it, the first send broadcasts a
/// request and waits; the second finds the request in flight, puts nothing
/// on the wire and waits with it. The reply to that one request then
/// releases both: after the sends that waited before them have been
/// looked at, each is transmitted to the link address that the reply
/// names, in the order in which the sends were made, and each finishes
/// well. The address is not the broadcast address, which needs no
/// resolution; the payloads fit a datagram and two handles are left, so
/// that the sends are taken; and the station keeps what it learns for
/// longer than no time at all.
#[verifier::rlimit(100)]
pub proof fn sends_share_one_resolution(
    station: EngineView,
    answerer: Options,
    dest_port1: u16,
    src_port1: u16,
    text1: Seq<u8>,
    dest_port2: u16,
    src_port2: u16,
    text2: Seq<u8>,
    iss: u32,
)
    requires
        station.wf(),
        !answerer.my_ipv4_addr.is_broadcast(),
        station.arp.lookup(answerer.my_ipv4_addr, station.rt.now) is None,
        !station.arp.is_pending(answerer.my_ipv4_addr),
        text1.len() <= MAX_UDP_TEXT_SIZE,
        text2.len() <= MAX_UDP_TEXT_SIZE,
        station.ipv4.udp.next_handle + 1 < u64::MAX,
        station.rt.options.arp.cache_ttl.nanos > 0,
        station.rt.now.nanos < u128::MAX,
    ensures
        ({
            let target = answerer.my_ipv4_addr;
            let options = station.rt.options;
            let first = station.ipv4.udp.next_handle;
            let second = (first + 1) as u64;
            let request = request_message(options, target);
            let reply = reply_message(answerer, request.pdu);
            let (station1, r1) = station.udp_cast(target, dest_port1, src_port1, text1);
            let (station2, r2) = station1.udp_cast(target, dest_port2, src_port2, text2);
            let (station3, r3) = station2.receive(reply.bytes(), iss);
            let (waiting, finished, rt) = resume_casts(
                station.ipv4.udp.waiting,
                station.ipv4.udp.finished,
                station2.rt,
                station3.arp,
            );
            &&& r1 == Ok::<u64, Fail>(first)
            &&& r2 == Ok::<u64, Fail>(second)
            &&& station1.rt == station.rt.transmit(request.bytes())
            &&& station2.rt == station1.rt
            &&& station2.arp == station1.arp
            &&& station2.arp.is_pending(target)
            &&& r3 == Ok::<(), Fail>(())
            &&& station3.arp.lookup(target, station.rt.now) == Some(answerer.my_link_addr)
            &&& !station3.arp.is_pending(target)
            &&& station3.rt == rt.transmit(
                cast_frame(options, answerer.my_link_addr, target, dest_port1, src_port1, text1),
            ).transmit(
                cast_frame(options, answerer.my_link_addr, target, dest_port2, src_port2, text2),
            )
            &&& station3.ipv4.udp.waiting == waiting
            &&& station3.ipv4.udp.finished == finished.push((first, Ok::<(), Fail>(()))).push(
                (second, Ok::<(), Fail>(())),
            )
        }),
{
    let target = answerer.my_ipv4_addr;
    let options = station.rt.options;
    let first = station.ipv4.udp.next_handle;
    let second = (first + 1) as u64;
    let request = request_message(options, target);
    let reply = reply_message(answerer, request.pdu);
    let (station1, r1) = station.udp_cast(target, dest_port1, src_port1, text1);
    assert(station1.arp.pending[station.arp.pending.len() as int].target == target);
    assert(station1.arp.is_pending(target));
    assert(station1.arp.lookup(target, station1.rt.now) is None);
    let (station2, r2) = station1.udp_cast(target, dest_port2, src_port2, text2);
    assert(station2.rt == station1.rt);
    assert(station2.arp == station1.arp);
    assert(station2.arp.wf()) by {
        let p = station1.arp.pending;
        let q = station.arp.pending;
        assert forall|i: int, j: int| 0 <= i < j < p.len() implies (#[trigger] p[i]).target != (
        #[trigger] p[j]).target by {
            assert(p[i] == q[i]);
            if j < q.len() {
                assert(p[j] == q[j]);
            }
        }
    }
    let c1 = WaitingCastView {
        handle: first,
        dest_addr: target,
        dest_port: dest_port1,
        src_port: src_port1,
        text: text1,
    };
    let c2 = WaitingCastView {
        handle: second,
        dest_addr: target,
        dest_port: dest_port2,
        src_port: src_port2,
        text: text2,
    };
    let before = station.ipv4.udp.waiting;
    assert(station2.ipv4.udp.waiting == before.push(c1).push(c2));
    frame_round_trip(reply.ethernet, reply.pdu.bytes());
    pdu_round_trip(reply.pdu, padding(reply.pdu.bytes().len()));
    let parsed = parse_frame(reply.bytes());
    assert(parsed is Ok && parsed->Ok_0.0 == reply.ethernet);
    assert(parse_pdu(parsed->Ok_0.1) == Ok::<ArpPdu, Fail>(reply.pdu));
    let (arp3, rt3, r3) = station2.arp.receive(station2.rt, reply.pdu);
    assert(r3 == Ok::<(), Fail>(()));
    assert(rt3 == station2.rt);
    without_target_properties(station2.arp.pending, target);
    assert(arp3.lookup(target, station2.rt.now) == Some(answerer.my_link_addr));
    let all = before.push(c1).push(c2);
    assert(all.drop_last() =~= before.push(c1));
    assert(all.last() == c2);
    assert(before.push(c1).drop_last() =~= before);
    assert(before.push(c1).last() == c1);
    let (w0, f0, rt0) = resume_casts(before, station.ipv4.udp.finished, rt3, arp3);
    let (w1, f1, rt1) = resume_casts(before.push(c1), station.ipv4.udp.finished, rt3, arp3);
    assert(w1 == w0 && f1 == f0.push((first, Ok::<(), Fail>(()))) && rt1 == rt0.transmit(
        cast_frame(options, answerer.my_link_addr, target, dest_port1, src_port1, text1),
    ));
    let (w2, f2, rt2) = resume_casts(all, station.ipv4.udp.finished, rt3, arp3);
    assert(w2 == w1 && f2 == f1.push((second, Ok::<(), Fail>(()))) && rt2 == rt1.transmit(
        cast_frame(options, answerer.my_link_addr, target, dest_port2, src_port2, text2),
    ));
}

/// A datagram that one station sends to a bound port of another is seen
/// there exactly once, as it was sent. Whatever the state of the receiving
/// station, the frame that carries the send makes it show one more
/// effect: bytes received over UDP from the sender's address and port at
/// the destination port, in one segment that starts with the payload and
/// goes on with zeros only. The payload is queued at the port, and
/// nothing else changes.
#[verifier::rlimit(40)]
pub proof fn datagram_reaches_bound_port(
    sender: Options,
    receiver: EngineView,
    link_dest: MacAddress,
    dest_addr: Ipv4Addr,
    dest_port: u16,
    src_port: u16,
    text: Seq<u8>,
    iss: u32,
)
    requires
        text.len() <= MAX_UDP_TEXT_SIZE,
        link_dest == receiver.rt.options.my_link_addr || link_dest.is_broadcast(),
        dest_addr == receiver.rt.options.my_ipv4_addr || dest_addr.is_broadcast(),
        receiver.ipv4.udp.ports.dom().contains(dest_port),
    ensures
        receiver.receive(
            cast_frame(sender, link_dest, dest_addr, dest_port, src_port, text),
            iss,
        ) == (
            EngineView {
                rt: receiver.rt.emit(
                    EffectView::BytesReceived {
                        protocol: Ipv4Protocol::Udp,
                        src_addr: sender.my_ipv4_addr,
                        src_port,
                        dest_port,
                        text: seq![pad_segment(text)],
                    },
                ),
                ipv4: Ipv4PeerView {
                    udp: UdpPeerView {
                        ports: receiver.ipv4.udp.ports.insert(
                            dest_port,
                            receiver.ipv4.udp.ports[dest_port].push(text),
                        ),
                        ..receiver.ipv4.udp
                    },
                    ..receiver.ipv4
                },
                ..receiver
            },
            Ok::<(), Fail>(()),
        ),
        pad_segment(text).len() >= text.len(),
        forall|i: int| 0 <= i < text.len() ==> pad_segment(text)[i] == text[i],
        forall|i: int| text.len() <= i < pad_segment(text).len() ==> pad_segment(text)[i] == 0,
{
    let ethernet = Ethernet2Header {
        dest_addr: link_dest,
        src_addr: sender.my_link_addr,
        ether_type: EtherType::Ipv4,
    };
    let header = outbound_header(PROTOCOL_UDP, sender.my_ipv4_addr, dest_addr);
    let udp = UdpHeader { src_port, dest_port };
    let frame = cast_frame(sender, link_dest, dest_addr, dest_port, src_port, text);
    let datagram = datagram_bytes(sender.my_ipv4_addr, dest_addr, udp, text);
    let parsed = parse_frame(frame);
    assert(parsed is Ok && parsed->Ok_0.0 == ethernet && parse_packet(parsed->Ok_0.1) == Ok::<
        (Ipv4Header, Seq<u8>),
        Fail,
    >((header, datagram)) && parse_datagram(header.src_addr, header.dest_addr, datagram) == Ok::<
        (UdpHeader, Seq<u8>),
        Fail,
    >((udp, text))) by {
        udp_frame_round_trip(ethernet, header, udp, text);
    }
    let frame_text = parsed->Ok_0.1;
    assert(parsed == Ok::<(Ethernet2Header, Seq<u8>), Fail>((ethernet, frame_text)));
    let after_udp = receiver.ipv4.udp.receive(
        receiver.rt,
        ethernet.src_addr,
        header,
        datagram,
        packet_span(frame_text),
    );
    assert(after_udp.2 == Ok::<(), Fail>(()));
    let after_ipv4 = receiver.ipv4.receive(receiver.rt, ethernet, frame_text, iss);
    assert(after_ipv4 == (Ipv4PeerView { udp: after_udp.0, ..receiver.ipv4 }, after_udp.1, after_udp.2)) by {
        assert(Ipv4Protocol::of_number(header.protocol) == Some(Ipv4Protocol::Udp));
    }
    assert(receiver.receive(frame, iss) == (
        EngineView { rt: after_ipv4.1, ipv4: after_ipv4.0, ..receiver },
        after_ipv4.2,
    ));
    padded_segment_starts_with_text(text);
}

/// A datagram that one station sends to a port of another that is not
/// bound comes back as an error. The frame that carries the send makes
/// the receiving station show exactly one more effect, the transmission
/// of a port-unreachable report with a next-hop MTU of zero, and changes
/// nothing else. That report, in turn, makes the sending station show
/// exactly one more effect: an error with the same identity and MTU,
/// whose context is the start of the very packet that was sent, with the
/// send's addresses and ports in it.
#[verifier::rlimit(40)]
pub proof fn datagram_to_unbound_port_is_reported(
    sender: EngineView,
    receiver: EngineView,
    link_dest: MacAddress,
    dest_addr: Ipv4Addr,
    dest_port: u16,
    src_port: u16,
    text: Seq<u8>,
    iss: u32,
)
    requires
        text.len() <= MAX_UDP_TEXT_SIZE,
        link_dest == receiver.rt.options.my_link_addr || link_dest.is_broadcast(),
        dest_addr == receiver.rt.options.my_ipv4_addr || dest_addr.is_broadcast(),
        !receiver.ipv4.udp.ports.dom().contains(dest_port),
    ensures
        ({
            let header = outbound_header(PROTOCOL_UDP, sender.rt.options.my_ipv4_addr, dest_addr);
            let datagram = datagram_bytes(
                sender.rt.options.my_ipv4_addr,
                dest_addr,
                UdpHeader { src_port, dest_port },
                text,
            );
            let report = unreachable_frame(
                receiver.rt.options,
                sender.rt.options.my_link_addr,
                sender.rt.options.my_ipv4_addr,
                packet_bytes(header, datagram),
            );
            &&& receiver.receive(
                cast_frame(sender.rt.options, link_dest, dest_addr, dest_port, src_port, text),
                iss,
            ) == (EngineView { rt: receiver.rt.transmit(report), ..receiver }, Ok::<(), Fail>(()))
            &&& sender.receive(report, iss) == (
                EngineView {
                    rt: sender.rt.emit(
                        EffectView::Icmpv4Error {
                            id: ErrorId::DestinationUnreachable(
                                DestinationUnreachable::DestinationPortUnreachable,
                            ),
                            next_hop_mtu: 0,
                            context: unreachable_context(packet_bytes(header, datagram)),
                        },
                    ),
                    ..sender
                },
                Ok::<(), Fail>(()),
            )
            &&& unreachable_context(packet_bytes(header, datagram)) == prefix(
                packet_bytes(header, datagram),
                548,
            )
        }),
{
    let options = sender.rt.options;
    let ethernet = Ethernet2Header {
        dest_addr: link_dest,
        src_addr: options.my_link_addr,
        ether_type: EtherType::Ipv4,
    };
    let header = outbound_header(PROTOCOL_UDP, options.my_ipv4_addr, dest_addr);
    let udp = UdpHeader { src_port, dest_port };
    udp_frame_round_trip(ethernet, header, udp, text);
    let datagram = datagram_bytes(options.my_ipv4_addr, dest_addr, udp, text);
    unreachable_context_fits(packet_bytes(header, datagram));
    error_frame_round_trip(
        Ethernet2Header {
            dest_addr: options.my_link_addr,
            src_addr: receiver.rt.options.my_link_addr,
            ether_type: EtherType::Ipv4,
        },
        outbound_header(1, receiver.rt.options.my_ipv4_addr, options.my_ipv4_addr),
        ErrorId::DestinationUnreachable(DestinationUnreachable::DestinationPortUnreachable),
        0,
        unreachable_context(packet_bytes(header, datagram)),
    );
}

} // verus!
