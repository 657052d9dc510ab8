use vstd::prelude::*;
use crate::effect::{Effect, EffectView};
use crate::fail::Fail;
use crate::options::Options;
use crate::protocols::ethernet2::{EtherType, Ethernet2Header, MacAddress};
use crate::protocols::ipv4::address::Ipv4Addr;
use crate::protocols::ipv4::packet::{outbound_header, Ipv4Header, Ipv4Protocol, PROTOCOL_TCP};
use crate::protocols::tcp::constants::{RETRANSMISSION_TIMEOUT_NANOS, TIME_WAIT_NANOS};
use crate::protocols::tcp::segment::{tcp_frame_bytes, TcpHeader, TcpPacket, MAX_TCP_TEXT_SIZE};
use crate::protocols::tcp::state::{TcpEvent, TcpState};
use crate::runtime::{Runtime, RuntimeView};
use crate::time::{Duration, Instant};
use crate::wire::push_bytes;

verus! {

/// The one segment that a connection has sent and that has not been
/// acknowledged, as contracts speak of it.
pub struct FlightView {
    pub seq: u32,
    pub syn: bool,
    pub fin: bool,
    pub text: Seq<u8>,
    /// How many more times the segment may be sent.
    pub retries_left: usize,
    /// The instant at which the segment counts as lost.
    pub deadline: Instant,
}

/// A connection as contracts speak of it.
pub struct ConnectionView {
    /// The name by which the application knows the connection.
    pub handle: u64,
    pub local_port: u16,
    pub remote_addr: Ipv4Addr,
    pub remote_port: u16,
    /// Whether the application has been told of the connection: at once
    /// for one that it opened itself, on `accept` for one that a remote
    /// station opened.
    pub announced: bool,
    pub state: TcpState,
    /// The remote station's link address, as far as it is known.
    pub link_addr: Option<MacAddress>,
    /// The sequence number of the next byte that has not been sent.
    pub snd_nxt: u32,
    /// The sequence number of the next byte that is expected.
    pub rcv_nxt: u32,
    pub in_flight: Option<FlightView>,
    /// What the application has handed over and has not been sent.
    pub unsent: Seq<u8>,
    /// What has arrived and the application has not taken.
    pub received: Seq<u8>,
    /// The instant by which a deferred acknowledgment goes out alone.
    pub ack_due: Option<Instant>,
    /// The instant until which a connection in `TimeWait` lingers.
    pub linger_until: Instant,
    /// Whether the application has asked to close and the closing segment
    /// has not been sent yet.
    pub close_pending: bool,
    /// Why the connection was given up, if it was.
    pub failure: Option<Fail>,
}

/// The most that one outbound segment carries: the configured maximum
/// segment size, as far as a segment has room.
pub open spec fn segment_limit(options: Options) -> nat {
    if options.tcp.advertised_mss < MAX_TCP_TEXT_SIZE {
        options.tcp.advertised_mss as nat
    } else {
        MAX_TCP_TEXT_SIZE as nat
    }
}

/// The maximum segment size as an opening segment names it.
pub open spec fn mss_value(options: Options) -> u16 {
    if options.tcp.advertised_mss > 0xffff {
        0xffffu16
    } else {
        options.tcp.advertised_mss as u16
    }
}

/// One less than `count`, and zero for zero: the sends that are left after
/// the first.
pub open spec fn after_first(count: usize) -> usize {
    if count > 0 {
        (count - 1) as usize
    } else {
        0
    }
}

/// How long a segment may stay unacknowledged: the handshake timeout for
/// an opening segment, the retransmission timeout for any other.
pub open spec fn flight_timeout(syn: bool, options: Options) -> Duration {
    if syn {
        options.tcp.handshake_timeout
    } else {
        Duration { nanos: RETRANSMISSION_TIMEOUT_NANOS }
    }
}

impl ConnectionView {
    /// The segment in flight fits one packet.
    pub open spec fn wf(self) -> bool {
        self.in_flight is Some ==> self.in_flight->Some_0.text.len() <= MAX_TCP_TEXT_SIZE
    }

    /// The window that every outbound segment advertises: the room that
    /// is left for inbound data, as far as the field can say it.
    pub open spec fn window(self, options: Options) -> u16 {
        if self.received.len() >= options.tcp.receive_window_size {
            0u16
        } else if options.tcp.receive_window_size - self.received.len() > 0xffff {
            0xffffu16
        } else {
            (options.tcp.receive_window_size - self.received.len()) as u16
        }
    }

    /// The header of an outbound segment with the given sequence number
    /// and flags. It acknowledges what has arrived as soon as the remote
    /// station's opening segment has.
    pub open spec fn header(
        self,
        options: Options,
        seq_num: u32,
        syn: bool,
        fin: bool,
    ) -> TcpHeader {
        TcpHeader {
            src_port: self.local_port,
            dest_port: self.remote_port,
            seq_num,
            ack_num: if self.state == TcpState::SynSent {
                0
            } else {
                self.rcv_nxt
            },
            urg: false,
            ack: self.state != TcpState::SynSent,
            psh: false,
            rst: false,
            syn,
            fin,
            window_size: self.window(options),
            urgent_pointer: 0,
            mss: if syn {
                Some(mss_value(options))
            } else {
                None
            },
        }
    }

    /// The frame that carries a segment of this connection to `link_addr`.
    pub open spec fn frame(
        self,
        options: Options,
        link_addr: MacAddress,
        header: TcpHeader,
        text: Seq<u8>,
    ) -> Seq<u8> {
        tcp_frame_bytes(
            Ethernet2Header {
                dest_addr: link_addr,
                src_addr: options.my_link_addr,
                ether_type: EtherType::Ipv4,
            },
            outbound_header(PROTOCOL_TCP, options.my_ipv4_addr, self.remote_addr),
            header,
            text,
        )
    }

    /// The runtime after a segment has been handed over for transmission,
    /// which happens where the remote station's link address is known.
    pub open spec fn emit(self, rt: RuntimeView, header: TcpHeader, text: Seq<u8>) -> RuntimeView {
        match self.link_addr {
            Some(link_addr) => rt.transmit(self.frame(rt.options, link_addr, header, text)),
            None => rt,
        }
    }

    /// The runtime after the segment in flight has been sent.
    pub open spec fn send_flight(self, rt: RuntimeView) -> RuntimeView {
        match self.in_flight {
            Some(f) => self.emit(rt, self.header(rt.options, f.seq, f.syn, f.fin), f.text),
            None => rt,
        }
    }

    /// A bare acknowledgment goes out, and none is due any more.
    pub open spec fn send_ack(self, rt: RuntimeView) -> (ConnectionView, RuntimeView) {
        (
            ConnectionView { ack_due: None, ..self },
            self.emit(rt, self.header(rt.options, self.snd_nxt, false, false), Seq::<u8>::empty()),
        )
    }

    /// The connection is given up for `reason`.
    pub open spec fn abort(self, reason: Fail) -> ConnectionView {
        ConnectionView {
            state: self.state.after(TcpEvent::Abort),
            in_flight: None,
            ack_due: None,
            close_pending: false,
            failure: Some(reason),
            ..self
        }
    }

    /// The connection with its state moved by `event`. A connection that
    /// enters `TimeWait` lingers from `now` on.
    pub open spec fn moved(self, event: TcpEvent, now: Instant) -> ConnectionView {
        let state = self.state.after(event);
        ConnectionView {
            state,
            linger_until: if state == TcpState::TimeWait && self.state != TcpState::TimeWait {
                now.plus(Duration { nanos: TIME_WAIT_NANOS })
            } else {
                self.linger_until
            },
            ..self
        }
    }

    /// A connection that the application opens towards a remote station.
    /// It starts in `SynSent` with its opening segment in flight.
    pub open spec fn opening(
        handle: u64,
        local_port: u16,
        remote_addr: Ipv4Addr,
        remote_port: u16,
        link_addr: Option<MacAddress>,
        iss: u32,
        rt: RuntimeView,
    ) -> ConnectionView {
        ConnectionView {
            handle,
            local_port,
            remote_addr,
            remote_port,
            announced: true,
            state: TcpState::Closed.after(TcpEvent::ActiveOpen),
            link_addr,
            snd_nxt: iss.wrapping_add(1),
            rcv_nxt: 0,
            in_flight: Some(
                FlightView {
                    seq: iss,
                    syn: true,
                    fin: false,
                    text: Seq::<u8>::empty(),
                    retries_left: after_first(rt.options.tcp.handshake_retries),
                    deadline: rt.now.plus(rt.options.tcp.handshake_timeout),
                },
            ),
            unsent: Seq::<u8>::empty(),
            received: Seq::<u8>::empty(),
            ack_due: None,
            linger_until: rt.now,
            close_pending: false,
            failure: None,
        }
    }

    /// A connection that a remote station opens with the opening segment
    /// `header`, at a port where the application listens. It starts in
    /// `SynReceived` with its answer in flight.
    pub open spec fn answering(
        handle: u64,
        remote_addr: Ipv4Addr,
        link_src: MacAddress,
        header: TcpHeader,
        iss: u32,
        rt: RuntimeView,
    ) -> ConnectionView {
        ConnectionView {
            handle,
            local_port: header.dest_port,
            remote_addr,
            remote_port: header.src_port,
            announced: false,
            state: TcpState::Closed.after(TcpEvent::PassiveOpen).after(TcpEvent::SynArrived),
            link_addr: Some(link_src),
            snd_nxt: iss.wrapping_add(1),
            rcv_nxt: header.seq_num.wrapping_add(1),
            in_flight: Some(
                FlightView {
                    seq: iss,
                    syn: true,
                    fin: false,
                    text: Seq::<u8>::empty(),
                    retries_left: after_first(rt.options.tcp.handshake_retries),
                    deadline: rt.now.plus(rt.options.tcp.handshake_timeout),
                },
            ),
            unsent: Seq::<u8>::empty(),
            received: Seq::<u8>::empty(),
            ack_due: None,
            linger_until: rt.now,
            close_pending: false,
            failure: None,
        }
    }

    /// What an inbound segment acknowledges. An acknowledgment of
    /// everything that was sent ends the flight; where the flight opened
    /// or closed the connection, the state moves on.
    pub open spec fn absorb_ack(self, header: TcpHeader, now: Instant) -> ConnectionView {
        match self.in_flight {
            Some(f) => if header.ack && header.ack_num == self.snd_nxt {
                let landed = ConnectionView { in_flight: None, ..self };
                if f.syn || f.fin {
                    landed.moved(TcpEvent::AckArrived, now)
                } else {
                    landed
                }
            } else {
                self
            },
            None => self,
        }
    }

    /// What an inbound segment brings. Data is taken where the state
    /// reads data, the data is the next expected and the window has room
    /// for all of it: it is queued for the application and shown to it,
    /// and its acknowledgment is deferred. Any other data is left, and
    /// the answer, which is then owed at once, says what is expected.
    /// The last component tells whether an answer is owed at once.
    pub open spec fn absorb_text(
        self,
        rt: RuntimeView,
        header: TcpHeader,
        text: Seq<u8>,
    ) -> (ConnectionView, RuntimeView, bool) {
        if text.len() == 0 || !self.state.reads_data() {
            (self, rt, false)
        } else if header.seq_num == self.rcv_nxt && self.received.len() + text.len()
            <= rt.options.tcp.receive_window_size {
            (
                ConnectionView {
                    received: self.received + text,
                    rcv_nxt: self.rcv_nxt.wrapping_add(text.len() as u32),
                    ack_due: match self.ack_due {
                        Some(due) => Some(due),
                        None => Some(rt.now.plus(rt.options.tcp.trailing_ack_delay)),
                    },
                    ..self
                },
                rt.emit(
                    EffectView::BytesReceived {
                        protocol: Ipv4Protocol::Tcp,
                        src_addr: self.remote_addr,
                        src_port: self.remote_port,
                        dest_port: self.local_port,
                        text: seq![text],
                    },
                ),
                false,
            )
        } else {
            (self, rt, true)
        }
    }

    /// What an inbound closing segment does. It counts where the state
    /// reads data and everything before it has been taken; the state
    /// then moves on. In every case it is answered at once.
    pub open spec fn absorb_fin(
        self,
        header: TcpHeader,
        text: Seq<u8>,
        now: Instant,
    ) -> (ConnectionView, bool) {
        if !header.fin {
            (self, false)
        } else if self.state.reads_data() && header.seq_num.wrapping_add(text.len() as u32)
            == self.rcv_nxt {
            (
                ConnectionView { rcv_nxt: self.rcv_nxt.wrapping_add(1), ..self }.moved(
                    TcpEvent::FinArrived,
                    now,
                ),
                true,
            )
        } else {
            (self, true)
        }
    }

    /// The connection sends what it may. With nothing in flight and a
    /// state that writes data, the next stretch of unsent data goes out,
    /// no longer than the segment limit; with no data left and a close
    /// asked for, the closing segment goes out and the state moves on.
    /// Either segment carries the acknowledgment that was deferred.
    pub open spec fn pump(self, rt: RuntimeView) -> (ConnectionView, RuntimeView) {
        if self.in_flight is Some || !self.state.writes_data() {
            (self, rt)
        } else if self.unsent.len() > 0 {
            let n = if self.unsent.len() <= segment_limit(rt.options) {
                self.unsent.len()
            } else {
                segment_limit(rt.options)
            };
            let c = ConnectionView {
                in_flight: Some(
                    FlightView {
                        seq: self.snd_nxt,
                        syn: false,
                        fin: false,
                        text: self.unsent.subrange(0, n as int),
                        retries_left: after_first(rt.options.tcp.retries),
                        deadline: rt.now.plus(flight_timeout(false, rt.options)),
                    },
                ),
                unsent: self.unsent.subrange(n as int, self.unsent.len() as int),
                snd_nxt: self.snd_nxt.wrapping_add(n as u32),
                ack_due: None,
                ..self
            };
            (c, c.send_flight(rt))
        } else if self.close_pending {
            let c = ConnectionView {
                in_flight: Some(
                    FlightView {
                        seq: self.snd_nxt,
                        syn: false,
                        fin: true,
                        text: Seq::<u8>::empty(),
                        retries_left: after_first(rt.options.tcp.retries),
                        deadline: rt.now.plus(flight_timeout(false, rt.options)),
                    },
                ),
                snd_nxt: self.snd_nxt.wrapping_add(1),
                ack_due: None,
                close_pending: false,
                ..self
            }.moved(TcpEvent::Close, rt.now);
            (c, c.send_flight(rt))
        } else {
            (self, rt)
        }
    }

    /// The arrival of a segment from `link_src`. A closed connection
    /// takes nothing. A reset gives the connection up. A connection that
    /// waits for the answer to its opening segment becomes established
    /// by that answer and nothing else. Any other connection takes the
    /// acknowledgment, the data and the closing flag, in that order,
    /// answers at once where an answer is owed, and then sends what it
    /// may. An answer is also owed to an opening segment that arrives
    /// once more after the connection has been established: the remote
    /// station has not heard that it was.
    #[verifier::opaque]
    pub open spec fn on_segment(
        self,
        rt: RuntimeView,
        link_src: MacAddress,
        header: TcpHeader,
        text: Seq<u8>,
    ) -> (ConnectionView, RuntimeView) {
        let c0 = ConnectionView { link_addr: Some(link_src), ..self };
        if self.state == TcpState::Closed {
            (self, rt)
        } else if header.rst {
            (c0.abort(Fail::ConnectionReset), rt)
        } else if self.state == TcpState::SynSent {
            if header.syn && header.ack && header.ack_num == self.snd_nxt {
                let c1 = ConnectionView {
                    rcv_nxt: header.seq_num.wrapping_add(1),
                    in_flight: None,
                    ..c0
                }.moved(TcpEvent::SynAckArrived, rt.now);
                let (c2, rt2) = c1.send_ack(rt);
                c2.pump(rt2)
            } else {
                (c0, rt)
            }
        } else {
            let c1 = c0.absorb_ack(header, rt.now);
            let (c2, rt2, owed_for_text) = c1.absorb_text(rt, header, text);
            let (c3, owed_for_fin) = c2.absorb_fin(header, text, rt.now);
            let owed_for_syn = header.syn && self.state != TcpState::SynReceived;
            let (c4, rt4) = if owed_for_text || owed_for_fin || owed_for_syn {
                c3.send_ack(rt2)
            } else {
                (c3, rt2)
            };
            c4.pump(rt4)
        }
    }

    /// The passing of time. `resolved` is what the resolver knows of the
    /// remote station's link address, for a connection that does not
    /// know it yet. A flight whose deadline has come is sent again as
    /// long as retries are left; otherwise the connection is given up,
    /// for a handshake timeout where the flight opened the connection
    /// and for exhausted retransmissions where it did not. A deferred
    /// acknowledgment whose time has come goes out alone. A connection
    /// that has lingered long enough is closed.
    #[verifier::opaque]
    pub open spec fn on_tick(
        self,
        rt: RuntimeView,
        resolved: Option<MacAddress>,
    ) -> (ConnectionView, RuntimeView) {
        let c0 = ConnectionView {
            link_addr: match self.link_addr {
                Some(link_addr) => Some(link_addr),
                None => resolved,
            },
            ..self
        };
        let (c1, rt1) = match c0.in_flight {
            Some(f) => if rt.now.nanos >= f.deadline.nanos {
                if f.retries_left > 0 {
                    let c = ConnectionView {
                        in_flight: Some(
                            FlightView {
                                retries_left: (f.retries_left - 1) as usize,
                                deadline: rt.now.plus(flight_timeout(f.syn, rt.options)),
                                ..f
                            },
                        ),
                        ..c0
                    };
                    (c, c.send_flight(rt))
                } else {
                    (
                        c0.abort(
                            if f.syn {
                                Fail::HandshakeTimeout
                            } else {
                                Fail::RetransmissionExhausted
                            },
                        ),
                        rt,
                    )
                }
            } else {
                (c0, rt)
            },
            None => (c0, rt),
        };
        let (c2, rt2) = match c1.ack_due {
            Some(due) => if rt.now.nanos >= due.nanos {
                c1.send_ack(rt1)
            } else {
                (c1, rt1)
            },
            None => (c1, rt1),
        };
        let c3 = if c2.state == TcpState::TimeWait && rt.now.nanos >= c2.linger_until.nanos {
            c2.moved(TcpEvent::TimeWaitExpired, rt.now)
        } else {
            c2
        };
        (c3, rt2)
    }

    /// The application hands `bytes` over. They are queued, and sent as
    /// far as may be, on a connection that is open or opening and that
    /// the application has not closed; any other connection refuses
    /// them, with the failure that gave it up where there is one.
    #[verifier::opaque]
    pub open spec fn send(
        self,
        rt: RuntimeView,
        bytes: Seq<u8>,
    ) -> (ConnectionView, RuntimeView, Result<(), Fail>) {
        if !self.close_pending && (self.state.writes_data() || self.state == TcpState::SynSent
            || self.state == TcpState::SynReceived) {
            let (c, rt1) = ConnectionView { unsent: self.unsent + bytes, ..self }.pump(rt);
            (c, rt1, Ok(()))
        } else {
            (
                self,
                rt,
                Err(
                    match self.failure {
                        Some(reason) => reason,
                        None => Fail::ConnectionClosed,
                    },
                ),
            )
        }
    }

    /// The application takes what has arrived.
    pub open spec fn recv(self) -> (ConnectionView, Seq<u8>) {
        (ConnectionView { received: Seq::<u8>::empty(), ..self }, self.received)
    }

    /// The application closes the connection. One that still waits for
    /// the answer to its opening segment is closed at once. One that is
    /// open, or about to be, sends its closing segment once everything
    /// before it has been sent and acknowledged. On any other connection
    /// there is nothing left to close.
    #[verifier::opaque]
    pub open spec fn close(self, rt: RuntimeView) -> (ConnectionView, RuntimeView) {
        if self.state == TcpState::SynSent {
            (
                ConnectionView { in_flight: None, ack_due: None, ..self }.moved(
                    TcpEvent::Close,
                    rt.now,
                ),
                rt,
            )
        } else if self.state.writes_data() || self.state == TcpState::SynReceived {
            ConnectionView { close_pending: true, ..self }.pump(rt)
        } else {
            (self, rt)
        }
    }
}

/// No outbound segment carries more than the configured maximum segment
/// size: what a connection puts in flight when it sends what it may is
/// within the limit.
pub proof fn flight_respects_segment_limit(c: ConnectionView, rt: RuntimeView)
    requires
        c.in_flight is None,
    ensures
        c.pump(rt).0.in_flight is Some ==> c.pump(rt).0.in_flight->Some_0.text.len() <= segment_limit(
            rt.options,
        ),
        segment_limit(rt.options) <= rt.options.tcp.advertised_mss,
        segment_limit(rt.options) <= MAX_TCP_TEXT_SIZE,
        c.pump(rt).0.in_flight is Some ==> c.pump(rt).0.in_flight->Some_0.text + c.pump(rt).0.unsent
            == c.unsent,
{
    let after = c.pump(rt).0;
    if after.in_flight is Some {
        assert(after.in_flight->Some_0.text + after.unsent =~= c.unsent);
    }
}

/// A connection buffers no more inbound data than its window allows:
/// data that would not fit is left on the wire.
pub proof fn window_is_never_overrun(
    c: ConnectionView,
    rt: RuntimeView,
    header: TcpHeader,
    text: Seq<u8>,
)
    requires
        c.received.len() <= rt.options.tcp.receive_window_size,
    ensures
        c.absorb_text(rt, header, text).0.received.len() <= rt.options.tcp.receive_window_size,
        c.absorb_text(rt, header, text).0.received == c.received || c.absorb_text(
            rt,
            header,
            text,
        ).0.received == c.received + text,
{
}

/// An opening segment that stays unanswered after its last retry fails
/// the connection attempt with a handshake timeout; any other segment
/// that does so aborts the connection for exhausted retransmissions.
/// Either way the connection is closed and nothing more is sent for it.
pub proof fn exhausted_flight_closes_connection(
    c: ConnectionView,
    rt: RuntimeView,
    resolved: Option<MacAddress>,
)
    requires
        c.in_flight is Some,
        c.in_flight->Some_0.retries_left == 0,
        rt.now.nanos >= c.in_flight->Some_0.deadline.nanos,
    ensures
        ({
            let (after, rt1) = c.on_tick(rt, resolved);
            &&& after.state == TcpState::Closed
            &&& after.in_flight is None
            &&& after.failure == Some(
                if c.in_flight->Some_0.syn {
                    Fail::HandshakeTimeout
                } else {
                    Fail::RetransmissionExhausted
                },
            )
            &&& rt1 == rt
        }),
{
    reveal(ConnectionView::on_tick);
}

/// A flight that stays unanswered while retries are left is sent again,
/// as it was, with one retry less and a new deadline.
pub proof fn unanswered_flight_is_sent_again(
    c: ConnectionView,
    rt: RuntimeView,
    resolved: Option<MacAddress>,
)
    requires
        c.in_flight is Some,
        c.in_flight->Some_0.retries_left > 0,
        rt.now.nanos >= c.in_flight->Some_0.deadline.nanos,
        c.ack_due is None,
        c.state != TcpState::TimeWait,
    ensures
        ({
            let (after, rt1) = c.on_tick(rt, resolved);
            let f = c.in_flight->Some_0;
            &&& after.state == c.state
            &&& after.in_flight == Some(
                FlightView {
                    retries_left: (f.retries_left - 1) as usize,
                    deadline: rt.now.plus(flight_timeout(f.syn, rt.options)),
                    ..f
                },
            )
            &&& rt1 == after.send_flight(rt)
        }),
{
    reveal(ConnectionView::on_tick);
}

/// Three segments establish a connection at both ends. One station
/// opens; the other, which listens, answers the opening segment; the
/// opener takes the answer, is established and acknowledges it; the
/// acknowledgment establishes the listener. Each end then expects the
/// byte that follows the other's opening segment.
#[verifier::rlimit(40)]
pub proof fn handshake_establishes_both_ends(
    opener: ConnectionView,
    rt_opener: RuntimeView,
    rt_listener: RuntimeView,
    listener_handle: u64,
    opener_addr: Ipv4Addr,
    opener_link: MacAddress,
    listener_link: MacAddress,
    iss_opener: u32,
    iss_listener: u32,
)
    requires
        opener == ConnectionView::opening(
            opener.handle,
            opener.local_port,
            opener.remote_addr,
            opener.remote_port,
            opener.link_addr,
            iss_opener,
            rt_opener,
        ),
    ensures
        ({
            let syn = opener.header(rt_opener.options, iss_opener, true, false);
            let listener = ConnectionView::answering(
                listener_handle,
                opener_addr,
                opener_link,
                syn,
                iss_listener,
                rt_listener,
            );
            let syn_ack = listener.header(rt_listener.options, iss_listener, true, false);
            let (opener1, rt_opener1) = opener.on_segment(
                rt_opener,
                listener_link,
                syn_ack,
                Seq::<u8>::empty(),
            );
            let ack = opener1.header(rt_opener.options, opener1.snd_nxt, false, false);
            let (listener1, rt_listener1) = listener.on_segment(
                rt_listener,
                opener_link,
                ack,
                Seq::<u8>::empty(),
            );
            &&& syn.syn && !syn.ack
            &&& listener.state == TcpState::SynReceived
            &&& syn_ack.syn && syn_ack.ack && syn_ack.ack_num == iss_opener.wrapping_add(1)
            &&& opener1.state == TcpState::Established
            &&& opener1.in_flight is None
            &&& opener1.rcv_nxt == iss_listener.wrapping_add(1)
            &&& !ack.syn && ack.ack && ack.ack_num == iss_listener.wrapping_add(1)
            &&& listener1.state == TcpState::Established
            &&& listener1.in_flight is None
            &&& listener1.rcv_nxt == iss_opener.wrapping_add(1)
            &&& listener1.local_port == opener.remote_port
            &&& listener1.remote_port == opener.local_port
        }),
{
    reveal(ConnectionView::on_segment);
}

/// Data that one end sends arrives at the other once, and its
/// acknowledgment ends the flight. An end that may write sends what it
/// holds, which fits one segment; the other end, which expects just that
/// and has room for it, takes it behind what it has already; the answer
/// of the other end acknowledges all of it, and the sender, on that
/// answer, has nothing in flight and nothing left to send.
#[verifier::rlimit(60)]
pub proof fn data_is_delivered_and_acknowledged(
    sender: ConnectionView,
    receiver: ConnectionView,
    rt_sender: RuntimeView,
    rt_receiver: RuntimeView,
    link_sender: MacAddress,
    link_receiver: MacAddress,
)
    requires
        sender.state.writes_data(),
        sender.in_flight is None,
        !sender.close_pending,
        0 < sender.unsent.len() <= segment_limit(rt_sender.options),
        receiver.state.reads_data(),
        receiver.rcv_nxt == sender.snd_nxt,
        receiver.received.len() + sender.unsent.len()
            <= rt_receiver.options.tcp.receive_window_size,
    ensures
        ({
            let (sender1, rt_sender1) = sender.pump(rt_sender);
            let flight = sender1.in_flight->Some_0;
            let data = sender1.header(rt_sender.options, flight.seq, flight.syn, flight.fin);
            let (receiver1, rt_receiver1) = receiver.on_segment(
                rt_receiver,
                link_sender,
                data,
                flight.text,
            );
            let ack = receiver1.header(rt_receiver.options, receiver1.snd_nxt, false, false);
            let (sender2, rt_sender2) = sender1.on_segment(
                rt_sender1,
                link_receiver,
                ack,
                Seq::<u8>::empty(),
            );
            &&& sender1.in_flight is Some
            &&& flight.text == sender.unsent
            &&& sender1.unsent.len() == 0
            &&& receiver1.received == receiver.received + sender.unsent
            &&& receiver1.rcv_nxt == sender1.snd_nxt
            &&& ack.ack && ack.ack_num == sender1.snd_nxt
            &&& sender2.in_flight is None
            &&& sender2.unsent.len() == 0
            &&& sender2.state == sender.state
        }),
{
    reveal(ConnectionView::on_segment);
    let (sender1, rt_sender1) = sender.pump(rt_sender);
    let flight = sender1.in_flight->Some_0;
    assert(flight.text =~= sender.unsent);
    assert(sender1.unsent =~= Seq::<u8>::empty());
    let data = sender1.header(rt_sender.options, flight.seq, flight.syn, flight.fin);
    let c0 = ConnectionView { link_addr: Some(link_sender), ..receiver };
    let c1 = c0.absorb_ack(data, rt_receiver.now);
    assert(c1.state.reads_data());
    assert(c1.rcv_nxt == receiver.rcv_nxt && c1.received == receiver.received);
    let (c2, rt2, owed) = c1.absorb_text(rt_receiver, data, flight.text);
    assert(c2.received == receiver.received + sender.unsent);
    assert(c2.rcv_nxt == sender1.snd_nxt);
    let (c3, owed_for_fin) = c2.absorb_fin(data, flight.text, rt_receiver.now);
    assert(c3 == c2);
}

pub struct Connection {
    handle: u64,
    local_port: u16,
    remote_addr: Ipv4Addr,
    remote_port: u16,
    announced: bool,
    state: TcpState,
    link_addr: Option<MacAddress>,
    snd_nxt: u32,
    rcv_nxt: u32,
    flying: bool,
    flight_seq: u32,
    flight_syn: bool,
    flight_fin: bool,
    flight_text: Vec<u8>,
    flight_retries_left: usize,
    flight_deadline: Instant,
    unsent: Vec<u8>,
    received: Vec<u8>,
    ack_due: Option<Instant>,
    linger_until: Instant,
    close_pending: bool,
    failure: Option<Fail>,
}

impl View for Connection {
    type V = ConnectionView;

    closed spec fn view(&self) -> ConnectionView {
        ConnectionView {
            handle: self.handle,
            local_port: self.local_port,
            remote_addr: self.remote_addr,
            remote_port: self.remote_port,
            announced: self.announced,
            state: self.state,
            link_addr: self.link_addr,
            snd_nxt: self.snd_nxt,
            rcv_nxt: self.rcv_nxt,
            in_flight: if self.flying {
                Some(
                    FlightView {
                        seq: self.flight_seq,
                        syn: self.flight_syn,
                        fin: self.flight_fin,
                        text: self.flight_text@,
                        retries_left: self.flight_retries_left,
                        deadline: self.flight_deadline,
                    },
                )
            } else {
                None
            },
            unsent: self.unsent@,
            received: self.received@,
            ack_due: self.ack_due,
            linger_until: self.linger_until,
            close_pending: self.close_pending,
            failure: self.failure,
        }
    }
}

fn sends_after_first(count: usize) -> (left: usize)
    ensures
        left == after_first(count),
{
    if count > 0 {
        count - 1
    } else {
        0
    }
}

fn timeout_of(syn: bool, options: &Options) -> (timeout: Duration)
    ensures
        timeout == flight_timeout(syn, *options),
{
    if syn {
        options.tcp.handshake_timeout
    } else {
        Duration { nanos: RETRANSMISSION_TIMEOUT_NANOS }
    }
}

impl Connection {
    /// Opens a connection towards a remote station and sends its opening
    /// segment, where the remote station's link address is known.
    pub fn open(
        rt: &mut Runtime,
        handle: u64,
        local_port: u16,
        remote_addr: Ipv4Addr,
        remote_port: u16,
        link_addr: Option<MacAddress>,
        iss: u32,
    ) -> (c: Connection)
        ensures
            c@ == ConnectionView::opening(
                handle,
                local_port,
                remote_addr,
                remote_port,
                link_addr,
                iss,
                old(rt)@,
            ),
            final(rt)@ == c@.send_flight(old(rt)@),
            c@.wf(),
    {
        let options = rt.options();
        let now = rt.now();
        let c = Connection {
            handle,
            local_port,
            remote_addr,
            remote_port,
            announced: true,
            state: TcpState::Closed.after(TcpEvent::ActiveOpen),
            link_addr,
            snd_nxt: iss.wrapping_add(1),
            rcv_nxt: 0,
            flying: true,
            flight_seq: iss,
            flight_syn: true,
            flight_fin: false,
            flight_text: Vec::new(),
            flight_retries_left: sends_after_first(options.tcp.handshake_retries),
            flight_deadline: rt.wait(options.tcp.handshake_timeout).when,
            unsent: Vec::new(),
            received: Vec::new(),
            ack_due: None,
            linger_until: now,
            close_pending: false,
            failure: None,
        };
        assert(c@.in_flight->Some_0.text =~= Seq::<u8>::empty());
        assert(c@.unsent =~= Seq::<u8>::empty());
        c.send_flight(rt);
        c
    }

    /// Takes up a connection that a remote station opens, and sends the
    /// answer to its opening segment.
    pub fn answer(
        rt: &mut Runtime,
        handle: u64,
        remote_addr: Ipv4Addr,
        link_src: MacAddress,
        header: &TcpHeader,
        iss: u32,
    ) -> (c: Connection)
        ensures
            c@ == ConnectionView::answering(handle, remote_addr, link_src, *header, iss, old(rt)@),
            final(rt)@ == c@.send_flight(old(rt)@),
            c@.wf(),
    {
        let options = rt.options();
        let now = rt.now();
        let c = Connection {
            handle,
            local_port: header.dest_port,
            remote_addr,
            remote_port: header.src_port,
            announced: false,
            state: TcpState::Closed.after(TcpEvent::PassiveOpen).after(TcpEvent::SynArrived),
            link_addr: Some(link_src),
            snd_nxt: iss.wrapping_add(1),
            rcv_nxt: header.seq_num.wrapping_add(1),
            flying: true,
            flight_seq: iss,
            flight_syn: true,
            flight_fin: false,
            flight_text: Vec::new(),
            flight_retries_left: sends_after_first(options.tcp.handshake_retries),
            flight_deadline: rt.wait(options.tcp.handshake_timeout).when,
            unsent: Vec::new(),
            received: Vec::new(),
            ack_due: None,
            linger_until: now,
            close_pending: false,
            failure: None,
        };
        assert(c@.in_flight->Some_0.text =~= Seq::<u8>::empty());
        assert(c@.unsent =~= Seq::<u8>::empty());
        c.send_flight(rt);
        c
    }

    pub fn handle(&self) -> (handle: u64)
        ensures
            handle == self@.handle,
    {
        self.handle
    }

    pub fn state(&self) -> (state: TcpState)
        ensures
            state == self@.state,
    {
        self.state
    }

    pub fn failure(&self) -> (failure: Option<Fail>)
        ensures
            failure == self@.failure,
    {
        self.failure
    }

    pub fn local_port(&self) -> (port: u16)
        ensures
            port == self@.local_port,
    {
        self.local_port
    }

    pub fn remote_addr(&self) -> (addr: Ipv4Addr)
        ensures
            addr == self@.remote_addr,
    {
        self.remote_addr
    }

    pub fn remote_port(&self) -> (port: u16)
        ensures
            port == self@.remote_port,
    {
        self.remote_port
    }

    pub fn is_announced(&self) -> (announced: bool)
        ensures
            announced == self@.announced,
    {
        self.announced
    }

    pub fn has_link_addr(&self) -> (known: bool)
        ensures
            known == self@.link_addr is Some,
    {
        self.link_addr.is_some()
    }

    /// Tells the application of the connection.
    pub fn announce(&mut self)
        ensures
            final(self)@ == (ConnectionView { announced: true, ..old(self)@ }),
    {
        self.announced = true;
    }

    fn make_header(&self, options: &Options, seq_num: u32, syn: bool, fin: bool) -> (h: TcpHeader)
        ensures
            h == self@.header(*options, seq_num, syn, fin),
    {
        let size = options.tcp.receive_window_size;
        let window_size: u16 = if self.received.len() >= size {
            0
        } else if size - self.received.len() > 0xffff {
            0xffff
        } else {
            (size - self.received.len()) as u16
        };
        let mss_value: u16 = if options.tcp.advertised_mss > 0xffff {
            0xffff
        } else {
            options.tcp.advertised_mss as u16
        };
        let synchronised = self.state != TcpState::SynSent;
        TcpHeader {
            src_port: self.local_port,
            dest_port: self.remote_port,
            seq_num,
            ack_num: if synchronised {
                self.rcv_nxt
            } else {
                0
            },
            urg: false,
            ack: synchronised,
            psh: false,
            rst: false,
            syn,
            fin,
            window_size,
            urgent_pointer: 0,
            mss: if syn {
                Some(mss_value)
            } else {
                None
            },
        }
    }

    fn emit(&self, rt: &mut Runtime, header: TcpHeader, text: &[u8])
        requires
            text@.len() <= MAX_TCP_TEXT_SIZE,
        ensures
            final(rt)@ == self@.emit(old(rt)@, header, text@),
    {
        match self.link_addr {
            Some(link_addr) => {
                let options = rt.options();
                let packet = TcpPacket {
                    ethernet: Ethernet2Header {
                        dest_addr: link_addr,
                        src_addr: options.my_link_addr,
                        ether_type: EtherType::Ipv4,
                    },
                    ipv4: Ipv4Header::new(Ipv4Protocol::Tcp, options.my_ipv4_addr, self.remote_addr),
                    tcp: header,
                    text,
                };
                rt.transmit(packet.to_bytes());
            },
            None => {},
        }
    }

    fn send_flight(&self, rt: &mut Runtime)
        requires
            self@.wf(),
        ensures
            final(rt)@ == self@.send_flight(old(rt)@),
    {
        if self.flying {
            let options = rt.options();
            let header = self.make_header(&options, self.flight_seq, self.flight_syn, self.flight_fin);
            self.emit(rt, header, self.flight_text.as_slice());
        }
    }

    fn send_ack(&mut self, rt: &mut Runtime)
        ensures
            (final(self)@, final(rt)@) == old(self)@.send_ack(old(rt)@),
            old(self)@.wf() ==> final(self)@.wf(),
    {
        let options = rt.options();
        let header = self.make_header(&options, self.snd_nxt, false, false);
        let text: Vec<u8> = Vec::new();
        assert(text@ =~= Seq::<u8>::empty());
        self.emit(rt, header, text.as_slice());
        self.ack_due = None;
    }

    fn abort(&mut self, reason: Fail)
        ensures
            final(self)@ == old(self)@.abort(reason),
            final(self)@.wf(),
    {
        self.state = self.state.after(TcpEvent::Abort);
        self.flying = false;
        self.ack_due = None;
        self.close_pending = false;
        self.failure = Some(reason);
    }

    fn move_by(&mut self, event: TcpEvent, now: Instant)
        ensures
            final(self)@ == old(self)@.moved(event, now),
            old(self)@.wf() ==> final(self)@.wf(),
    {
        let state = self.state.after(event);
        if state == TcpState::TimeWait && self.state != TcpState::TimeWait {
            self.linger_until = now.saturating_add(Duration { nanos: TIME_WAIT_NANOS });
        }
        self.state = state;
    }

    fn absorb_ack(&mut self, header: &TcpHeader, now: Instant)
        ensures
            final(self)@ == old(self)@.absorb_ack(*header, now),
            old(self)@.wf() ==> final(self)@.wf(),
    {
        if self.flying && header.ack && header.ack_num == self.snd_nxt {
            self.flying = false;
            if self.flight_syn || self.flight_fin {
                self.move_by(TcpEvent::AckArrived, now);
            }
        }
    }

    fn absorb_text(&mut self, rt: &mut Runtime, header: &TcpHeader, text: &[u8]) -> (owed: bool)
        requires
            text@.len() <= 0xffff,
        ensures
            (final(self)@, final(rt)@, owed) == old(self)@.absorb_text(old(rt)@, *header, text@),
            old(self)@.wf() ==> final(self)@.wf(),
    {
        let options = rt.options();
        if text.len() == 0 || !self.state.reads_data() {
            false
        } else if header.seq_num == self.rcv_nxt && self.received.len()
            <= options.tcp.receive_window_size && text.len() <= options.tcp.receive_window_size
            - self.received.len() {
            push_bytes(&mut self.received, text, 0, text.len());
            assert(text@.subrange(0, text@.len() as int) =~= text@);
            self.rcv_nxt = self.rcv_nxt.wrapping_add(text.len() as u32);
            match self.ack_due {
                Some(_) => {},
                None => {
                    self.ack_due = Some(rt.wait(options.tcp.trailing_ack_delay).when);
                },
            }
            let mut segment: Vec<u8> = Vec::new();
            push_bytes(&mut segment, text, 0, text.len());
            let mut segments: Vec<Vec<u8>> = Vec::new();
            segments.push(segment);
            let effect = Effect::BytesReceived {
                protocol: Ipv4Protocol::Tcp,
                src_addr: self.remote_addr,
                src_port: self.remote_port,
                dest_port: self.local_port,
                text: segments,
            };
            assert(effect@->BytesReceived_text =~= seq![text@]);
            rt.emit_effect(effect);
            false
        } else {
            true
        }
    }

    fn absorb_fin(&mut self, header: &TcpHeader, text: &[u8], now: Instant) -> (owed: bool)
        requires
            text@.len() <= 0xffff,
        ensures
            (final(self)@, owed) == old(self)@.absorb_fin(*header, text@, now),
            old(self)@.wf() ==> final(self)@.wf(),
    {
        if !header.fin {
            false
        } else if self.state.reads_data() && header.seq_num.wrapping_add(text.len() as u32)
            == self.rcv_nxt {
            self.rcv_nxt = self.rcv_nxt.wrapping_add(1);
            self.move_by(TcpEvent::FinArrived, now);
            true
        } else {
            true
        }
    }

    fn pump(&mut self, rt: &mut Runtime)
        requires
            old(self)@.wf(),
        ensures
            (final(self)@, final(rt)@) == old(self)@.pump(old(rt)@),
            final(self)@.wf(),
    {
        if self.flying || !self.state.writes_data() {
            return ;
        }
        let options = rt.options();
        let now = rt.now();
        if self.unsent.len() > 0 {
            let limit: usize = if options.tcp.advertised_mss < MAX_TCP_TEXT_SIZE {
                options.tcp.advertised_mss
            } else {
                MAX_TCP_TEXT_SIZE
            };
            let n: usize = if self.unsent.len() <= limit {
                self.unsent.len()
            } else {
                limit
            };
            let mut text: Vec<u8> = Vec::new();
            push_bytes(&mut text, self.unsent.as_slice(), 0, n);
            let mut rest: Vec<u8> = Vec::new();
            push_bytes(&mut rest, self.unsent.as_slice(), n, self.unsent.len());
            self.flying = true;
            self.flight_seq = self.snd_nxt;
            self.flight_syn = false;
            self.flight_fin = false;
            self.flight_text = text;
            self.flight_retries_left = sends_after_first(options.tcp.retries);
            self.flight_deadline = rt.wait(timeout_of(false, &options)).when;
            self.unsent = rest;
            self.snd_nxt = self.snd_nxt.wrapping_add(n as u32);
            self.ack_due = None;
            self.send_flight(rt);
        } else if self.close_pending {
            self.flying = true;
            self.flight_seq = self.snd_nxt;
            self.flight_syn = false;
            self.flight_fin = true;
            self.flight_text = Vec::new();
            self.flight_retries_left = sends_after_first(options.tcp.retries);
            self.flight_deadline = rt.wait(timeout_of(false, &options)).when;
            self.snd_nxt = self.snd_nxt.wrapping_add(1);
            self.ack_due = None;
            self.close_pending = false;
            assert(self@.in_flight->Some_0.text =~= Seq::<u8>::empty());
            self.move_by(TcpEvent::Close, now);
            self.send_flight(rt);
        }
    }

    /// Takes in a segment that came from `link_src`.
    #[verifier::rlimit(40)]
    pub fn on_segment(
        &mut self,
        rt: &mut Runtime,
        link_src: MacAddress,
        header: &TcpHeader,
        text: &[u8],
    )
        requires
            old(self)@.wf(),
            text@.len() <= 0xffff,
        ensures
            (final(self)@, final(rt)@) == old(self)@.on_segment(old(rt)@, link_src, *header, text@),
            final(self)@.wf(),
    {
        reveal(ConnectionView::on_segment);
        if self.state == TcpState::Closed {
            return ;
        }
        self.link_addr = Some(link_src);
        if header.rst {
            self.abort(Fail::ConnectionReset);
            return ;
        }
        let now = rt.now();
        let options = rt.options();
        if self.state == TcpState::SynSent {
            if header.syn && header.ack && header.ack_num == self.snd_nxt {
                self.rcv_nxt = header.seq_num.wrapping_add(1);
                self.flying = false;
                self.move_by(TcpEvent::SynAckArrived, now);
                self.send_ack(rt);
                self.pump(rt);
            }
            return ;
        }
        let owed_for_syn = header.syn && self.state != TcpState::SynReceived;
        self.absorb_ack(header, now);
        let owed_for_text = self.absorb_text(rt, header, text);
        let owed_for_fin = self.absorb_fin(header, text, now);
        if owed_for_text || owed_for_fin || owed_for_syn {
            self.send_ack(rt);
        }
        self.pump(rt);
    }

    /// Looks at the clock on behalf of the connection's timers.
    pub fn on_tick(&mut self, rt: &mut Runtime, resolved: Option<MacAddress>)
        requires
            old(self)@.wf(),
        ensures
            (final(self)@, final(rt)@) == old(self)@.on_tick(old(rt)@, resolved),
            final(self)@.wf(),
    {
        reveal(ConnectionView::on_tick);
        let now = rt.now();
        let options = rt.options();
        match self.link_addr {
            Some(_) => {},
            None => {
                self.link_addr = resolved;
            },
        }
        if self.flying && rt.wait_until(self.flight_deadline).has_completed(rt) {
            if self.flight_retries_left > 0 {
                self.flight_retries_left = self.flight_retries_left - 1;
                self.flight_deadline = rt.wait(timeout_of(self.flight_syn, &options)).when;
                self.send_flight(rt);
            } else {
                let reason = if self.flight_syn {
                    Fail::HandshakeTimeout
                } else {
                    Fail::RetransmissionExhausted
                };
                self.abort(reason);
            }
        }
        let due = match self.ack_due {
            Some(due) => rt.wait_until(due).has_completed(rt),
            None => false,
        };
        if due {
            self.send_ack(rt);
        }
        if self.state == TcpState::TimeWait && rt.wait_until(self.linger_until).has_completed(rt) {
            self.move_by(TcpEvent::TimeWaitExpired, now);
        }
    }

    /// Queues `bytes` for sending and sends what may be sent.
    pub fn send(&mut self, rt: &mut Runtime, bytes: &[u8]) -> (r: Result<(), Fail>)
        requires
            old(self)@.wf(),
        ensures
            (final(self)@, final(rt)@, r) == old(self)@.send(old(rt)@, bytes@),
            final(self)@.wf(),
    {
        reveal(ConnectionView::send);
        if !self.close_pending && (self.state.writes_data() || self.state == TcpState::SynSent
            || self.state == TcpState::SynReceived) {
            push_bytes(&mut self.unsent, bytes, 0, bytes.len());
            assert(bytes@.subrange(0, bytes@.len() as int) =~= bytes@);
            self.pump(rt);
            Ok(())
        } else {
            Err(
                match self.failure {
                    Some(reason) => reason,
                    None => Fail::ConnectionClosed,
                },
            )
        }
    }

    /// Hands out what has arrived.
    pub fn recv(&mut self) -> (bytes: Vec<u8>)
        ensures
            (final(self)@, bytes@) == old(self)@.recv(),
            old(self)@.wf() ==> final(self)@.wf(),
    {
        let mut bytes: Vec<u8> = Vec::new();
        push_bytes(&mut bytes, self.received.as_slice(), 0, self.received.len());
        assert(self.received@.subrange(0, self.received@.len() as int) =~= self.received@);
        self.received = Vec::new();
        assert(self.received@ =~= Seq::<u8>::empty());
        bytes
    }

    /// Closes the connection on the application's behalf.
    pub fn close(&mut self, rt: &mut Runtime)
        requires
            old(self)@.wf(),
        ensures
            (final(self)@, final(rt)@) == old(self)@.close(old(rt)@),
            final(self)@.wf(),
    {
        reveal(ConnectionView::close);
        if self.state == TcpState::SynSent {
            self.flying = false;
            self.ack_due = None;
            self.move_by(TcpEvent::Close, rt.now());
        } else if self.state.writes_data() || self.state == TcpState::SynReceived {
            self.close_pending = true;
            self.pump(rt);
        }
    }
}

} // verus!
