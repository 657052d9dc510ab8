use vstd::prelude::*;
use std::collections::HashSet;
use crate::fail::Fail;
use crate::protocols::arp::peer::{ArpPeer, ArpPeerView, ArpQuery};
use crate::protocols::ethernet2::MacAddress;
use crate::protocols::ipv4::address::Ipv4Addr;
use crate::protocols::ipv4::packet::{Ipv4Header, Ipv4Packet};
use crate::protocols::tcp::connection::{Connection, ConnectionView};
use crate::protocols::tcp::segment::{parse_segment, TcpSegment};
use crate::protocols::tcp::state::TcpState;
use crate::runtime::{Runtime, RuntimeView};

verus! {

/// Whether `c` is the live connection between the given end points.
pub open spec fn at_end_points(
    c: ConnectionView,
    local_port: u16,
    remote_addr: Ipv4Addr,
    remote_port: u16,
) -> bool {
    c.state != TcpState::Closed && c.local_port == local_port && c.remote_addr == remote_addr
        && c.remote_port == remote_port
}

/// Whether `c` waits at `port` for the application to accept it.
pub open spec fn acceptable(c: ConnectionView, port: u16) -> bool {
    !c.announced && c.state == TcpState::Established && c.local_port == port
}

/// The first connection from index `from` on that lives between the given
/// end points.
pub open spec fn find_end_points(
    conns: Seq<ConnectionView>,
    local_port: u16,
    remote_addr: Ipv4Addr,
    remote_port: u16,
    from: int,
) -> Option<int>
    decreases conns.len() - from,
{
    if from < 0 || from >= conns.len() {
        None
    } else if at_end_points(conns[from], local_port, remote_addr, remote_port) {
        Some(from)
    } else {
        find_end_points(conns, local_port, remote_addr, remote_port, from + 1)
    }
}

/// The first connection from index `from` on that has the given handle.
pub open spec fn find_handle(conns: Seq<ConnectionView>, handle: u64, from: int) -> Option<int>
    decreases conns.len() - from,
{
    if from < 0 || from >= conns.len() {
        None
    } else if conns[from].handle == handle {
        Some(from)
    } else {
        find_handle(conns, handle, from + 1)
    }
}

/// The first connection from index `from` on that waits at `port` to be
/// accepted.
pub open spec fn find_acceptable(conns: Seq<ConnectionView>, port: u16, from: int) -> Option<int>
    decreases conns.len() - from,
{
    if from < 0 || from >= conns.len() {
        None
    } else if acceptable(conns[from], port) {
        Some(from)
    } else {
        find_acceptable(conns, port, from + 1)
    }
}

/// What becomes of the connections, and of the runtime, when the clock is
/// looked at: each connection in turn looks at its timers, with what the
/// resolver knows of its remote station.
pub open spec fn tick_all(
    conns: Seq<ConnectionView>,
    rt: RuntimeView,
    arp: ArpPeerView,
) -> ( Seq<ConnectionView>, RuntimeView, )
    decreases conns.len(),
{
    if conns.len() == 0 {
        (conns, rt)
    } else {
        let (done, rt1) = tick_all(conns.drop_last(), rt, arp);
        let (c, rt2) = conns.last().on_tick(rt1, arp.lookup(conns.last().remote_addr, rt1.now));
        (done.push(c), rt2)
    }
}

/// A transmission-control peer as contracts speak of it.
pub struct TcpPeerView {
    /// The ports at which the application waits for connections.
    pub listening: Set<u16>,
    /// The connections, in the order in which they were opened.
    pub connections: Seq<ConnectionView>,
    /// The handle that the next connection gets.
    pub next_handle: u64,
}

impl TcpPeerView {
    pub open spec fn wf(self) -> bool {
        forall|i: int| 0 <= i < self.connections.len() ==> (#[trigger] self.connections[i]).wf()
    }

    /// A peer that listens nowhere and has no connection.
    pub open spec fn fresh() -> TcpPeerView {
        TcpPeerView {
            listening: Set::<u16>::empty(),
            connections: Seq::<ConnectionView>::empty(),
            next_handle: 0,
        }
    }

    /// The application waits for connections at `port`.
    pub open spec fn listen(self, port: u16) -> TcpPeerView {
        TcpPeerView { listening: self.listening.insert(port), ..self }
    }

    /// The arrival of a packet with the given header and payload in a
    /// frame that came from `link_src`. A payload that is no segment is
    /// refused. A segment for a live connection goes to it. An opening
    /// segment for a port at which the application listens starts a
    /// connection, whose first sequence number is `iss`. Any other
    /// segment is left unanswered.
    pub open spec fn receive(
        self,
        rt: RuntimeView,
        link_src: MacAddress,
        header: Ipv4Header,
        text: Seq<u8>,
        iss: u32,
    ) -> (TcpPeerView, RuntimeView, Result<(), Fail>) {
        match parse_segment(header.src_addr, header.dest_addr, text) {
            Err(e) => (self, rt, Err(e)),
            Ok((tcp, payload)) => match find_end_points(
                self.connections,
                tcp.dest_port,
                header.src_addr,
                tcp.src_port,
                0,
            ) {
                Some(i) => {
                    let (c, rt1) = self.connections[i].on_segment(rt, link_src, tcp, payload);
                    (TcpPeerView { connections: self.connections.update(i, c), ..self }, rt1, Ok(()))
                },
                None => if tcp.syn && !tcp.ack && !tcp.rst && self.listening.contains(tcp.dest_port)
                    && self.next_handle < u64::MAX {
                    let c = ConnectionView::answering(
                        self.next_handle,
                        header.src_addr,
                        link_src,
                        tcp,
                        iss,
                        rt,
                    );
                    (
                        TcpPeerView {
                            connections: self.connections.push(c),
                            next_handle: (self.next_handle + 1) as u64,
                            ..self
                        },
                        c.send_flight(rt),
                        Ok(()),
                    )
                } else {
                    (self, rt, Ok(()))
                },
            },
        }
    }

    /// The application opens a connection from `local_port` to
    /// `remote_port` of `remote_addr`, whose first sequence number is
    /// `iss`. End points between which a connection lives are refused,
    /// and so is the call when the handles have run out. Otherwise the
    /// resolver is asked for the remote station, the connection gets the
    /// next handle, and its opening segment goes out where the resolver
    /// had an answer.
    pub open spec fn connect(
        self,
        rt: RuntimeView,
        arp: ArpPeerView,
        local_port: u16,
        remote_addr: Ipv4Addr,
        remote_port: u16,
        iss: u32,
    ) -> (TcpPeerView, RuntimeView, ArpPeerView, Result<u64, Fail>) {
        if find_end_points(self.connections, local_port, remote_addr, remote_port, 0) is Some {
            (self, rt, arp, Err(Fail::AddressInUse))
        } else if self.next_handle == u64::MAX {
            (self, rt, arp, Err(Fail::ResourceExhausted))
        } else {
            let (arp1, rt1, answer) = arp.query(rt, remote_addr);
            let c = ConnectionView::opening(
                self.next_handle,
                local_port,
                remote_addr,
                remote_port,
                match answer {
                    ArpQuery::Resolved(link_addr) => Some(link_addr),
                    ArpQuery::Pending => None,
                },
                iss,
                rt1,
            );
            (
                TcpPeerView {
                    connections: self.connections.push(c),
                    next_handle: (self.next_handle + 1) as u64,
                    ..self
                },
                c.send_flight(rt1),
                arp1,
                Ok(self.next_handle),
            )
        }
    }

    /// The application takes up the oldest established connection at
    /// `port` that it has not been told of.
    pub open spec fn accept(self, port: u16) -> (TcpPeerView, Option<u64>) {
        match find_acceptable(self.connections, port, 0) {
            Some(i) => (
                TcpPeerView {
                    connections: self.connections.update(
                        i,
                        ConnectionView { announced: true, ..self.connections[i] },
                    ),
                    ..self
                },
                Some(self.connections[i].handle),
            ),
            None => (self, None),
        }
    }

    /// The application hands `bytes` to the connection with the given
    /// handle.
    pub open spec fn send(
        self,
        rt: RuntimeView,
        handle: u64,
        bytes: Seq<u8>,
    ) -> (TcpPeerView, RuntimeView, Result<(), Fail>) {
        match find_handle(self.connections, handle, 0) {
            Some(i) => {
                let (c, rt1, r) = self.connections[i].send(rt, bytes);
                (TcpPeerView { connections: self.connections.update(i, c), ..self }, rt1, r)
            },
            None => (self, rt, Err(Fail::NoSuchConnection)),
        }
    }

    /// The application takes what has arrived on the connection with the
    /// given handle.
    pub open spec fn recv(self, handle: u64) -> (TcpPeerView, Result<Seq<u8>, Fail>) {
        match find_handle(self.connections, handle, 0) {
            Some(i) => {
                let (c, bytes) = self.connections[i].recv();
                (TcpPeerView { connections: self.connections.update(i, c), ..self }, Ok(bytes))
            },
            None => (self, Err(Fail::NoSuchConnection)),
        }
    }

    /// The application closes the connection with the given handle.
    pub open spec fn close(
        self,
        rt: RuntimeView,
        handle: u64,
    ) -> (TcpPeerView, RuntimeView, Result<(), Fail>) {
        match find_handle(self.connections, handle, 0) {
            Some(i) => {
                let (c, rt1) = self.connections[i].close(rt);
                (TcpPeerView { connections: self.connections.update(i, c), ..self }, rt1, Ok(()))
            },
            None => (self, rt, Err(Fail::NoSuchConnection)),
        }
    }

    /// Where the connection with the given handle stands, and why it was
    /// given up if it was.
    pub open spec fn status(self, handle: u64) -> Option<(TcpState, Option<Fail>)> {
        match find_handle(self.connections, handle, 0) {
            Some(i) => Some((self.connections[i].state, self.connections[i].failure)),
            None => None,
        }
    }

    /// The application lets go of the connection with the given handle,
    /// which must be closed. The second component tells whether it did.
    pub open spec fn release(self, handle: u64) -> (TcpPeerView, bool) {
        match find_handle(self.connections, handle, 0) {
            Some(i) => if self.connections[i].state == TcpState::Closed {
                (TcpPeerView { connections: self.connections.remove(i), ..self }, true)
            } else {
                (self, false)
            },
            None => (self, false),
        }
    }

    /// The passing of time: see `tick_all`.
    pub open spec fn advance(
        self,
        rt: RuntimeView,
        arp: ArpPeerView,
    ) -> (TcpPeerView, RuntimeView) {
        let (connections, rt1) = tick_all(self.connections, rt, arp);
        (TcpPeerView { connections, ..self }, rt1)
    }
}

/// The connections as contracts speak of them.
pub open spec fn connections_view(connections: Seq<Connection>) -> Seq<ConnectionView> {
    connections.map_values(|c: Connection| c@)
}

pub struct TcpPeer {
    listening: HashSet<u16>,
    connections: Vec<Connection>,
    next_handle: u64,
}

impl View for TcpPeer {
    type V = TcpPeerView;

    closed spec fn view(&self) -> TcpPeerView {
        TcpPeerView {
            listening: self.listening@,
            connections: connections_view(self.connections@),
            next_handle: self.next_handle,
        }
    }
}

impl TcpPeer {
    pub fn new() -> (peer: TcpPeer)
        ensures
            peer@ == TcpPeerView::fresh(),
            peer@.wf(),
    {
        let peer = TcpPeer { listening: HashSet::new(), connections: Vec::new(), next_handle: 0 };
        assert(peer@.connections =~= Seq::<ConnectionView>::empty());
        peer
    }

    fn index_of_end_points(
        &self,
        local_port: u16,
        remote_addr: Ipv4Addr,
        remote_port: u16,
    ) -> (r: Option<usize>)
        ensures
            match r {
                Some(i) => i < self@.connections.len() && find_end_points(
                    self@.connections,
                    local_port,
                    remote_addr,
                    remote_port,
                    0,
                ) == Some(i as int),
                None => find_end_points(self@.connections, local_port, remote_addr, remote_port, 0)
                    is None,
            },
    {
        let mut i: usize = 0;
        while i < self.connections.len()
            invariant
                i <= self.connections@.len(),
                find_end_points(self@.connections, local_port, remote_addr, remote_port, 0)
                    == find_end_points(
                    self@.connections,
                    local_port,
                    remote_addr,
                    remote_port,
                    i as int,
                ),
            decreases self.connections@.len() - i,
        {
            let c = &self.connections[i];
            assert(self@.connections[i as int] == c@);
            if c.state() != TcpState::Closed && c.local_port() == local_port && c.remote_addr()
                == remote_addr && c.remote_port() == remote_port {
                return Some(i);
            }
            i = i + 1;
        }
        None
    }

    fn index_of_handle(&self, handle: u64) -> (r: Option<usize>)
        ensures
            match r {
                Some(i) => i < self@.connections.len() && find_handle(self@.connections, handle, 0)
                    == Some(i as int),
                None => find_handle(self@.connections, handle, 0) is None,
            },
    {
        let mut i: usize = 0;
        while i < self.connections.len()
            invariant
                i <= self.connections@.len(),
                find_handle(self@.connections, handle, 0) == find_handle(
                    self@.connections,
                    handle,
                    i as int,
                ),
            decreases self.connections@.len() - i,
        {
            let c = &self.connections[i];
            assert(self@.connections[i as int] == c@);
            if c.handle() == handle {
                return Some(i);
            }
            i = i + 1;
        }
        None
    }

    fn index_of_acceptable(&self, port: u16) -> (r: Option<usize>)
        ensures
            match r {
                Some(i) => i < self@.connections.len() && find_acceptable(self@.connections, port, 0)
                    == Some(i as int),
                None => find_acceptable(self@.connections, port, 0) is None,
            },
    {
        let mut i: usize = 0;
        while i < self.connections.len()
            invariant
                i <= self.connections@.len(),
                find_acceptable(self@.connections, port, 0) == find_acceptable(
                    self@.connections,
                    port,
                    i as int,
                ),
            decreases self.connections@.len() - i,
        {
            let c = &self.connections[i];
            assert(self@.connections[i as int] == c@);
            if !c.is_announced() && c.state() == TcpState::Established && c.local_port() == port {
                return Some(i);
            }
            i = i + 1;
        }
        None
    }

    /// Takes the connection at index `i` out of the table.
    fn take(&mut self, i: usize) -> (c: Connection)
        requires
            i < old(self)@.connections.len(),
        ensures
            c@ == old(self)@.connections[i as int],
            final(self)@ == (TcpPeerView {
                connections: old(self)@.connections.remove(i as int),
                ..old(self)@
            }),
    {
        let c = self.connections.remove(i);
        assert(final(self)@.connections =~= old(self)@.connections.remove(i as int));
        c
    }

    /// Puts a connection into the table at index `i`.
    fn put(&mut self, i: usize, c: Connection)
        requires
            i <= old(self)@.connections.len(),
        ensures
            final(self)@ == (TcpPeerView {
                connections: old(self)@.connections.insert(i as int, c@),
                ..old(self)@
            }),
    {
        self.connections.insert(i, c);
        assert(final(self)@.connections =~= old(self)@.connections.insert(i as int, c@));
    }

    /// Waits for connections at `port`.
    pub fn listen(&mut self, port: u16)
        ensures
            final(self)@ == old(self)@.listen(port),
            old(self)@.wf() ==> final(self)@.wf(),
    {
        self.listening.insert(port);
        assert(final(self)@.connections == old(self)@.connections);
    }

    /// Takes in a packet that the network layer found to carry a segment.
    /// `iss` is the first sequence number of the connection that the
    /// segment may start.
    #[verifier::rlimit(40)]
    pub fn receive(
        &mut self,
        rt: &mut Runtime,
        link_src: MacAddress,
        packet: &Ipv4Packet,
        iss: u32,
    ) -> (r: Result<(), Fail>)
        requires
            old(self)@.wf(),
        ensures
            (final(self)@, final(rt)@, r) == old(self)@.receive(
                old(rt)@,
                link_src,
                packet.header,
                packet.text@,
                iss,
            ),
            final(self)@.wf(),
    {
        let segment = match TcpSegment::from_packet(packet) {
            Err(e) => {
                return Err(e);
            },
            Ok(segment) => segment,
        };
        let tcp = segment.header;
        match self.index_of_end_points(tcp.dest_port, packet.header.src_addr, tcp.src_port) {
            Some(i) => {
                let mut c = self.take(i);
                c.on_segment(rt, link_src, &tcp, segment.text.as_slice());
                self.put(i, c);
                assert(final(self)@.connections =~= old(self)@.connections.update(i as int, c@));
            },
            None => {
                if tcp.syn && !tcp.ack && !tcp.rst && self.listening.contains(&tcp.dest_port)
                    && self.next_handle < u64::MAX {
                    let c = Connection::answer(
                        rt,
                        self.next_handle,
                        packet.header.src_addr,
                        link_src,
                        &tcp,
                        iss,
                    );
                    self.next_handle = self.next_handle + 1;
                    let n = self.connections.len();
                    self.put(n, c);
                    assert(final(self)@.connections =~= old(self)@.connections.push(c@));
                }
            },
        }
        Ok(())
    }

    /// Opens a connection; see `TcpPeerView::connect`.
    pub fn connect(
        &mut self,
        rt: &mut Runtime,
        arp: &mut ArpPeer,
        local_port: u16,
        remote_addr: Ipv4Addr,
        remote_port: u16,
        iss: u32,
    ) -> (r: Result<u64, Fail>)
        requires
            old(self)@.wf(),
            old(arp)@.wf(),
        ensures
            (final(self)@, final(rt)@, final(arp)@, r) == old(self)@.connect(
                old(rt)@,
                old(arp)@,
                local_port,
                remote_addr,
                remote_port,
                iss,
            ),
            final(self)@.wf(),
            final(arp)@.wf(),
    {
        if self.index_of_end_points(local_port, remote_addr, remote_port).is_some() {
            return Err(Fail::AddressInUse);
        }
        if self.next_handle == u64::MAX {
            return Err(Fail::ResourceExhausted);
        }
        let handle = self.next_handle;
        let link_addr = match arp.query(rt, remote_addr) {
            ArpQuery::Resolved(link_addr) => Some(link_addr),
            ArpQuery::Pending => None,
        };
        let c = Connection::open(rt, handle, local_port, remote_addr, remote_port, link_addr, iss);
        self.next_handle = handle + 1;
        let n = self.connections.len();
        self.put(n, c);
        assert(final(self)@.connections =~= old(self)@.connections.push(c@));
        Ok(handle)
    }

    /// Takes up a connection that a remote station opened at `port`.
    pub fn accept(&mut self, port: u16) -> (handle: Option<u64>)
        requires
            old(self)@.wf(),
        ensures
            (final(self)@, handle) == old(self)@.accept(port),
            final(self)@.wf(),
    {
        match self.index_of_acceptable(port) {
            Some(i) => {
                let mut c = self.take(i);
                c.announce();
                let handle = c.handle();
                self.put(i, c);
                assert(final(self)@.connections =~= old(self)@.connections.update(i as int, c@));
                Some(handle)
            },
            None => None,
        }
    }

    /// Hands `bytes` to a connection for sending.
    pub fn send(&mut self, rt: &mut Runtime, handle: u64, bytes: &[u8]) -> (r: Result<(), Fail>)
        requires
            old(self)@.wf(),
        ensures
            (final(self)@, final(rt)@, r) == old(self)@.send(old(rt)@, handle, bytes@),
            final(self)@.wf(),
    {
        match self.index_of_handle(handle) {
            Some(i) => {
                let mut c = self.take(i);
                let r = c.send(rt, bytes);
                self.put(i, c);
                assert(final(self)@.connections =~= old(self)@.connections.update(i as int, c@));
                r
            },
            None => Err(Fail::NoSuchConnection),
        }
    }

    /// Takes what has arrived on a connection.
    pub fn recv(&mut self, handle: u64) -> (r: Result<Vec<u8>, Fail>)
        requires
            old(self)@.wf(),
        ensures
            match old(self)@.recv(handle).1 {
                Ok(bytes) => r is Ok && r->Ok_0@ == bytes,
                Err(e) => r is Err && r->Err_0 == e,
            },
            final(self)@ == old(self)@.recv(handle).0,
            final(self)@.wf(),
    {
        match self.index_of_handle(handle) {
            Some(i) => {
                let mut c = self.take(i);
                let bytes = c.recv();
                self.put(i, c);
                assert(final(self)@.connections =~= old(self)@.connections.update(i as int, c@));
                Ok(bytes)
            },
            None => Err(Fail::NoSuchConnection),
        }
    }

    /// Closes a connection on the application's behalf.
    pub fn close(&mut self, rt: &mut Runtime, handle: u64) -> (r: Result<(), Fail>)
        requires
            old(self)@.wf(),
        ensures
            (final(self)@, final(rt)@, r) == old(self)@.close(old(rt)@, handle),
            final(self)@.wf(),
    {
        match self.index_of_handle(handle) {
            Some(i) => {
                let mut c = self.take(i);
                c.close(rt);
                self.put(i, c);
                assert(final(self)@.connections =~= old(self)@.connections.update(i as int, c@));
                Ok(())
            },
            None => Err(Fail::NoSuchConnection),
        }
    }

    /// Where a connection stands, and why it was given up if it was.
    pub fn status(&self, handle: u64) -> (status: Option<(TcpState, Option<Fail>)>)
        ensures
            status == self@.status(handle),
    {
        match self.index_of_handle(handle) {
            Some(i) => {
                let c = &self.connections[i];
                assert(self@.connections[i as int] == c@);
                Some((c.state(), c.failure()))
            },
            None => None,
        }
    }

    /// Lets go of a closed connection.
    pub fn release(&mut self, handle: u64) -> (released: bool)
        requires
            old(self)@.wf(),
        ensures
            (final(self)@, released) == old(self)@.release(handle),
            final(self)@.wf(),
    {
        match self.index_of_handle(handle) {
            Some(i) => {
                let c = self.take(i);
                if c.state() == TcpState::Closed {
                    true
                } else {
                    self.put(i, c);
                    assert(final(self)@.connections =~= old(self)@.connections);
                    false
                }
            },
            None => false,
        }
    }

    /// Looks at the clock on behalf of every connection's timers.
    #[verifier::rlimit(40)]
    pub fn advance(&mut self, rt: &mut Runtime, arp: &ArpPeer)
        requires
            old(self)@.wf(),
        ensures
            (final(self)@, final(rt)@) == old(self)@.advance(old(rt)@, arp@),
            final(self)@.wf(),
    {
        let ghost before = old(self)@.connections;
        let n = self.connections.len();
        let mut i: usize = 0;
        while i < n
            invariant
                i <= n,
                n == before.len(),
                self@.connections.len() == n,
                self@.listening == old(self)@.listening,
                self@.next_handle == old(self)@.next_handle,
                before == old(self)@.connections,
                old(self)@.wf(),
                self@.wf(),
                (self@.connections.subrange(0, i as int), rt@) == tick_all(
                    before.subrange(0, i as int),
                    old(rt)@,
                    arp@,
                ),
                self@.connections.subrange(i as int, n as int) == before.subrange(i as int, n as int),
            decreases n - i,
        {
            let ghost current = self@.connections;
            assert(current[i as int] == before[i as int]) by {
                assert(current.subrange(i as int, n as int)[0] == before.subrange(
                    i as int,
                    n as int,
                )[0]);
            }
            let mut c = self.take(i);
            let resolved = arp.query_cache(rt, c.remote_addr());
            c.on_tick(rt, resolved);
            self.put(i, c);
            proof {
                let after = self@.connections;
                assert(after =~= current.update(i as int, c@));
                assert(before.subrange(0, i + 1).drop_last() =~= before.subrange(0, i as int));
                assert(before.subrange(0, i + 1).last() == before[i as int]);
                assert(after.subrange(0, i + 1) =~= current.subrange(0, i as int).push(c@));
                assert forall|k: int| i < k < n implies #[trigger] after[k] == before[k] by {
                    assert(current.subrange(i as int, n as int)[k - i] == before.subrange(
                        i as int,
                        n as int,
                    )[k - i]);
                }
                assert(after.subrange(i + 1, n as int) =~= before.subrange(i + 1, n as int));
                assert forall|k: int| 0 <= k < after.len() implies (#[trigger] after[k]).wf() by {
                    if k != i {
                        assert(after[k] == current[k]);
                    }
                }
            }
            i = i + 1;
        }
        assert(self@.connections.subrange(0, n as int) =~= self@.connections);
        assert(before.subrange(0, n as int) =~= before);
    }
}

} // verus!
