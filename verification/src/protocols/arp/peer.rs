use vstd::prelude::*;
use std::collections::HashMap;
use crate::fail::Fail;
use crate::options::Options;
use crate::protocols::arp::pdu::{parse_pdu, ArpMessage, ArpOperation, ArpPdu};
use crate::protocols::ethernet2::{EtherType, Ethernet2Header, Frame, MacAddress};
use crate::protocols::ipv4::address::Ipv4Addr;
use crate::runtime::{PacketBuf, Runtime, RuntimeView};
use crate::time::Instant;

verus! {

/// How many records the cache has room for. A cache that is full makes
/// room for an address that it does not know by forgetting what it knows.
pub const MAX_CACHE_ENTRIES: usize = 1024;

/// What the cache knows of one network address.
#[derive(Clone, Copy, Debug, PartialEq, Eq, Structural)]
pub struct CacheRecord {
    pub link_addr: MacAddress,
    /// The instant from which the record is stale.
    pub expiry: Instant,
}

/// One resolution in flight.
#[derive(Clone, Copy, Debug, PartialEq, Eq, Structural)]
pub struct Resolution {
    pub target: Ipv4Addr,
    /// How many more times the request may be sent.
    pub retries_left: usize,
    /// The instant at which the last request counts as unanswered.
    pub deadline: Instant,
}

/// What a lookup comes back with.
#[derive(Clone, Copy, Debug, PartialEq, Eq, Structural)]
pub enum ArpQuery {
    /// The address is known.
    Resolved(MacAddress),
    /// A request for the address is in flight.
    Pending,
}

/// The request that a station with `options` broadcasts for `target`.
pub open spec fn request_message(options: Options, target: Ipv4Addr) -> ArpMessage {
    ArpMessage {
        ethernet: Ethernet2Header {
            dest_addr: MacAddress { o0: 0xff, o1: 0xff, o2: 0xff, o3: 0xff, o4: 0xff, o5: 0xff },
            src_addr: options.my_link_addr,
            ether_type: EtherType::Arp,
        },
        pdu: ArpPdu {
            operation: ArpOperation::Request,
            sender_link_addr: options.my_link_addr,
            sender_ipv4_addr: options.my_ipv4_addr,
            target_link_addr: MacAddress { o0: 0, o1: 0, o2: 0, o3: 0, o4: 0, o5: 0 },
            target_ipv4_addr: target,
        },
    }
}

/// The reply that a station with `options` sends to the sender of
/// `request`.
pub open spec fn reply_message(options: Options, request: ArpPdu) -> ArpMessage {
    ArpMessage {
        ethernet: Ethernet2Header {
            dest_addr: request.sender_link_addr,
            src_addr: options.my_link_addr,
            ether_type: EtherType::Arp,
        },
        pdu: ArpPdu {
            operation: ArpOperation::Reply,
            sender_link_addr: options.my_link_addr,
            sender_ipv4_addr: options.my_ipv4_addr,
            target_link_addr: request.sender_link_addr,
            target_ipv4_addr: request.sender_ipv4_addr,
        },
    }
}

/// Whether one of `pending` is for `target`.
pub open spec fn has_target(pending: Seq<Resolution>, target: Ipv4Addr) -> bool {
    exists|i: int| 0 <= i < pending.len() && (#[trigger] pending[i]).target == target
}

/// No two of `pending` are for the same address.
pub open spec fn distinct_targets(pending: Seq<Resolution>) -> bool {
    forall|i: int, j: int|
        0 <= i < j < pending.len() ==> (#[trigger] pending[i]).target != (#[trigger] pending[j]).target
}

/// `pending` without the resolution for `target`, in the same order.
pub open spec fn without_target(pending: Seq<Resolution>, target: Ipv4Addr) -> Seq<Resolution>
    decreases pending.len(),
{
    if pending.len() == 0 {
        pending
    } else if pending.last().target == target {
        without_target(pending.drop_last(), target)
    } else {
        without_target(pending.drop_last(), target).push(pending.last())
    }
}

/// What becomes of the resolutions in flight, and of the runtime, when the
/// clock is looked at. One whose deadline has not come stays as it is. One
/// whose deadline has come is asked again, with a new deadline, as long as
/// retries are left; otherwise it is given up and leaves.
pub open spec fn advance_pending(
    pending: Seq<Resolution>,
    rt: RuntimeView,
) -> ( Seq<Resolution>, RuntimeView, )
    decreases pending.len(),
{
    if pending.len() == 0 {
        (pending, rt)
    } else {
        let (kept, rt1) = advance_pending(pending.drop_last(), rt);
        let r = pending.last();
        if rt.now.nanos < r.deadline.nanos {
            (kept.push(r), rt1)
        } else if r.retries_left > 0 {
            (
                kept.push(
                    Resolution {
                        target: r.target,
                        retries_left: (r.retries_left - 1) as usize,
                        deadline: rt.now.plus(rt.options.arp.request_timeout),
                    },
                ),
                rt1.transmit(request_message(rt.options, r.target).bytes()),
            )
        } else {
            (kept, rt1)
        }
    }
}

/// An address-resolution peer as contracts speak of it.
pub struct ArpPeerView {
    pub cache: Map<u32, CacheRecord>,
    pub pending: Seq<Resolution>,
}

impl ArpPeerView {
    /// At most one request is in flight for any address, and the cache
    /// holds no more records than it has room for.
    pub open spec fn wf(self) -> bool {
        &&& distinct_targets(self.pending)
        &&& self.cache.dom().finite()
        &&& self.cache.dom().len() <= MAX_CACHE_ENTRIES
    }

    /// The cache as it makes room for a record of `addr`: a cache that is
    /// full and knows nothing of `addr` is emptied.
    pub open spec fn room_for(self, addr: Ipv4Addr) -> Map<u32, CacheRecord> {
        if !self.cache.dom().contains(addr.value) && self.cache.dom().len() >= MAX_CACHE_ENTRIES {
            Map::<u32, CacheRecord>::empty()
        } else {
            self.cache
        }
    }

    /// The link address that the cache holds for `addr` and that is still
    /// fresh at `now`.
    pub open spec fn lookup(self, addr: Ipv4Addr, now: Instant) -> Option<MacAddress> {
        if self.cache.dom().contains(addr.value) && now.nanos < self.cache[addr.value].expiry.nanos {
            Some(self.cache[addr.value].link_addr)
        } else {
            None
        }
    }

    /// Whether a request for `addr` is in flight.
    pub open spec fn is_pending(self, addr: Ipv4Addr) -> bool {
        has_target(self.pending, addr)
    }

    /// The peer after it has learnt at `now` that `addr` is at `link_addr`:
    /// the cache, which has made room, holds the pair for the configured
    /// time to live, and no request for `addr` is in flight any more.
    pub open spec fn learn(
        self,
        options: Options,
        now: Instant,
        addr: Ipv4Addr,
        link_addr: MacAddress,
    ) -> ArpPeerView {
        ArpPeerView {
            cache: self.room_for(addr).insert(
                addr.value,
                CacheRecord { link_addr, expiry: now.plus(options.arp.cache_ttl) },
            ),
            pending: without_target(self.pending, addr),
        }
    }

    /// A lookup of `target`. A fresh record answers it. Otherwise the
    /// lookup joins the request in flight for `target`, or, where there is
    /// none, starts one: a request is broadcast and its deadline set.
    pub open spec fn query(
        self,
        rt: RuntimeView,
        target: Ipv4Addr,
    ) -> (ArpPeerView, RuntimeView, ArpQuery) {
        match self.lookup(target, rt.now) {
            Some(link_addr) => (self, rt, ArpQuery::Resolved(link_addr)),
            None => if self.is_pending(target) {
                (self, rt, ArpQuery::Pending)
            } else {
                (
                    ArpPeerView {
                        pending: self.pending.push(
                            Resolution {
                                target,
                                retries_left: rt.options.arp.retry_count,
                                deadline: rt.now.plus(rt.options.arp.request_timeout),
                            },
                        ),
                        ..self
                    },
                    rt.transmit(request_message(rt.options, target).bytes()),
                    ArpQuery::Pending,
                )
            },
        }
    }

    /// The arrival of `pdu`. A sender that the cache knows is brought up
    /// to date whoever the message is for. A message for another station
    /// is otherwise misdelivered. A message for this station teaches the
    /// cache its sender, and a request is answered.
    pub open spec fn receive(
        self,
        rt: RuntimeView,
        pdu: ArpPdu,
    ) -> (ArpPeerView, RuntimeView, Result<(), Fail>) {
        let known = self.cache.dom().contains(pdu.sender_ipv4_addr.value);
        let learnt = self.learn(rt.options, rt.now, pdu.sender_ipv4_addr, pdu.sender_link_addr);
        if pdu.target_ipv4_addr != rt.options.my_ipv4_addr {
            if known {
                (learnt, rt, Ok(()))
            } else {
                (self, rt, Err(Fail::Misdelivered))
            }
        } else {
            match pdu.operation {
                ArpOperation::Request => (
                    learnt,
                    rt.transmit(reply_message(rt.options, pdu).bytes()),
                    Ok(()),
                ),
                ArpOperation::Reply => (learnt, rt, Ok(())),
            }
        }
    }

    /// The arrival of a frame's payload: bytes that are no message are
    /// refused and change nothing; a message is taken in.
    pub open spec fn receive_text(
        self,
        rt: RuntimeView,
        text: Seq<u8>,
    ) -> (ArpPeerView, RuntimeView, Result<(), Fail>) {
        match parse_pdu(text) {
            Err(e) => (self, rt, Err(e)),
            Ok(pdu) => self.receive(rt, pdu),
        }
    }

    /// The passing of time: see `advance_pending`.
    pub open spec fn advance(self, rt: RuntimeView) -> (ArpPeerView, RuntimeView) {
        let (pending, rt1) = advance_pending(self.pending, rt);
        (ArpPeerView { pending, ..self }, rt1)
    }
}

pub proof fn without_target_properties(pending: Seq<Resolution>, target: Ipv4Addr)
    requires
        distinct_targets(pending),
    ensures
        distinct_targets(without_target(pending, target)),
        !has_target(without_target(pending, target), target),
        forall|other: Ipv4Addr|
            other != target ==> (has_target(without_target(pending, target), other) <==> has_target(
                pending,
                other,
            )),
        !has_target(pending, target) ==> without_target(pending, target) == pending,
        without_target(pending, target).len() <= pending.len(),
    decreases pending.len(),
{
    if pending.len() > 0 {
        let front = pending.drop_last();
        let last = pending.last();
        assert(distinct_targets(front)) by {
            assert forall|i: int, j: int| 0 <= i < j < front.len() implies (#[trigger] front[i]).target
                != (#[trigger] front[j]).target by {
                assert(front[i] == pending[i] && front[j] == pending[j]);
            }
        }
        without_target_properties(front, target);
        let w = without_target(front, target);
        let out = without_target(pending, target);
        assert forall|other: Ipv4Addr| has_target(front, other) implies #[trigger] has_target(
            pending,
            other,
        ) by {
            let i = choose|i: int| 0 <= i < front.len() && (#[trigger] front[i]).target == other;
            assert(pending[i].target == other);
        }
        assert forall|other: Ipv4Addr| #[trigger]
            has_target(pending, other) && other != last.target implies has_target(front, other) by {
            let i = choose|i: int| 0 <= i < pending.len() && (#[trigger] pending[i]).target == other;
            assert(front[i].target == other);
        }
        assert(has_target(pending, last.target)) by {
            assert(pending[pending.len() - 1].target == last.target);
        }
        assert(!has_target(front, last.target)) by {
            if has_target(front, last.target) {
                let i = choose|i: int|
                    0 <= i < front.len() && (#[trigger] front[i]).target == last.target;
                assert(pending[i].target == pending[pending.len() - 1].target);
            }
        }
        if last.target == target {
            assert(out == w);
            assert(w == front);
        } else {
            assert(out == w.push(last));
            assert(!has_target(w, last.target));
            assert(distinct_targets(out)) by {
                assert forall|i: int, j: int| 0 <= i < j < out.len() implies (#[trigger] out[i]).target
                    != (#[trigger] out[j]).target by {
                    if j == w.len() {
                        assert(out[i] == w[i]);
                    } else {
                        assert(out[i] == w[i] && out[j] == w[j]);
                    }
                }
            }
            assert(!has_target(out, target)) by {
                if has_target(out, target) {
                    let i = choose|i: int| 0 <= i < out.len() && (#[trigger] out[i]).target == target;
                    assert(i < w.len());
                    assert(w[i].target == target);
                }
            }
            assert forall|other: Ipv4Addr| other != target implies (has_target(out, other)
                <==> has_target(pending, other)) by {
                if has_target(out, other) {
                    let i = choose|i: int| 0 <= i < out.len() && (#[trigger] out[i]).target == other;
                    if i < w.len() {
                        assert(w[i].target == other);
                    }
                }
                if has_target(pending, other) {
                    if other == last.target {
                        assert(out[out.len() - 1].target == other);
                    } else {
                        let i = choose|i: int| 0 <= i < w.len() && (#[trigger] w[i]).target == other;
                        assert(out[i].target == other);
                    }
                }
            }
            if !has_target(pending, target) {
                assert(out =~= pending);
            }
        }
    }
}

/// The passing of time starts no resolution and leaves none doubled: what
/// is in flight afterwards was in flight before, once each.
pub proof fn advance_pending_properties(pending: Seq<Resolution>, rt: RuntimeView)
    requires
        distinct_targets(pending),
    ensures
        distinct_targets(advance_pending(pending, rt).0),
        forall|target: Ipv4Addr| #[trigger]
            has_target(advance_pending(pending, rt).0, target) ==> has_target(pending, target),
        advance_pending(pending, rt).1.now == rt.now,
        advance_pending(pending, rt).1.options == rt.options,
        advance_pending(pending, rt).0.len() <= pending.len(),
    decreases pending.len(),
{
    if pending.len() > 0 {
        let front = pending.drop_last();
        let last = pending.last();
        assert(distinct_targets(front)) by {
            assert forall|i: int, j: int| 0 <= i < j < front.len() implies (#[trigger] front[i]).target
                != (#[trigger] front[j]).target by {
                assert(front[i] == pending[i] && front[j] == pending[j]);
            }
        }
        advance_pending_properties(front, rt);
        let kept = advance_pending(front, rt).0;
        let out = advance_pending(pending, rt).0;
        assert forall|target: Ipv4Addr| has_target(front, target) implies #[trigger] has_target(
            pending,
            target,
        ) by {
            let i = choose|i: int| 0 <= i < front.len() && (#[trigger] front[i]).target == target;
            assert(pending[i].target == target);
        }
        assert(!has_target(front, last.target)) by {
            if has_target(front, last.target) {
                let i = choose|i: int|
                    0 <= i < front.len() && (#[trigger] front[i]).target == last.target;
                assert(pending[i].target == pending[pending.len() - 1].target);
            }
        }
        assert(has_target(pending, last.target)) by {
            assert(pending[pending.len() - 1].target == last.target);
        }
        assert(!has_target(kept, last.target));
        if out.len() == kept.len() + 1 {
            assert(out.drop_last() =~= kept);
            assert(out.last().target == last.target);
            assert(distinct_targets(out)) by {
                assert forall|i: int, j: int| 0 <= i < j < out.len() implies (#[trigger] out[i]).target
                    != (#[trigger] out[j]).target by {
                    if j == kept.len() {
                        assert(out[i] == kept[i]);
                    } else {
                        assert(out[i] == kept[i] && out[j] == kept[j]);
                    }
                }
            }
            assert forall|target: Ipv4Addr| #[trigger] has_target(out, target) implies has_target(
                pending,
                target,
            ) by {
                let i = choose|i: int| 0 <= i < out.len() && (#[trigger] out[i]).target == target;
                if i < kept.len() {
                    assert(out[i] == kept[i]);
                    assert(kept[i].target == target);
                    assert(has_target(kept, target));
                    assert(has_target(front, target));
                } else {
                    assert(target == last.target);
                }
            }
        } else {
            assert(out == kept);
        }
    }
}

/// The cache stays within its bound whatever it learns, and what it has
/// just learnt is what it answers with for as long as the record is fresh.
pub proof fn learning_keeps_cache_bounded(
    peer: ArpPeerView,
    options: Options,
    now: Instant,
    addr: Ipv4Addr,
    link_addr: MacAddress,
)
    requires
        peer.wf(),
    ensures
        peer.learn(options, now, addr, link_addr).wf(),
        peer.learn(options, now, addr, link_addr).cache.dom().len() <= MAX_CACHE_ENTRIES,
        now.nanos < now.plus(options.arp.cache_ttl).nanos ==> peer.learn(
            options,
            now,
            addr,
            link_addr,
        ).lookup(addr, now) == Some(link_addr),
        !peer.learn(options, now, addr, link_addr).is_pending(addr),
{
    without_target_properties(peer.pending, addr);
}

/// A request that has stayed unanswered after its last retry is given up:
/// once the clock has been looked at, no request for its address is in
/// flight any more.
pub proof fn exhausted_request_is_given_up(pending: Seq<Resolution>, rt: RuntimeView, k: int)
    requires
        distinct_targets(pending),
        0 <= k < pending.len(),
        pending[k].retries_left == 0,
        rt.now.nanos >= pending[k].deadline.nanos,
    ensures
        !has_target(advance_pending(pending, rt).0, pending[k].target),
    decreases pending.len(),
{
    let front = pending.drop_last();
    let last = pending.last();
    let target = pending[k].target;
    let kept = advance_pending(front, rt).0;
    let out = advance_pending(pending, rt).0;
    assert(distinct_targets(front)) by {
        assert forall|i: int, j: int| 0 <= i < j < front.len() implies (#[trigger] front[i]).target
            != (#[trigger] front[j]).target by {
            assert(front[i] == pending[i] && front[j] == pending[j]);
        }
    }
    advance_pending_properties(front, rt);
    if k == pending.len() - 1 {
        assert(out == kept);
        if has_target(front, target) {
            let i = choose|i: int| 0 <= i < front.len() && (#[trigger] front[i]).target == target;
            assert(pending[i].target == pending[k].target);
        }
    } else {
        assert(front[k] == pending[k]);
        exhausted_request_is_given_up(front, rt, k);
        assert(pending[k].target != pending[pending.len() - 1].target);
        if has_target(out, target) {
            let i = choose|i: int| 0 <= i < out.len() && (#[trigger] out[i]).target == target;
            if i < kept.len() {
                assert(out[i] == kept[i]);
                assert(has_target(kept, target));
            }
        }
    }
}

pub struct ArpPeer {
    cache: HashMap<u32, CacheRecord>,
    pending: Vec<Resolution>,
}

impl View for ArpPeer {
    type V = ArpPeerView;

    closed spec fn view(&self) -> ArpPeerView {
        ArpPeerView { cache: self.cache@, pending: self.pending@ }
    }
}

impl ArpPeer {
    /// A peer that knows no address and asks for none.
    pub fn new() -> (peer: ArpPeer)
        ensures
            peer@ == (ArpPeerView {
                cache: Map::<u32, CacheRecord>::empty(),
                pending: Seq::<Resolution>::empty(),
            }),
            peer@.wf(),
    {
        ArpPeer { cache: HashMap::new(), pending: Vec::new() }
    }

    /// The link address that the cache holds for `addr` and that is still
    /// fresh.
    pub fn query_cache(&self, rt: &Runtime, addr: Ipv4Addr) -> (link_addr: Option<MacAddress>)
        ensures
            link_addr == self@.lookup(addr, rt@.now),
    {
        match self.cache.get(&addr.value) {
            None => None,
            Some(record) => {
                if rt.now().nanos < record.expiry.nanos {
                    Some(record.link_addr)
                } else {
                    None
                }
            },
        }
    }

    /// Whether a request for `addr` is in flight.
    pub fn is_pending(&self, addr: Ipv4Addr) -> (pending: bool)
        ensures
            pending == self@.is_pending(addr),
    {
        let mut i: usize = 0;
        while i < self.pending.len()
            invariant
                i <= self.pending@.len(),
                forall|j: int| 0 <= j < i ==> (#[trigger] self.pending@[j]).target != addr,
            decreases self.pending@.len() - i,
        {
            if self.pending[i].target == addr {
                return true;
            }
            i = i + 1;
        }
        false
    }

    /// Teaches the cache that `addr` is at `link_addr`, which ends the
    /// request for `addr` if one is in flight.
    pub fn insert(&mut self, rt: &Runtime, addr: Ipv4Addr, link_addr: MacAddress)
        requires
            old(self)@.wf(),
        ensures
            final(self)@ == old(self)@.learn(rt@.options, rt@.now, addr, link_addr),
            final(self)@.wf(),
    {
        let expiry = rt.now().saturating_add(rt.arp_options().cache_ttl);
        if !self.cache.contains_key(&addr.value) && self.cache.len() >= MAX_CACHE_ENTRIES {
            self.cache.clear();
        }
        self.cache.insert(addr.value, CacheRecord { link_addr, expiry });
        let mut kept: Vec<Resolution> = Vec::new();
        let mut i: usize = 0;
        while i < self.pending.len()
            invariant
                i <= self.pending@.len(),
                kept@ == without_target(self.pending@.subrange(0, i as int), addr),
            decreases self.pending@.len() - i,
        {
            let r = self.pending[i];
            assert(self.pending@.subrange(0, i + 1).drop_last() =~= self.pending@.subrange(
                0,
                i as int,
            ));
            if r.target != addr {
                kept.push(r);
            }
            i = i + 1;
        }
        assert(self.pending@.subrange(0, i as int) =~= self.pending@);
        proof {
            without_target_properties(self.pending@, addr);
        }
        self.pending = kept;
    }

    /// Teaches the cache every pair of `entries`, in order. This is how a
    /// caller seeds a station with what it knows of its neighbours.
    pub fn import_cache(&mut self, rt: &Runtime, entries: &Vec<(Ipv4Addr, MacAddress)>)
        requires
            old(self)@.wf(),
        ensures
            final(self)@ == import_entries(old(self)@, rt@.options, rt@.now, entries@),
            final(self)@.wf(),
    {
        let mut i: usize = 0;
        while i < entries.len()
            invariant
                i <= entries@.len(),
                self@.wf(),
                self@ == import_entries(old(self)@, rt@.options, rt@.now, entries@.subrange(0, i as int)),
            decreases entries@.len() - i,
        {
            let (addr, link_addr) = entries[i];
            assert(entries@.subrange(0, i + 1).drop_last() =~= entries@.subrange(0, i as int));
            self.insert(rt, addr, link_addr);
            i = i + 1;
        }
        assert(entries@.subrange(0, i as int) =~= entries@);
    }

    /// Looks `target` up, and starts a resolution where the cache has no
    /// fresh answer and none is in flight.
    pub fn query(&mut self, rt: &mut Runtime, target: Ipv4Addr) -> (answer: ArpQuery)
        requires
            old(self)@.wf(),
        ensures
            (final(self)@, final(rt)@, answer) == old(self)@.query(old(rt)@, target),
            final(self)@.wf(),
    {
        match self.query_cache(rt, target) {
            Some(link_addr) => ArpQuery::Resolved(link_addr),
            None => {
                if self.is_pending(target) {
                    ArpQuery::Pending
                } else {
                    let deadline = rt.wait(rt.arp_options().request_timeout).when;
                    let message = make_request(rt.options(), target);
                    rt.transmit2(&message);
                    let retries_left = rt.arp_options().retry_count;
                    self.pending.push(Resolution { target, retries_left, deadline });
                    assert(distinct_targets(self.pending@)) by {
                        let p = self.pending@;
                        let q = old(self).pending@;
                        assert forall|i: int, j: int| 0 <= i < j < p.len() implies (#[trigger] p[i]).target
                            != (#[trigger] p[j]).target by {
                            assert(p[i] == q[i]);
                            if j < q.len() {
                                assert(p[j] == q[j]);
                            }
                        }
                    }
                    ArpQuery::Pending
                }
            },
        }
    }

    /// Takes in an address-resolution frame.
    pub fn receive(&mut self, rt: &mut Runtime, frame: &Frame) -> (r: Result<(), Fail>)
        requires
            old(self)@.wf(),
        ensures
            (final(self)@, final(rt)@, r) == old(self)@.receive_text(old(rt)@, frame.text@),
            final(self)@.wf(),
    {
        let pdu = match ArpPdu::from_bytes(frame.text.as_slice()) {
            Err(e) => {
                return Err(e);
            },
            Ok(pdu) => pdu,
        };
        let known = self.cache.contains_key(&pdu.sender_ipv4_addr.value);
        if pdu.target_ipv4_addr != rt.local_ipv4_addr() {
            if known {
                self.insert(rt, pdu.sender_ipv4_addr, pdu.sender_link_addr);
                return Ok(());
            } else {
                return Err(Fail::Misdelivered);
            }
        }
        self.insert(rt, pdu.sender_ipv4_addr, pdu.sender_link_addr);
        match pdu.operation {
            ArpOperation::Request => {
                let message = make_reply(rt.options(), &pdu);
                rt.transmit2(&message);
            },
            ArpOperation::Reply => {},
        }
        Ok(())
    }

    /// Looks at the clock: requests that stayed unanswered are sent again
    /// or given up.
    pub fn advance(&mut self, rt: &mut Runtime)
        requires
            old(self)@.wf(),
        ensures
            (final(self)@, final(rt)@) == old(self)@.advance(old(rt)@),
            final(self)@.wf(),
    {
        let now = rt.now();
        let options = rt.options();
        let mut kept: Vec<Resolution> = Vec::new();
        let mut i: usize = 0;
        while i < self.pending.len()
            invariant
                i <= self.pending@.len(),
                now == old(rt)@.now,
                options == old(rt)@.options,
                rt@.now == old(rt)@.now,
                rt@.options == old(rt)@.options,
                (kept@, rt@) == advance_pending(self.pending@.subrange(0, i as int), old(rt)@),
            decreases self.pending@.len() - i,
        {
            let r = self.pending[i];
            assert(self.pending@.subrange(0, i + 1).drop_last() =~= self.pending@.subrange(
                0,
                i as int,
            ));
            if !rt.wait_until(r.deadline).has_completed(rt) {
                kept.push(r);
            } else if r.retries_left > 0 {
                let message = make_request(options, r.target);
                rt.transmit2(&message);
                kept.push(
                    Resolution {
                        target: r.target,
                        retries_left: r.retries_left - 1,
                        deadline: rt.wait(options.arp.request_timeout).when,
                    },
                );
            }
            i = i + 1;
        }
        assert(self.pending@.subrange(0, i as int) =~= self.pending@);
        proof {
            advance_pending_properties(self.pending@, old(rt)@);
        }
        self.pending = kept;
    }
}

/// The peer after it has learnt every pair of `entries`, in order.
pub open spec fn import_entries(
    peer: ArpPeerView,
    options: Options,
    now: Instant,
    entries: Seq<(Ipv4Addr, MacAddress)>,
) -> ArpPeerView
    decreases entries.len(),
{
    if entries.len() == 0 {
        peer
    } else {
        import_entries(peer, options, now, entries.drop_last()).learn(
            options,
            now,
            entries.last().0,
            entries.last().1,
        )
    }
}

fn make_request(options: Options, target: Ipv4Addr) -> (message: ArpMessage)
    ensures
        message == request_message(options, target),
{
    ArpMessage {
        ethernet: Ethernet2Header {
            dest_addr: MacAddress::broadcast(),
            src_addr: options.my_link_addr,
            ether_type: EtherType::Arp,
        },
        pdu: ArpPdu {
            operation: ArpOperation::Request,
            sender_link_addr: options.my_link_addr,
            sender_ipv4_addr: options.my_ipv4_addr,
            target_link_addr: MacAddress::nil(),
            target_ipv4_addr: target,
        },
    }
}

fn make_reply(options: Options, request: &ArpPdu) -> (message: ArpMessage)
    ensures
        message == reply_message(options, *request),
{
    ArpMessage {
        ethernet: Ethernet2Header {
            dest_addr: request.sender_link_addr,
            src_addr: options.my_link_addr,
            ether_type: EtherType::Arp,
        },
        pdu: ArpPdu {
            operation: ArpOperation::Reply,
            sender_link_addr: options.my_link_addr,
            sender_ipv4_addr: options.my_ipv4_addr,
            target_link_addr: request.sender_link_addr,
            target_ipv4_addr: request.sender_ipv4_addr,
        },
    }
}

/// However many lookups ask for an address that is neither cached nor in
/// flight, one request goes out: the first lookup broadcasts it, and a
/// second lookup finds it in flight and changes nothing.
pub proof fn duplicate_queries_send_one_request(
    peer: ArpPeerView,
    rt: RuntimeView,
    target: Ipv4Addr,
)
    requires
        peer.wf(),
        peer.lookup(target, rt.now) is None,
        !peer.is_pending(target),
    ensures
        ({
            let (peer1, rt1, answer1) = peer.query(rt, target);
            let (peer2, rt2, answer2) = peer1.query(rt1, target);
            &&& answer1 == ArpQuery::Pending
            &&& answer2 == ArpQuery::Pending
            &&& rt1 == rt.transmit(request_message(rt.options, target).bytes())
            &&& rt2 == rt1
            &&& peer2 == peer1
            &&& peer1.is_pending(target)
            &&& peer1.wf()
        }),
{
    let (peer1, rt1, answer1) = peer.query(rt, target);
    assert(peer1.pending[peer.pending.len() as int].target == target);
    assert(peer1.wf()) by {
        let p = peer1.pending;
        let q = peer.pending;
        assert forall|i: int, j: int| 0 <= i < j < p.len() implies (#[trigger] p[i]).target != (
        #[trigger] p[j]).target by {
            assert(p[i] == q[i]);
            if j < q.len() {
                assert(p[j] == q[j]);
            }
        }
    }
}

/// A lookup that finds a request in flight joins it: nothing is sent and
/// nothing changes.
pub proof fn query_joins_request_in_flight(peer: ArpPeerView, rt: RuntimeView, target: Ipv4Addr)
    requires
        peer.is_pending(target),
        peer.lookup(target, rt.now) is None,
    ensures
        peer.query(rt, target) == (peer, rt, ArpQuery::Pending),
{
}

} // verus!
