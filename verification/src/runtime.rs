//! What every peer leans on: the virtual clock, the station's
//! configuration, a source of random numbers, and the queue of effects that
//! the caller drains.

use vstd::prelude::*;
use rand::rngs::StdRng;
use rand::{Rng, SeedableRng};
use crate::effect::{effects_view, Effect, EffectView};
use crate::fail::Fail;
use crate::options::{ArpOptions, Options};
use crate::protocols::ethernet2::MacAddress;
use crate::protocols::ipv4::address::Ipv4Addr;
use crate::protocols::tcp::options::TcpOptions;
use crate::time::{Duration, Instant};

verus! {

/// A packet that knows its size on the wire and can write itself there.
pub trait PacketBuf {
    /// Whether the packet fits its wire format.
    spec fn valid(&self) -> bool;

    /// The packet on the wire.
    spec fn bytes(&self) -> Seq<u8>;

    /// Whether the packet fits its wire format, for a caller that cannot
    /// know it otherwise.
    fn is_valid(&self) -> (valid: bool)
        ensures
            valid == self.valid(),
    ;

    fn compute_size(&self) -> (size: usize)
        requires
            self.valid(),
        ensures
            size == self.bytes().len(),
    ;

    fn serialize(&self, buf: &mut [u8])
        requires
            self.valid(),
            old(buf)@.len() == self.bytes().len(),
        ensures
            final(buf)@ == self.bytes(),
    ;
}

/// Writes `src` over `buf`, which has the same length.
pub fn copy_into(buf: &mut [u8], src: &[u8])
    requires
        old(buf)@.len() == src@.len(),
    ensures
        final(buf)@ == src@,
{
    let mut i: usize = 0;
    while i < src.len()
        invariant
            i <= src@.len(),
            buf@.len() == src@.len(),
            forall|j: int| 0 <= j < i ==> buf@[j] == src@[j],
        decreases src@.len() - i,
    {
        buf[i] = src[i];
        i = i + 1;
    }
    assert(buf@ =~= src@);
}

/// What a wait hands back: the instant at which it is over.
#[derive(Clone, Copy, Debug, PartialEq, Eq, Structural)]
pub struct WaitFuture {
    pub when: Instant,
}

impl WaitFuture {
    /// Whether the wait is over: the clock has reached the instant that
    /// was waited for.
    pub fn has_completed(&self, rt: &Runtime) -> (done: bool)
        ensures
            done == (rt@.now.nanos >= self.when.nanos),
    {
        rt.now().has_reached(self.when)
    }
}

/// `rand::rngs::StdRng`, the standard generator of `rand`. A value of it
/// is carried through and handed back to `rand`; nothing is known of what
/// it holds.
#[verifier::external_type_specification]
#[verifier::external_body]
pub struct ExStdRng(StdRng);

/// `SeedableRng::seed_from_u64` of `rand`, for its standard generator: a
/// generator whose stream is fixed by `seed`. Nothing is claimed of the
/// stream.
#[verifier::external_body]
fn seeded_rng(seed: u64) -> StdRng {
    StdRng::seed_from_u64(seed)
}

/// `Rng::gen` of `rand`, for a `u32`: the next number of the generator's
/// stream. Nothing is claimed of the number.
#[verifier::external_body]
fn draw_u32(rng: &mut StdRng) -> u32 {
    rng.gen()
}

/// A runtime as contracts speak of it. The random number generator has no
/// part in it: what it yields is not foretold.
pub struct RuntimeView {
    pub now: Instant,
    pub options: Options,
    pub effects: Seq<EffectView>,
}

impl RuntimeView {
    /// The runtime after one more effect has been made observable.
    pub open spec fn emit(self, effect: EffectView) -> RuntimeView {
        RuntimeView { effects: self.effects.push(effect), ..self }
    }

    /// The runtime after one more frame has been handed over for
    /// transmission.
    pub open spec fn transmit(self, frame: Seq<u8>) -> RuntimeView {
        self.emit(EffectView::Transmit(frame))
    }
}

pub struct Runtime {
    now: Instant,
    options: Options,
    effects: Vec<Effect>,
    rng: StdRng,
}

impl View for Runtime {
    type V = RuntimeView;

    closed spec fn view(&self) -> RuntimeView {
        RuntimeView { now: self.now, options: self.options, effects: effects_view(self.effects@) }
    }
}

impl Runtime {
    /// A runtime whose clock reads `now` and which has nothing to report
    /// yet. Options that break a bound are refused.
    pub fn from_options(now: Instant, options: Options) -> (r: Result<Runtime, Fail>)
        ensures
            options.valid() ==> r is Ok && r->Ok_0@ == (RuntimeView {
                now,
                options,
                effects: Seq::<EffectView>::empty(),
            }),
            !options.valid() ==> r is Err && r->Err_0 == Fail::InvalidConfiguration,
    {
        match options.validate() {
            Err(e) => Err(e),
            Ok(()) => {
                let rt = Runtime {
                    now,
                    options,
                    effects: Vec::new(),
                    rng: seeded_rng(options.rng_seed),
                };
                assert(rt@.effects =~= Seq::<EffectView>::empty());
                Ok(rt)
            },
        }
    }

    pub fn now(&self) -> (now: Instant)
        ensures
            now == self@.now,
    {
        self.now
    }

    pub fn options(&self) -> (options: Options)
        ensures
            options == self@.options,
    {
        self.options
    }

    pub fn local_link_addr(&self) -> (addr: MacAddress)
        ensures
            addr == self@.options.my_link_addr,
    {
        self.options.my_link_addr
    }

    pub fn local_ipv4_addr(&self) -> (addr: Ipv4Addr)
        ensures
            addr == self@.options.my_ipv4_addr,
    {
        self.options.my_ipv4_addr
    }

    pub fn arp_options(&self) -> (options: ArpOptions)
        ensures
            options == self@.options.arp,
    {
        self.options.arp
    }

    pub fn tcp_options(&self) -> (options: TcpOptions)
        ensures
            options == self@.options.tcp,
    {
        self.options.tcp
    }

    /// Moves the clock forward to `now`. The clock never runs backwards:
    /// an instant that has passed leaves it where it is.
    pub fn advance_clock(&mut self, now: Instant)
        ensures
            final(self)@ == (RuntimeView {
                now: if now.nanos >= old(self)@.now.nanos {
                    now
                } else {
                    old(self)@.now
                },
                ..old(self)@
            }),
    {
        if now.has_reached(self.now) {
            self.now = now;
        }
    }

    /// A wait for `duration` from now on. It is over once the clock has
    /// been moved that far, and not before.
    pub fn wait(&self, duration: Duration) -> (f: WaitFuture)
        ensures
            f.when == self@.now.plus(duration),
    {
        WaitFuture { when: self.now.saturating_add(duration) }
    }

    /// A wait until `when`. It is over once the clock has been moved
    /// there, and not before.
    pub fn wait_until(&self, when: Instant) -> (f: WaitFuture)
        ensures
            f.when == when,
    {
        WaitFuture { when }
    }

    /// Makes `effect` observable, behind those that already are.
    pub fn emit_effect(&mut self, effect: Effect)
        ensures
            final(self)@ == old(self)@.emit(effect@),
    {
        self.effects.push(effect);
        assert(final(self)@.effects =~= old(self)@.effects.push(effect@));
    }

    /// Hands a complete frame over for transmission.
    pub fn transmit(&mut self, frame: Vec<u8>)
        ensures
            final(self)@ == old(self)@.transmit(frame@),
    {
        self.emit_effect(Effect::Transmit(frame));
    }

    /// Writes a packet out and hands the frame over for transmission.
    pub fn transmit2<P: PacketBuf>(&mut self, pkt: &P)
        requires
            pkt.valid(),
        ensures
            final(self)@ == old(self)@.transmit(pkt.bytes()),
    {
        let size = pkt.compute_size();
        let mut frame: Vec<u8> = Vec::new();
        crate::wire::push_zeros(&mut frame, size);
        pkt.serialize(frame.as_mut_slice());
        self.transmit(frame);
    }

    /// The oldest effect that has not been drained yet, if there is one.
    pub fn poll(&mut self) -> (effect: Option<Effect>)
        ensures
            old(self)@.effects.len() == 0 ==> effect is None && final(self)@ == old(self)@,
            old(self)@.effects.len() > 0 ==> effect is Some && effect->Some_0@ == old(self)@.effects[0] && final(self)@ == (RuntimeView {
                effects: old(self)@.effects.drop_first(),
                ..old(self)@
            }),
    {
        if self.effects.len() == 0 {
            None
        } else {
            let effect = self.effects.remove(0);
            assert(final(self)@.effects =~= old(self)@.effects.drop_first());
            Some(effect)
        }
    }

    /// A random number. Nothing else changes.
    pub fn rng_gen(&mut self) -> (n: u32)
        ensures
            final(self)@ == old(self)@,
    {
        draw_u32(&mut self.rng)
    }
}

} // verus!
