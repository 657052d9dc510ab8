use vstd::prelude::*;
use crate::wire::{push_u32, read_u32, u32_at, u32_bytes};

verus! {

/// A 32-bit network address.
#[derive(Clone, Copy, Debug, PartialEq, Eq, Structural, Hash)]
pub struct Ipv4Addr {
    pub value: u32,
}

impl Ipv4Addr {
    /// The address `a.b.c.d`.
    pub fn new(a: u8, b: u8, c: u8, d: u8) -> (addr: Ipv4Addr)
        ensures
            addr.value == a * 16777216 + b * 65536 + c * 256 + d,
            addr.bytes() == seq![a, b, c, d],
    {
        let value: u32 = (a as u32) * 16777216 + (b as u32) * 65536 + (c as u32) * 256 + (d as u32);
        assert(value / 16777216 == a && (value / 65536) % 256 == b && (value / 256) % 256 == c
            && value % 256 == d) by (bit_vector)
            requires
                value == (a as u32) * 16777216 + (b as u32) * 65536 + (c as u32) * 256 + (d as u32),
        ;
        let addr = Ipv4Addr { value };
        assert(addr.bytes() =~= seq![a, b, c, d]);
        addr
    }

    /// The limited broadcast address, 255.255.255.255.
    pub fn broadcast() -> (addr: Ipv4Addr)
        ensures
            addr.is_broadcast(),
    {
        Ipv4Addr { value: 0xffff_ffff }
    }

    #[verifier::when_used_as_spec(spec_is_broadcast)]
    pub fn is_broadcast(&self) -> (b: bool)
        ensures
            b == self.spec_is_broadcast(),
    {
        self.value == 0xffff_ffff
    }

    pub open spec fn spec_is_broadcast(&self) -> bool {
        self.value == 0xffff_ffff
    }

    /// The four bytes of the address, in transmission order.
    pub open spec fn bytes(self) -> Seq<u8> {
        u32_bytes(self.value)
    }

    /// The address held in `b[i] .. b[i + 3]`.
    pub open spec fn at(b: Seq<u8>, i: int) -> Ipv4Addr {
        Ipv4Addr { value: u32_at(b, i) }
    }

    pub fn octets(&self) -> (o: [u8; 4])
        ensures
            o@ == self.bytes(),
    {
        let v = self.value;
        let o = [
            (v / 16777216) as u8,
            ((v / 65536) % 256) as u8,
            ((v / 256) % 256) as u8,
            (v % 256) as u8,
        ];
        assert(o@ =~= self.bytes());
        o
    }

    pub fn read(b: &[u8], i: usize) -> (addr: Ipv4Addr)
        requires
            i + 4 <= b@.len(),
        ensures
            addr == Ipv4Addr::at(b@, i as int),
    {
        Ipv4Addr { value: read_u32(b, i) }
    }

    pub fn push_to(&self, buf: &mut Vec<u8>)
        ensures
            final(buf)@ == old(buf)@ + self.bytes(),
    {
        push_u32(buf, self.value);
    }
}

} // verus!
