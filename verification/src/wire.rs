//! Big-endian fields and the Internet checksum, over plain bytes.

use vstd::prelude::*;

verus! {

/// The 16-bit number whose high byte is `hi` and whose low byte is `lo`.
pub open spec fn u16_of(hi: u8, lo: u8) -> u16 {
    (hi * 256 + lo) as u16
}

/// The big-endian 16-bit number at `b[i]`, `b[i + 1]`.
pub open spec fn u16_at(b: Seq<u8>, i: int) -> u16 {
    u16_of(b[i], b[i + 1])
}

/// The two bytes of `v`, high byte first.
pub open spec fn u16_bytes(v: u16) -> Seq<u8> {
    seq![(v / 256) as u8, (v % 256) as u8]
}

/// The big-endian 32-bit number at `b[i] .. b[i + 3]`.
pub open spec fn u32_at(b: Seq<u8>, i: int) -> u32 {
    (b[i] * 16777216 + b[i + 1] * 65536 + b[i + 2] * 256 + b[i + 3]) as u32
}

/// The four bytes of `v`, highest byte first.
pub open spec fn u32_bytes(v: u32) -> Seq<u8> {
    seq![
        (v / 16777216) as u8,
        ((v / 65536) % 256) as u8,
        ((v / 256) % 256) as u8,
        (v % 256) as u8,
    ]
}

pub fn read_u16(b: &[u8], i: usize) -> (v: u16)
    requires
        i + 2 <= b@.len(),
    ensures
        v == u16_at(b@, i as int),
{
    (b[i] as u16) * 256 + (b[i + 1] as u16)
}

pub fn read_u32(b: &[u8], i: usize) -> (v: u32)
    requires
        i + 4 <= b@.len(),
    ensures
        v == u32_at(b@, i as int),
{
    (b[i] as u32) * 16777216 + (b[i + 1] as u32) * 65536 + (b[i + 2] as u32) * 256 + (b[i + 3] as u32)
}

pub fn push_u16(buf: &mut Vec<u8>, v: u16)
    ensures
        final(buf)@ == old(buf)@ + u16_bytes(v),
{
    buf.push((v / 256) as u8);
    buf.push((v % 256) as u8);
    assert(buf@ =~= old(buf)@ + u16_bytes(v));
}

pub fn push_u32(buf: &mut Vec<u8>, v: u32)
    ensures
        final(buf)@ == old(buf)@ + u32_bytes(v),
{
    buf.push((v / 16777216) as u8);
    buf.push(((v / 65536) % 256) as u8);
    buf.push(((v / 256) % 256) as u8);
    buf.push((v % 256) as u8);
    assert(buf@ =~= old(buf)@ + u32_bytes(v));
}

/// Appends `src[from..to]` to `buf`.
pub fn push_bytes(buf: &mut Vec<u8>, src: &[u8], from: usize, to: usize)
    requires
        from <= to <= src@.len(),
    ensures
        final(buf)@ == old(buf)@ + src@.subrange(from as int, to as int),
{
    let mut i: usize = from;
    while i < to
        invariant
            from <= i <= to <= src@.len(),
            buf@ == old(buf)@ + src@.subrange(from as int, i as int),
        decreases to - i,
    {
        buf.push(src[i]);
        i = i + 1;
        assert(buf@ =~= old(buf)@ + src@.subrange(from as int, i as int));
    }
}

/// Appends `count` zero bytes to `buf`.
pub fn push_zeros(buf: &mut Vec<u8>, count: usize)
    ensures
        final(buf)@ == old(buf)@ + Seq::new(count as nat, |i: int| 0u8),
{
    let mut i: usize = 0;
    while i < count
        invariant
            i <= count,
            buf@ == old(buf)@ + Seq::new(i as nat, |j: int| 0u8),
        decreases count - i,
    {
        buf.push(0u8);
        i = i + 1;
        assert(buf@ =~= old(buf)@ + Seq::new(i as nat, |j: int| 0u8));
    }
}

/// The sum of the first `n` bytes of `b`, each weighted by its place in a
/// big-endian 16-bit word: 256 at an even index, 1 at an odd one. For the
/// whole of `b` this is the sum of its 16-bit words, a trailing odd byte
/// being padded with zero.
pub open spec fn word_sum(b: Seq<u8>, n: int) -> nat
    decreases n,
{
    if n <= 0 {
        0
    } else {
        word_sum(b, n - 1) + (if (n - 1) % 2 == 0 { b[n - 1] * 256 } else { b[n - 1] as int }) as nat
    }
}

/// End-around carry: folds a sum into 16 bits.
pub open spec fn fold16(s: nat) -> nat
    decreases s,
{
    if s < 65536 {
        s
    } else {
        fold16(s / 65536 + s % 65536)
    }
}

/// The Internet checksum of `b`: the one's complement of the one's
/// complement sum of its 16-bit words.
pub open spec fn checksum_of(b: Seq<u8>) -> u16 {
    (65535 - fold16(word_sum(b, b.len() as int))) as u16
}

/// Computes the Internet checksum of `b`.
pub fn checksum(b: &[u8]) -> (c: u16)
    ensures
        c == checksum_of(b@),
{
    let mut sum: u128 = 0;
    let mut i: usize = 0;
    while i < b.len()
        invariant
            i <= b@.len(),
            sum == word_sum(b@, i as int),
            sum <= i * 65280,
        decreases b@.len() - i,
    {
        let weight: u128 = if i % 2 == 0 { 256 } else { 1 };
        sum = sum + (b[i] as u128) * weight;
        i = i + 1;
    }
    while sum >= 65536
        invariant
            fold16(sum as nat) == fold16(word_sum(b@, b@.len() as int)),
        decreases sum,
    {
        sum = sum / 65536 + sum % 65536;
    }
    (65535 - sum) as u16
}

} // verus!
