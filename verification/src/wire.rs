//! Byte-level building blocks of the wire format.
//!
//! Multi-byte integers travel big-endian (high byte first).  The `Wire`
//! trait is the payload codec boundary: a payload type says what its
//! encoded bytes are (`wire`), how a byte sequence is read back
//! (`parsed`), and proves that the two agree (`lemma_round_trip`).

use vstd::prelude::*;
use vstd::arithmetic::div_mod::lemma_fundamental_div_mod;

verus! {

broadcast use vstd::array::group_array_axioms;

/// Big-endian bytes of a `u16`.
pub open spec fn be16(x: u16) -> Seq<u8> {
    seq![(x / 256) as u8, (x % 256) as u8]
}

/// The `u16` read back from two big-endian bytes.
pub open spec fn u16_from(s: Seq<u8>) -> u16 {
    (s[0] * 256 + s[1]) as u16
}

/// Big-endian bytes of a `u32`.
pub open spec fn be32(x: u32) -> Seq<u8> {
    be16((x / 0x10000) as u16) + be16((x % 0x10000) as u16)
}

/// The `u32` read back from four big-endian bytes.
pub open spec fn u32_from(s: Seq<u8>) -> u32 {
    (u16_from(s.subrange(0, 2)) * 0x10000 + u16_from(s.subrange(2, 4))) as u32
}

/// Big-endian bytes of a `u64`.
pub open spec fn be64(x: u64) -> Seq<u8> {
    be32((x / 0x1_0000_0000) as u32) + be32((x % 0x1_0000_0000) as u32)
}

/// The `u64` read back from eight big-endian bytes.
pub open spec fn u64_from(s: Seq<u8>) -> u64 {
    (u32_from(s.subrange(0, 4)) * 0x1_0000_0000 + u32_from(s.subrange(4, 8))) as u64
}

/// Big-endian bytes of an `i32`, in two's complement.
pub open spec fn bei32(x: i32) -> Seq<u8> {
    be32(if x >= 0 {
        x as u32
    } else {
        (x + 0x1_0000_0000) as u32
    })
}

/// The `i32` read back from four big-endian two's-complement bytes.
pub open spec fn i32_from(s: Seq<u8>) -> i32 {
    if u32_from(s) <= 0x7fff_ffff {
        u32_from(s) as i32
    } else {
        (u32_from(s) - 0x1_0000_0000) as i32
    }
}

pub proof fn lemma_be16_round(x: u16)
    ensures
        be16(x).len() == 2,
        u16_from(be16(x)) == x,
{
    lemma_fundamental_div_mod(x as int, 256);
}

pub proof fn lemma_be32_round(x: u32)
    ensures
        be32(x).len() == 4,
        u32_from(be32(x)) == x,
{
    lemma_fundamental_div_mod(x as int, 0x10000);
    let hi = (x / 0x10000) as u16;
    let lo = (x % 0x10000) as u16;
    lemma_be16_round(hi);
    lemma_be16_round(lo);
    assert(be32(x).subrange(0, 2) =~= be16(hi));
    assert(be32(x).subrange(2, 4) =~= be16(lo));
}

pub proof fn lemma_be64_round(x: u64)
    ensures
        be64(x).len() == 8,
        u64_from(be64(x)) == x,
{
    lemma_fundamental_div_mod(x as int, 0x1_0000_0000);
    let hi = (x / 0x1_0000_0000) as u32;
    let lo = (x % 0x1_0000_0000) as u32;
    lemma_be32_round(hi);
    lemma_be32_round(lo);
    assert(be64(x).subrange(0, 4) =~= be32(hi));
    assert(be64(x).subrange(4, 8) =~= be32(lo));
}

pub proof fn lemma_bei32_round(x: i32)
    ensures
        bei32(x).len() == 4,
        i32_from(bei32(x)) == x,
{
    if x >= 0 {
        lemma_be32_round(x as u32);
    } else {
        lemma_be32_round((x + 0x1_0000_0000) as u32);
    }
}

/// Appends the two big-endian bytes of `x`.
pub fn push_be16(out: &mut Vec<u8>, x: u16)
    ensures
        final(out)@ == old(out)@ + be16(x),
{
    proof {
        lemma_fundamental_div_mod(x as int, 256);
    }
    out.push((x / 256) as u8);
    out.push((x % 256) as u8);
    assert(out@ =~= old(out)@ + be16(x));
}

/// Appends the four big-endian bytes of `x`.
pub fn push_be32(out: &mut Vec<u8>, x: u32)
    ensures
        final(out)@ == old(out)@ + be32(x),
{
    proof {
        lemma_fundamental_div_mod(x as int, 0x10000);
    }
    push_be16(out, (x / 0x10000) as u16);
    push_be16(out, (x % 0x10000) as u16);
    assert(out@ =~= old(out)@ + be32(x));
}

/// Appends the eight big-endian bytes of `x`.
pub fn push_be64(out: &mut Vec<u8>, x: u64)
    ensures
        final(out)@ == old(out)@ + be64(x),
{
    proof {
        lemma_fundamental_div_mod(x as int, 0x1_0000_0000);
    }
    push_be32(out, (x / 0x1_0000_0000) as u32);
    push_be32(out, (x % 0x1_0000_0000) as u32);
    assert(out@ =~= old(out)@ + be64(x));
}

/// Appends the four big-endian two's-complement bytes of `x`.
pub fn push_bei32(out: &mut Vec<u8>, x: i32)
    ensures
        final(out)@ == old(out)@ + bei32(x),
{
    let u: u32 = if x >= 0 {
        x as u32
    } else {
        (x as i64 + 0x1_0000_0000i64) as u32
    };
    push_be32(out, u);
}

/// Reads the `u16` stored big-endian at `off`.
pub fn read_be16(b: &[u8], off: usize) -> (r: u16)
    requires
        off + 2 <= b@.len(),
    ensures
        r == u16_from(b@.subrange(off as int, off + 2)),
{
    (b[off] as u16) * 256 + (b[off + 1] as u16)
}

/// Reads the `u32` stored big-endian at `off`.
pub fn read_be32(b: &[u8], off: usize) -> (r: u32)
    requires
        off + 4 <= b@.len(),
    ensures
        r == u32_from(b@.subrange(off as int, off + 4)),
{
    assert(off + 2 <= b.len());
    let hi = read_be16(b, off);
    let lo = read_be16(b, off + 2);
    proof {
        let s = b@.subrange(off as int, off + 4);
        assert(s.subrange(0, 2) =~= b@.subrange(off as int, off + 2));
        assert(s.subrange(2, 4) =~= b@.subrange(off + 2, off + 4));
    }
    (hi as u32) * 0x10000 + (lo as u32)
}

/// Reads the `u64` stored big-endian at `off`.
pub fn read_be64(b: &[u8], off: usize) -> (r: u64)
    requires
        off + 8 <= b@.len(),
    ensures
        r == u64_from(b@.subrange(off as int, off + 8)),
{
    assert(off + 4 <= b.len());
    let hi = read_be32(b, off);
    let lo = read_be32(b, off + 4);
    proof {
        let s = b@.subrange(off as int, off + 8);
        assert(s.subrange(0, 4) =~= b@.subrange(off as int, off + 4));
        assert(s.subrange(4, 8) =~= b@.subrange(off + 4, off + 8));
    }
    (hi as u64) * 0x1_0000_0000 + (lo as u64)
}

/// Reads the `i32` stored big-endian at `off`, in two's complement.
pub fn read_bei32(b: &[u8], off: usize) -> (r: i32)
    requires
        off + 4 <= b@.len(),
    ensures
        r == i32_from(b@.subrange(off as int, off + 4)),
{
    let u = read_be32(b, off);
    if u <= 0x7fff_ffff {
        u as i32
    } else {
        (u as i64 - 0x1_0000_0000i64) as i32
    }
}

/// The array whose contents are the byte sequence `s`.
pub open spec fn bytes_as_array<const N: usize>(s: Seq<u8>) -> [u8; N] {
    choose|a: [u8; N]| a@ == s
}

/// `bytes_as_array` is the identity on any array's own contents.
pub proof fn lemma_bytes_as_array<const N: usize>(a: [u8; N])
    ensures
        bytes_as_array::<N>(a@) == a,
{
    assert(exists|x: [u8; N]| x@ == a@) by {
        assert(a@ == a@);
    }
    let c = choose|x: [u8; N]| x@ == a@;
    assert(c =~= a);
}

/// Copies `N` bytes starting at `off` into a fresh array.
pub fn array_from_slice<const N: usize>(b: &[u8], off: usize) -> (r: [u8; N])
    requires
        off + N <= b@.len(),
    ensures
        r@ == b@.subrange(off as int, off + N),
{
    let mut a = [0u8; N];
    let mut i: usize = 0;
    while i < N
        invariant
            0 <= i <= N,
            off + N <= b.len(),
            a@.len() == N,
            forall|j: int| 0 <= j < i ==> a@[j] == b@[off + j],
        decreases N - i,
    {
        a[i] = b[off + i];
        i = i + 1;
    }
    assert(a@ =~= b@.subrange(off as int, off + N));
    a
}

/// Appends the contents of an array.
pub fn push_array<const N: usize>(out: &mut Vec<u8>, a: &[u8; N])
    ensures
        final(out)@ == old(out)@ + a@,
{
    let mut i: usize = 0;
    while i < N
        invariant
            0 <= i <= N,
            out@ == old(out)@ + a@.take(i as int),
        decreases N - i,
    {
        out.push(a[i]);
        assert(out@ =~= old(out)@ + a@.take(i + 1));
        i = i + 1;
    }
    assert(out@ =~= old(out)@ + a@);
}

/// A payload type that can travel inside a message: it has a canonical
/// byte encoding, a parser for it, and a proof that parsing inverts
/// encoding.
pub trait Wire: Sized {
    /// The canonical encoded bytes of this value.
    spec fn wire(&self) -> Seq<u8>;

    /// The value read back from a byte sequence, or `None` when the
    /// bytes are not a canonical encoding.
    spec fn parsed(b: Seq<u8>) -> Option<Self>;

    /// Parsing inverts encoding.
    proof fn lemma_round_trip(&self)
        ensures
            Self::parsed(self.wire()) == Some(*self),
    ;

    /// Appends the canonical encoding of `self` to `out`.
    fn encode(&self, out: &mut Vec<u8>)
        ensures
            final(out)@ == old(out)@ + self.wire(),
    ;

    /// Parses a value from exactly the given bytes.
    fn decode(b: &[u8]) -> (r: Option<Self>)
        ensures
            r == Self::parsed(b@),
    ;
}

/// The empty payload: encodes to zero bytes.
impl Wire for () {
    open spec fn wire(&self) -> Seq<u8> {
        Seq::empty()
    }

    open spec fn parsed(b: Seq<u8>) -> Option<()> {
        if b.len() == 0 {
            Some(())
        } else {
            None
        }
    }

    proof fn lemma_round_trip(&self) {
    }

    fn encode(&self, out: &mut Vec<u8>) {
        assert(out@ =~= old(out)@ + self.wire());
    }

    fn decode(b: &[u8]) -> (r: Option<()>) {
        if b.len() == 0 {
            Some(())
        } else {
            None
        }
    }
}

/// Raw fixed-size byte payloads: the bytes themselves are the encoding.
impl<const N: usize> Wire for [u8; N] {
    open spec fn wire(&self) -> Seq<u8> {
        self@
    }

    open spec fn parsed(b: Seq<u8>) -> Option<[u8; N]> {
        if b.len() == N {
            Some(bytes_as_array::<N>(b))
        } else {
            None
        }
    }

    proof fn lemma_round_trip(&self) {
        lemma_bytes_as_array::<N>(*self);
    }

    fn encode(&self, out: &mut Vec<u8>) {
        push_array(out, self);
    }

    fn decode(b: &[u8]) -> (r: Option<[u8; N]>) {
        if b.len() == N {
            let a = array_from_slice::<N>(b, 0);
            proof {
                assert(a@ =~= b@);
                lemma_bytes_as_array::<N>(a);
            }
            Some(a)
        } else {
            None
        }
    }
}

} // verus!
