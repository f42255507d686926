//! Little-endian field decoding and fixed-size record tables.
use vstd::prelude::*;

verus! {

pub open spec fn le_u16(b: Seq<u8>, at: int) -> u16 {
    (b[at] as int + b[at + 1] as int * 0x100) as u16
}

pub open spec fn le_u24(b: Seq<u8>, at: int) -> u32 {
    (b[at] as int + b[at + 1] as int * 0x100 + b[at + 2] as int * 0x1_0000) as u32
}

pub open spec fn le_u32(b: Seq<u8>, at: int) -> u32 {
    (b[at] as int + b[at + 1] as int * 0x100 + b[at + 2] as int * 0x1_0000 + b[at + 3] as int
        * 0x100_0000) as u32
}

pub open spec fn le_u64(b: Seq<u8>, at: int) -> u64 {
    (le_u32(b, at) as int + le_u32(b, at + 4) as int * 0x1_0000_0000) as u64
}

pub fn read_u16(b: &[u8], at: usize) -> (r: u16)
    requires
        at + 2 <= b@.len(),
    ensures
        r == le_u16(b@, at as int),
{
    b[at] as u16 + (b[at + 1] as u16) * 0x100
}

pub fn read_u24(b: &[u8], at: usize) -> (r: u32)
    requires
        at + 3 <= b@.len(),
    ensures
        r == le_u24(b@, at as int),
        r < 0x100_0000,
{
    b[at] as u32 + (b[at + 1] as u32) * 0x100 + (b[at + 2] as u32) * 0x1_0000
}

pub fn read_u32(b: &[u8], at: usize) -> (r: u32)
    requires
        at + 4 <= b@.len(),
    ensures
        r == le_u32(b@, at as int),
{
    b[at] as u32 + (b[at + 1] as u32) * 0x100 + (b[at + 2] as u32) * 0x1_0000 + (b[at + 3] as u32)
        * 0x100_0000
}

pub fn read_u64(b: &[u8], at: usize) -> (r: u64)
    requires
        at + 8 <= b@.len(),
    ensures
        r == le_u64(b@, at as int),
{
    let n = b.len();
    let lo = read_u32(b, at);
    let hi = read_u32(b, at + 4);
    lo as u64 + (hi as u64) * 0x1_0000_0000
}

/// A record of fixed size, stored little-endian.
pub trait Record: Sized {
    spec fn spec_size() -> nat;

    spec fn spec_decode(b: Seq<u8>, at: int) -> Self;

    fn size() -> (r: usize)
        ensures
            r == Self::spec_size(),
            0 < r <= 128,
    ;

    fn decode(b: &[u8], at: usize) -> (r: Self)
        requires
            at + Self::spec_size() <= b@.len() <= usize::MAX,
        ensures
            r == Self::spec_decode(b@, at as int),
    ;
}

/// `count` records laid out back to back from byte `at`.
pub open spec fn table<T: Record>(b: Seq<u8>, at: int, count: int) -> Seq<T> {
    Seq::new(count as nat, |i: int| T::spec_decode(b, at + i * T::spec_size()))
}

pub fn read_table<T: Record>(b: &[u8], at: usize, count: usize) -> (r: Vec<T>)
    requires
        at + count * T::spec_size() <= b@.len(),
    ensures
        r@ == table::<T>(b@, at as int, count as int),
{
    let size = T::size();
    let n = b.len();
    let mut out: Vec<T> = Vec::with_capacity(count);
    let mut i: usize = 0;
    let mut pos: usize = at;
    while i < count
        invariant
            size == T::spec_size(),
            0 < size <= 128,
            i <= count,
            at + count * size <= b@.len(),
            n == b@.len(),
            pos == at + i * size,
            out@ == table::<T>(b@, at as int, i as int),
        decreases count - i,
    {
        assert(pos + size <= b@.len()) by (nonlinear_arith)
            requires
                pos == at + i * size,
                i < count,
                at + count * size <= b@.len(),
        ;
        let rec = T::decode(b, pos);
        out.push(rec);
        assert(out@ =~= table::<T>(b@, at as int, i + 1));
        assert(pos + size == at + (i + 1) * size) by (nonlinear_arith)
            requires
                pos == at + i * size,
        ;
        pos = pos + size;
        i = i + 1;
    }
    assert(out@ =~= table::<T>(b@, at as int, count as int));
    out
}

} // verus!
