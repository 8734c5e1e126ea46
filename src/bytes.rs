use vstd::prelude::*;

verus! {

/// The two bytes of `x`, most significant first.
pub open spec fn be_bytes_u16(x: u16) -> Seq<u8> {
    seq![(x >> 8u16) as u8, x as u8]
}

/// The two bytes of `x`, least significant first.
pub open spec fn le_bytes_u16(x: u16) -> Seq<u8> {
    seq![x as u8, (x >> 8u16) as u8]
}

/// The four bytes of `x`, most significant first.
pub open spec fn be_bytes_u32(x: u32) -> Seq<u8> {
    seq![(x >> 24u32) as u8, (x >> 16u32) as u8, (x >> 8u32) as u8, x as u8]
}

/// The four bytes of `x`, least significant first.
pub open spec fn le_bytes_u32(x: u32) -> Seq<u8> {
    seq![x as u8, (x >> 8u32) as u8, (x >> 16u32) as u8, (x >> 24u32) as u8]
}

/// The two bytes of `x` in the requested order.
pub open spec fn bytes_u16(x: u16, big_endian: bool) -> Seq<u8> {
    if big_endian {
        be_bytes_u16(x)
    } else {
        le_bytes_u16(x)
    }
}

/// The four bytes of `x` in the requested order.
pub open spec fn bytes_u32(x: u32, big_endian: bool) -> Seq<u8> {
    if big_endian {
        be_bytes_u32(x)
    } else {
        le_bytes_u32(x)
    }
}

/// Reads a 16-bit value from two bytes in the given order.
pub open spec fn read_u16(s: Seq<u8>, big_endian: bool) -> u16
    recommends
        s.len() == 2,
{
    if big_endian {
        ((s[0] as u16) << 8u16) | (s[1] as u16)
    } else {
        ((s[1] as u16) << 8u16) | (s[0] as u16)
    }
}

/// Reads a 32-bit value from four bytes in the given order.
pub open spec fn read_u32(s: Seq<u8>, big_endian: bool) -> u32
    recommends
        s.len() == 4,
{
    if big_endian {
        ((s[0] as u32) << 24u32) | ((s[1] as u32) << 16u32) | ((s[2] as u32) << 8u32) | (
        s[3] as u32)
    } else {
        ((s[3] as u32) << 24u32) | ((s[2] as u32) << 16u32) | ((s[1] as u32) << 8u32) | (
        s[0] as u32)
    }
}

/// Reading back the bytes of a 16-bit value, in either order, gives the value.
pub proof fn lemma_u16_round_trip(x: u16, big_endian: bool)
    ensures
        bytes_u16(x, big_endian).len() == 2,
        read_u16(bytes_u16(x, big_endian), big_endian) == x,
{
    let hi = (x >> 8u16) as u8;
    let lo = x as u8;
    assert(hi == (x >> 8u16) as u8 && lo == x as u8 ==> ((hi as u16) << 8u16) | (lo as u16)
        == x) by (bit_vector);
}

/// Reading back the bytes of a 32-bit value, in either order, gives the value.
pub proof fn lemma_u32_round_trip(x: u32, big_endian: bool)
    ensures
        bytes_u32(x, big_endian).len() == 4,
        read_u32(bytes_u32(x, big_endian), big_endian) == x,
{
    let b0 = (x >> 24u32) as u8;
    let b1 = (x >> 16u32) as u8;
    let b2 = (x >> 8u32) as u8;
    let b3 = x as u8;
    assert(b0 == (x >> 24u32) as u8 && b1 == (x >> 16u32) as u8 && b2 == (x >> 8u32) as u8 && b3
        == x as u8 ==> ((b0 as u32) << 24u32) | ((b1 as u32) << 16u32) | ((b2 as u32) << 8u32) | (
    b3 as u32) == x) by (bit_vector);
}

/// The bytes of `x` in the requested order.
pub fn u16_bytes(x: u16, big_endian: bool) -> (r: [u8; 2])
    ensures
        r@ == bytes_u16(x, big_endian),
{
    let r = if big_endian {
        [(x >> 8u16) as u8, x as u8]
    } else {
        [x as u8, (x >> 8u16) as u8]
    };
    assert(r@ =~= bytes_u16(x, big_endian));
    r
}

/// The bytes of `x` in the requested order.
pub fn u32_bytes(x: u32, big_endian: bool) -> (r: [u8; 4])
    ensures
        r@ == bytes_u32(x, big_endian),
{
    let r = if big_endian {
        [(x >> 24u32) as u8, (x >> 16u32) as u8, (x >> 8u32) as u8, x as u8]
    } else {
        [x as u8, (x >> 8u32) as u8, (x >> 16u32) as u8, (x >> 24u32) as u8]
    };
    assert(r@ =~= bytes_u32(x, big_endian));
    r
}

/// Copies a run of bytes into a vector.
pub fn copy_bytes(a: &[u8]) -> (r: Vec<u8>)
    ensures
        r@ == a@,
{
    let mut r: Vec<u8> = Vec::new();
    let mut i: usize = 0;
    while i < a.len()
        invariant
            i <= a@.len(),
            r@ == a@.subrange(0, i as int),
        decreases a@.len() - i,
    {
        r.push(a[i]);
        i = i + 1;
        assert(r@ =~= a@.subrange(0, i as int));
    }
    assert(r@ =~= a@);
    r
}

} // verus!
