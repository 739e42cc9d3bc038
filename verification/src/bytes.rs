//! Little-endian readings and writings of fixed-width integers in a byte
//! sequence, with the round-trip facts the header codec needs.

use vstd::prelude::*;

verus! {

/// The `u16` whose little-endian bytes stand at `b[off]` and `b[off + 1]`.
pub open spec fn le_u16(b: Seq<u8>, off: int) -> u16
    recommends
        0 <= off,
        off + 2 <= b.len(),
{
    (b[off] as u16) | ((b[off + 1] as u16) << 8)
}

/// The `u32` whose little-endian bytes stand at `b[off]` .. `b[off + 3]`.
pub open spec fn le_u32(b: Seq<u8>, off: int) -> u32
    recommends
        0 <= off,
        off + 4 <= b.len(),
{
    (b[off] as u32) | ((b[off + 1] as u32) << 8) | ((b[off + 2] as u32) << 16) | ((b[off
        + 3] as u32) << 24)
}

/// The `i32` whose little-endian bytes stand at `b[off]` .. `b[off + 3]`:
/// the two's-complement reading of the same four bytes.
pub open spec fn le_i32(b: Seq<u8>, off: int) -> i32
    recommends
        0 <= off,
        off + 4 <= b.len(),
{
    le_u32(b, off) as i32
}

/// The two little-endian bytes of `v`, low byte first.
pub open spec fn u16_to_le(v: u16) -> Seq<u8> {
    seq![(v & 0xff) as u8, ((v >> 8) & 0xff) as u8]
}

/// The four little-endian bytes of `v`, low byte first.
pub open spec fn u32_to_le(v: u32) -> Seq<u8> {
    seq![
        (v & 0xff) as u8,
        ((v >> 8) & 0xff) as u8,
        ((v >> 16) & 0xff) as u8,
        ((v >> 24) & 0xff) as u8,
    ]
}

/// The four little-endian bytes of `v`, low byte first.
pub open spec fn i32_to_le(v: i32) -> Seq<u8> {
    u32_to_le(v as u32)
}

/// Writing a `u16` and reading it back gives the value itself.
pub proof fn lemma_u16_round_trip(v: u16)
    ensures
        le_u16(u16_to_le(v), 0) == v,
{
    assert((((v & 0xff) as u8 as u16) | ((((v >> 8) & 0xff) as u8 as u16) << 8)) == v)
        by (bit_vector);
}

/// Writing a `u32` and reading it back gives the value itself.
pub proof fn lemma_u32_round_trip(v: u32)
    ensures
        le_u32(u32_to_le(v), 0) == v,
{
    assert((((v & 0xff) as u8 as u32) | ((((v >> 8) & 0xff) as u8 as u32) << 8) | ((((v >> 16)
        & 0xff) as u8 as u32) << 16) | ((((v >> 24) & 0xff) as u8 as u32) << 24)) == v)
        by (bit_vector);
}

/// Writing an `i32` and reading it back gives the value itself.
pub proof fn lemma_i32_round_trip(v: i32)
    ensures
        le_i32(i32_to_le(v), 0) == v,
{
    lemma_u32_round_trip(v as u32);
    assert(v as u32 as i32 == v) by (bit_vector);
}

/// Reading a `u16` from two bytes and writing it back gives the same
/// two bytes.
pub proof fn lemma_u16_bytes_round_trip(x0: u8, x1: u8)
    ensures
        u16_to_le((x0 as u16) | ((x1 as u16) << 8)) == seq![x0, x1],
{
    let v = (x0 as u16) | ((x1 as u16) << 8);
    assert((v & 0xff) as u8 == x0 && ((v >> 8) & 0xff) as u8 == x1) by (bit_vector)
        requires
            v == (x0 as u16) | ((x1 as u16) << 8),
    ;
    assert(u16_to_le(v) =~= seq![x0, x1]);
}

/// Reading a `u32` from four bytes and writing it back gives the same
/// four bytes.
pub proof fn lemma_u32_bytes_round_trip(x0: u8, x1: u8, x2: u8, x3: u8)
    ensures
        u32_to_le(
            (x0 as u32) | ((x1 as u32) << 8) | ((x2 as u32) << 16) | ((x3 as u32) << 24),
        ) == seq![x0, x1, x2, x3],
{
    let v = (x0 as u32) | ((x1 as u32) << 8) | ((x2 as u32) << 16) | ((x3 as u32) << 24);
    assert((v & 0xff) as u8 == x0 && ((v >> 8) & 0xff) as u8 == x1 && ((v >> 16) & 0xff) as u8
        == x2 && ((v >> 24) & 0xff) as u8 == x3) by (bit_vector)
        requires
            v == (x0 as u32) | ((x1 as u32) << 8) | ((x2 as u32) << 16) | ((x3 as u32) << 24),
    ;
    assert(u32_to_le(v) =~= seq![x0, x1, x2, x3]);
}

/// Reading an `i32` from four bytes and writing it back gives the same
/// four bytes.
pub proof fn lemma_i32_bytes_round_trip(x0: u8, x1: u8, x2: u8, x3: u8)
    ensures
        i32_to_le(
            ((x0 as u32) | ((x1 as u32) << 8) | ((x2 as u32) << 16) | ((x3 as u32) << 24)) as i32,
        ) == seq![x0, x1, x2, x3],
{
    let v = (x0 as u32) | ((x1 as u32) << 8) | ((x2 as u32) << 16) | ((x3 as u32) << 24);
    assert(v as i32 as u32 == v) by (bit_vector);
    lemma_u32_bytes_round_trip(x0, x1, x2, x3);
}

/// Reads the little-endian `u16` at `b[off]` and `b[off + 1]`.
pub fn read_u16_le(b: &[u8], off: usize) -> (r: u16)
    requires
        off + 2 <= b@.len(),
    ensures
        r == le_u16(b@, off as int),
{
    (b[off] as u16) | ((b[off + 1] as u16) << 8)
}

/// Reads the little-endian `u32` at `b[off]` .. `b[off + 3]`.
pub fn read_u32_le(b: &[u8], off: usize) -> (r: u32)
    requires
        off + 4 <= b@.len(),
    ensures
        r == le_u32(b@, off as int),
{
    (b[off] as u32) | ((b[off + 1] as u32) << 8) | ((b[off + 2] as u32) << 16) | ((b[off + 3]
        as u32) << 24)
}

/// Reads the little-endian `i32` at `b[off]` .. `b[off + 3]`.
pub fn read_i32_le(b: &[u8], off: usize) -> (r: i32)
    requires
        off + 4 <= b@.len(),
    ensures
        r == le_i32(b@, off as int),
{
    read_u32_le(b, off) as i32
}

/// Appends the two little-endian bytes of `v` to `out`.
pub fn push_u16_le(out: &mut Vec<u8>, v: u16)
    ensures
        final(out)@ == old(out)@ + u16_to_le(v),
{
    out.push((v & 0xff) as u8);
    out.push(((v >> 8) & 0xff) as u8);
    proof {
        assert(out@ =~= old(out)@ + u16_to_le(v));
    }
}

/// Appends the four little-endian bytes of `v` to `out`.
pub fn push_u32_le(out: &mut Vec<u8>, v: u32)
    ensures
        final(out)@ == old(out)@ + u32_to_le(v),
{
    out.push((v & 0xff) as u8);
    out.push(((v >> 8) & 0xff) as u8);
    out.push(((v >> 16) & 0xff) as u8);
    out.push(((v >> 24) & 0xff) as u8);
    proof {
        assert(out@ =~= old(out)@ + u32_to_le(v));
    }
}

/// Appends the four little-endian bytes of `v` to `out`.
pub fn push_i32_le(out: &mut Vec<u8>, v: i32)
    ensures
        final(out)@ == old(out)@ + i32_to_le(v),
{
    push_u32_le(out, v as u32);
}

} // verus!
