//! Big-endian integers and raw bytes in a growable buffer.
use vstd::prelude::*;

verus! {

/// The byte that separates the segments of a hierarchical name.
pub const SEP: u8 = 0x2F;

/// The two big-endian bytes of a 16-bit value.
pub open spec fn be16(v: u16) -> Seq<u8> {
    seq![(v >> 8u16) as u8, v as u8]
}

/// The 16-bit value of two big-endian bytes.
pub open spec fn be16_value(hi: u8, lo: u8) -> u16 {
    ((hi as u16) << 8u16) | (lo as u16)
}

/// The eight big-endian bytes of a 64-bit value.
pub open spec fn be64(v: u64) -> Seq<u8> {
    seq![
        (v >> 56u64) as u8,
        (v >> 48u64) as u8,
        (v >> 40u64) as u8,
        (v >> 32u64) as u8,
        (v >> 24u64) as u8,
        (v >> 16u64) as u8,
        (v >> 8u64) as u8,
        v as u8,
    ]
}

/// The 64-bit value of the first eight bytes of `b`, read big-endian.
pub open spec fn be64_value(b: Seq<u8>) -> u64
    recommends
        b.len() >= 8,
{
    ((b[0] as u64) << 56u64) | ((b[1] as u64) << 48u64) | ((b[2] as u64) << 40u64) | ((
    b[3] as u64) << 32u64) | ((b[4] as u64) << 24u64) | ((b[5] as u64) << 16u64) | ((
    b[6] as u64) << 8u64) | (b[7] as u64)
}

/// Two bytes written big-endian read back as the value they were written from.
pub proof fn lemma_be16_round_trip(v: u16)
    ensures
        be16_value(be16(v)[0], be16(v)[1]) == v,
{
    let hi = (v >> 8u16) as u8;
    let lo = v as u8;
    assert(((hi as u16) << 8u16) | (lo as u16) == v) by (bit_vector)
        requires
            hi == (v >> 8u16) as u8,
            lo == v as u8,
    ;
}

/// Eight bytes written big-endian read back as the value they were written from.
pub proof fn lemma_be64_round_trip(v: u64)
    ensures
        be64_value(be64(v)) == v,
{
    let b = be64(v);
    let (b0, b1, b2, b3, b4, b5, b6, b7) = (b[0], b[1], b[2], b[3], b[4], b[5], b[6], b[7]);
    assert(((b0 as u64) << 56u64) | ((b1 as u64) << 48u64) | ((b2 as u64) << 40u64) | ((
    b3 as u64) << 32u64) | ((b4 as u64) << 24u64) | ((b5 as u64) << 16u64) | ((b6 as u64)
        << 8u64) | (b7 as u64) == v) by (bit_vector)
        requires
            b0 == (v >> 56u64) as u8,
            b1 == (v >> 48u64) as u8,
            b2 == (v >> 40u64) as u8,
            b3 == (v >> 32u64) as u8,
            b4 == (v >> 24u64) as u8,
            b5 == (v >> 16u64) as u8,
            b6 == (v >> 8u64) as u8,
            b7 == v as u8,
    ;
}

/// Appends the big-endian bytes of `v`.
pub fn put_u16_be(buf: &mut Vec<u8>, v: u16)
    ensures
        final(buf)@ == old(buf)@ + be16(v),
{
    buf.push((v >> 8u16) as u8);
    buf.push(v as u8);
    assert(final(buf)@ =~= old(buf)@ + be16(v));
}

/// Appends the big-endian bytes of `v`.
pub fn put_u64_be(buf: &mut Vec<u8>, v: u64)
    ensures
        final(buf)@ == old(buf)@ + be64(v),
{
    buf.push((v >> 56u64) as u8);
    buf.push((v >> 48u64) as u8);
    buf.push((v >> 40u64) as u8);
    buf.push((v >> 32u64) as u8);
    buf.push((v >> 24u64) as u8);
    buf.push((v >> 16u64) as u8);
    buf.push((v >> 8u64) as u8);
    buf.push(v as u8);
    assert(final(buf)@ =~= old(buf)@ + be64(v));
}

/// Appends every byte of `s`, in order.
pub fn put_slice(buf: &mut Vec<u8>, s: &[u8])
    ensures
        final(buf)@ == old(buf)@ + s@,
{
    let mut i: usize = 0;
    while i < s.len()
        invariant
            i <= s@.len(),
            buf@ == old(buf)@ + s@.subrange(0, i as int),
        decreases s@.len() - i,
    {
        buf.push(s[i]);
        i = i + 1;
        assert(buf@ =~= old(buf)@ + s@.subrange(0, i as int));
    }
    assert(s@.subrange(0, s@.len() as int) =~= s@);
}

/// The 64-bit value of the eight bytes of `buf` from `pos`, read big-endian.
pub fn get_u64_be(buf: &[u8], pos: usize) -> (r: u64)
    requires
        pos + 8 <= buf@.len(),
    ensures
        r == be64_value(buf@.subrange(pos as int, pos + 8)),
{
    ((buf[pos] as u64) << 56u64) | ((buf[pos + 1] as u64) << 48u64) | ((buf[pos + 2] as u64)
        << 40u64) | ((buf[pos + 3] as u64) << 32u64) | ((buf[pos + 4] as u64) << 24u64) | ((
    buf[pos + 5] as u64) << 16u64) | ((buf[pos + 6] as u64) << 8u64) | (buf[pos + 7] as u64)
}

/// The 16-bit value of the two bytes of `buf` from `pos`, read big-endian.
pub fn get_u16_be(buf: &[u8], pos: usize) -> (r: u16)
    requires
        pos + 2 <= buf@.len(),
    ensures
        r == be16_value(buf@[pos as int], buf@[pos + 1]),
{
    ((buf[pos] as u16) << 8u16) | (buf[pos + 1] as u16)
}

} // verus!
