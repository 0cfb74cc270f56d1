//! Binary serialization helpers for save states.
//!
//! All multi-byte values are written and read in little-endian order.
//! A state is read back with the same sequence of calls that wrote it.

use vstd::prelude::*;

verus! {

// ---------------------------------------------------------------------------
// Encodings
// ---------------------------------------------------------------------------

/// The byte that encodes a boolean: 1 for true, 0 for false.
pub open spec fn bool_byte(v: bool) -> u8 {
    if v { 1u8 } else { 0u8 }
}

/// Little-endian encoding of a 16-bit value.
pub open spec fn le16(v: u16) -> Seq<u8> {
    seq![(v % 256) as u8, (v / 256) as u8]
}

/// Little-endian encoding of a 32-bit value.
pub open spec fn le32(v: u32) -> Seq<u8> {
    le16((v % 0x1_0000) as u16) + le16((v / 0x1_0000) as u16)
}

/// Little-endian encoding of a 64-bit value.
pub open spec fn le64(v: u64) -> Seq<u8> {
    le32((v % 0x1_0000_0000) as u32) + le32((v / 0x1_0000_0000) as u32)
}

/// The 16-bit value whose little-endian bytes start at `o` in `s`.
pub open spec fn dec16(s: Seq<u8>, o: int) -> u16 {
    (s[o] + 256 * s[o + 1]) as u16
}

/// The 32-bit value whose little-endian bytes start at `o` in `s`.
pub open spec fn dec32(s: Seq<u8>, o: int) -> u32 {
    (dec16(s, o) + 0x1_0000 * dec16(s, o + 2)) as u32
}

/// The 64-bit value whose little-endian bytes start at `o` in `s`.
pub open spec fn dec64(s: Seq<u8>, o: int) -> u64 {
    (dec32(s, o) + 0x1_0000_0000 * dec32(s, o + 4)) as u64
}

/// Length-prefixed encoding of a byte string: its length as `le32`, then the bytes.
pub open spec fn len_prefixed(data: Seq<u8>) -> Seq<u8> {
    le32(data.len() as u32) + data
}

// ---------------------------------------------------------------------------
// Laws of the encodings
// ---------------------------------------------------------------------------

/// Decoding the little-endian bytes of a 16-bit value gives the value back.
pub proof fn lemma_le16_roundtrip(v: u16, s: Seq<u8>, o: int)
    requires
        0 <= o,
        o + 2 <= s.len(),
        s.subrange(o, o + 2) == le16(v),
    ensures
        dec16(s, o) == v,
{
    assert(s[o] == s.subrange(o, o + 2)[0]);
    assert(s[o + 1] == s.subrange(o, o + 2)[1]);
}

/// Decoding the little-endian bytes of a 32-bit value gives the value back.
pub proof fn lemma_le32_roundtrip(v: u32, s: Seq<u8>, o: int)
    requires
        0 <= o,
        o + 4 <= s.len(),
        s.subrange(o, o + 4) == le32(v),
    ensures
        dec32(s, o) == v,
{
    let lo = (v % 0x1_0000) as u16;
    let hi = (v / 0x1_0000) as u16;
    assert(s.subrange(o, o + 2) =~= s.subrange(o, o + 4).subrange(0, 2));
    assert(s.subrange(o + 2, o + 4) =~= s.subrange(o, o + 4).subrange(2, 4));
    assert(le32(v).subrange(0, 2) =~= le16(lo));
    assert(le32(v).subrange(2, 4) =~= le16(hi));
    lemma_le16_roundtrip(lo, s, o);
    lemma_le16_roundtrip(hi, s, o + 2);
}

/// Decoding the little-endian bytes of a 64-bit value gives the value back.
pub proof fn lemma_le64_roundtrip(v: u64, s: Seq<u8>, o: int)
    requires
        0 <= o,
        o + 8 <= s.len(),
        s.subrange(o, o + 8) == le64(v),
    ensures
        dec64(s, o) == v,
{
    let lo = (v % 0x1_0000_0000) as u32;
    let hi = (v / 0x1_0000_0000) as u32;
    assert(s.subrange(o, o + 4) =~= s.subrange(o, o + 8).subrange(0, 4));
    assert(s.subrange(o + 4, o + 8) =~= s.subrange(o, o + 8).subrange(4, 8));
    assert(le64(v).subrange(0, 4) =~= le32(lo));
    assert(le64(v).subrange(4, 8) =~= le32(hi));
    lemma_le32_roundtrip(lo, s, o);
    lemma_le32_roundtrip(hi, s, o + 4);
}

/// A piece of a piece of `d` is a piece of `d`.
pub proof fn lemma_subrange_within(d: Seq<u8>, o: int, n: int, i: int, j: int)
    requires
        0 <= o,
        0 <= i <= j <= n,
        o + n <= d.len(),
    ensures
        d.subrange(o + i, o + j) == d.subrange(o, o + n).subrange(i, j),
{
    assert(d.subrange(o + i, o + j) =~= d.subrange(o, o + n).subrange(i, j));
}

// ---------------------------------------------------------------------------
// Write helpers
// ---------------------------------------------------------------------------

/// Appends one byte.
pub fn write_u8(buf: &mut Vec<u8>, v: u8)
    ensures
        final(buf)@ == old(buf)@.push(v),
{
    buf.push(v);
}

/// Appends a 16-bit value, low byte first.
pub fn write_u16(buf: &mut Vec<u8>, v: u16)
    ensures
        final(buf)@ == old(buf)@ + le16(v),
{
    buf.push((v % 256) as u8);
    buf.push((v / 256) as u8);
    assert(buf@ =~= old(buf)@ + le16(v));
}

/// Appends a 32-bit value, low byte first.
pub fn write_u32(buf: &mut Vec<u8>, v: u32)
    ensures
        final(buf)@ == old(buf)@ + le32(v),
{
    write_u16(buf, (v % 0x1_0000) as u16);
    write_u16(buf, (v / 0x1_0000) as u16);
    assert(buf@ =~= old(buf)@ + le32(v));
}

/// Appends a 64-bit value, low byte first.
pub fn write_u64(buf: &mut Vec<u8>, v: u64)
    ensures
        final(buf)@ == old(buf)@ + le64(v),
{
    write_u32(buf, (v % 0x1_0000_0000) as u32);
    write_u32(buf, (v / 0x1_0000_0000) as u32);
    assert(buf@ =~= old(buf)@ + le64(v));
}

/// Appends a boolean as one byte, 1 for true and 0 for false.
pub fn write_bool(buf: &mut Vec<u8>, v: bool)
    ensures
        final(buf)@ == old(buf)@.push(bool_byte(v)),
{
    buf.push(if v { 1 } else { 0 });
}

/// Appends the length of `data` as a 32-bit value, then the bytes themselves.
pub fn write_bytes(buf: &mut Vec<u8>, data: &[u8])
    requires
        data@.len() <= u32::MAX,
    ensures
        final(buf)@ == old(buf)@ + len_prefixed(data@),
{
    write_u32(buf, data.len() as u32);
    write_slice(buf, data);
    assert(buf@ =~= old(buf)@ + len_prefixed(data@));
}

/// Appends the bytes of `data` with no length prefix.
pub fn write_slice(buf: &mut Vec<u8>, data: &[u8])
    ensures
        final(buf)@ == old(buf)@ + data@,
{
    let ghost start = buf@;
    let n = data.len();
    let mut i: usize = 0;
    while i < n
        invariant
            n == data@.len(),
            i <= n,
            buf@ == start + data@.subrange(0, i as int),
        decreases n - i,
    {
        buf.push(data[i]);
        i = i + 1;
        assert(buf@ =~= start + data@.subrange(0, i as int));
    }
    assert(data@.subrange(0, n as int) =~= data@);
}

// ---------------------------------------------------------------------------
// Read helpers
// ---------------------------------------------------------------------------

/// Reads one byte at `*off` and advances `*off` past it.
pub fn read_u8(data: &[u8], off: &mut usize) -> (v: u8)
    requires
        *old(off) < data@.len(),
    ensures
        v == data@[*old(off) as int],
        *final(off) == *old(off) + 1,
{
    let v = data[*off];
    *off = *off + 1;
    v
}

/// Reads a little-endian 16-bit value at `*off` and advances `*off` past it.
pub fn read_u16(data: &[u8], off: &mut usize) -> (v: u16)
    requires
        *old(off) + 2 <= data@.len(),
    ensures
        v == dec16(data@, *old(off) as int),
        *final(off) == *old(off) + 2,
{
    let o = *off;
    let v: u16 = data[o] as u16 + (data[o + 1] as u16) * 256;
    *off = o + 2;
    v
}

/// Reads a little-endian 32-bit value at `*off` and advances `*off` past it.
pub fn read_u32(data: &[u8], off: &mut usize) -> (v: u32)
    requires
        *old(off) + 4 <= data@.len(),
    ensures
        v == dec32(data@, *old(off) as int),
        *final(off) == *old(off) + 4,
{
    let lo = read_u16(data, off);
    let hi = read_u16(data, off);
    lo as u32 + (hi as u32) * 0x1_0000
}

/// Reads a little-endian 64-bit value at `*off` and advances `*off` past it.
pub fn read_u64(data: &[u8], off: &mut usize) -> (v: u64)
    requires
        *old(off) + 8 <= data@.len(),
    ensures
        v == dec64(data@, *old(off) as int),
        *final(off) == *old(off) + 8,
{
    let lo = read_u32(data, off);
    let hi = read_u32(data, off);
    lo as u64 + (hi as u64) * 0x1_0000_0000
}

/// Reads one byte at `*off` as a boolean (any non-zero byte is true) and advances past it.
pub fn read_bool(data: &[u8], off: &mut usize) -> (v: bool)
    requires
        *old(off) < data@.len(),
    ensures
        v == (data@[*old(off) as int] != 0),
        *final(off) == *old(off) + 1,
{
    let v = data[*off] != 0;
    *off = *off + 1;
    v
}

/// Whether `data` holds, at `o`, a 32-bit length followed by that many bytes.
pub open spec fn fits_len_prefixed(data: Seq<u8>, o: int) -> bool {
    &&& 0 <= o
    &&& o + 4 <= data.len()
    &&& o + 4 + dec32(data, o) <= data.len()
}

/// Reads a length-prefixed byte string at `*off` and advances `*off` past it.
pub fn read_bytes(data: &[u8], off: &mut usize) -> (v: Vec<u8>)
    requires
        fits_len_prefixed(data@, *old(off) as int),
    ensures
        v@ == data@.subrange(
            *old(off) + 4,
            *old(off) + 4 + dec32(data@, *old(off) as int),
        ),
        *final(off) == *old(off) + 4 + dec32(data@, *old(off) as int),
{
    let n = data.len();
    let len = read_u32(data, off) as usize;
    let o = *off;
    assert(o + len <= n);
    let v = vstd::slice::slice_to_vec(vstd::slice::slice_subrange(data, o, o + len));
    *off = o + len;
    v
}

/// Borrows `len` bytes at `*off` and advances `*off` past them.
pub fn read_slice<'a>(data: &'a [u8], off: &mut usize, len: usize) -> (v: &'a [u8])
    requires
        *old(off) + len <= data@.len(),
    ensures
        v@ == data@.subrange(*old(off) as int, *old(off) + len),
        *final(off) == *old(off) + len,
{
    let n = data.len();
    let o = *off;
    assert(o + len <= n);
    let v = vstd::slice::slice_subrange(data, o, o + len);
    *off = o + len;
    v
}

} // verus!
