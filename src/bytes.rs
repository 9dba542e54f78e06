//! Little-endian integer fields inside byte sequences.

use vstd::prelude::*;

verus! {

/// The unsigned integer held little-endian in `s[pos]`, `s[pos + 1]`.
pub open spec fn le16(s: Seq<u8>, pos: int) -> int {
    s[pos] as int + 256 * (s[pos + 1] as int)
}

/// The unsigned integer held little-endian in `s[pos..pos + 4]`.
pub open spec fn le32(s: Seq<u8>, pos: int) -> int {
    le16(s, pos) + 65536 * le16(s, pos + 2)
}

/// The unsigned integer held little-endian in `s[pos..pos + 8]`.
pub open spec fn le64(s: Seq<u8>, pos: int) -> int {
    le32(s, pos) + 4294967296 * le32(s, pos + 4)
}

/// The two little-endian bytes of `x`.
pub open spec fn u16_bytes(x: u16) -> Seq<u8> {
    seq![(x % 256) as u8, (x / 256) as u8]
}

/// The four little-endian bytes of `x`.
pub open spec fn u32_bytes(x: u32) -> Seq<u8> {
    u16_bytes((x % 65536) as u16) + u16_bytes((x / 65536) as u16)
}

/// The eight little-endian bytes of `x`.
pub open spec fn u64_bytes(x: u64) -> Seq<u8> {
    u32_bytes((x % 4294967296) as u32) + u32_bytes((x / 4294967296) as u32)
}

pub proof fn lemma_le16_bounds(s: Seq<u8>, pos: int)
    requires
        0 <= pos,
        pos + 2 <= s.len(),
    ensures
        0 <= le16(s, pos) < 65536,
{
}

pub proof fn lemma_le32_bounds(s: Seq<u8>, pos: int)
    requires
        0 <= pos,
        pos + 4 <= s.len(),
    ensures
        0 <= le32(s, pos) < 4294967296,
{
    lemma_le16_bounds(s, pos);
    lemma_le16_bounds(s, pos + 2);
}

/// Reading back the bytes of a `u16` gives the `u16`.
pub proof fn lemma_u16_round_trip(x: u16, s: Seq<u8>, pos: int)
    requires
        0 <= pos,
        pos + 2 <= s.len(),
        s.subrange(pos, pos + 2) == u16_bytes(x),
    ensures
        le16(s, pos) == x,
{
    assert(s[pos] == s.subrange(pos, pos + 2)[0]);
    assert(s[pos + 1] == s.subrange(pos, pos + 2)[1]);
}

/// Reading back the bytes of a `u32` gives the `u32`.
pub proof fn lemma_u32_round_trip(x: u32, s: Seq<u8>, pos: int)
    requires
        0 <= pos,
        pos + 4 <= s.len(),
        s.subrange(pos, pos + 4) == u32_bytes(x),
    ensures
        le32(s, pos) == x,
{
    let b = u32_bytes(x);
    assert(s.subrange(pos, pos + 2) == s.subrange(pos, pos + 4).subrange(0, 2));
    assert(s.subrange(pos + 2, pos + 4) == s.subrange(pos, pos + 4).subrange(2, 4));
    assert(b.subrange(0, 2) == u16_bytes((x % 65536) as u16));
    assert(b.subrange(2, 4) == u16_bytes((x / 65536) as u16));
    lemma_u16_round_trip((x % 65536) as u16, s, pos);
    lemma_u16_round_trip((x / 65536) as u16, s, pos + 2);
}

/// Reading back the bytes of a `u64` gives the `u64`.
pub proof fn lemma_u64_round_trip(x: u64, s: Seq<u8>, pos: int)
    requires
        0 <= pos,
        pos + 8 <= s.len(),
        s.subrange(pos, pos + 8) == u64_bytes(x),
    ensures
        le64(s, pos) == x,
{
    let b = u64_bytes(x);
    assert(s.subrange(pos, pos + 4) == s.subrange(pos, pos + 8).subrange(0, 4));
    assert(s.subrange(pos + 4, pos + 8) == s.subrange(pos, pos + 8).subrange(4, 8));
    assert(b.subrange(0, 4) == u32_bytes((x % 4294967296) as u32));
    assert(b.subrange(4, 8) == u32_bytes((x / 4294967296) as u32));
    lemma_u32_round_trip((x % 4294967296) as u32, s, pos);
    lemma_u32_round_trip((x / 4294967296) as u32, s, pos + 4);
}

/// Reads the little-endian `u16` at `pos`.
pub fn read_u16(buf: &[u8], pos: usize) -> (r: u16)
    requires
        pos + 2 <= buf@.len(),
    ensures
        r == le16(buf@, pos as int),
{
    buf[pos] as u16 + 256 * (buf[pos + 1] as u16)
}

/// Reads the little-endian `u32` at `pos`.
pub fn read_u32(buf: &[u8], pos: usize) -> (r: u32)
    requires
        pos + 4 <= buf@.len(),
    ensures
        r == le32(buf@, pos as int),
{
    let _n = buf.len();
    let lo = read_u16(buf, pos);
    let hi = read_u16(buf, pos + 2);
    lo as u32 + 65536 * (hi as u32)
}

/// Reads the little-endian `u64` at `pos`.
pub fn read_u64(buf: &[u8], pos: usize) -> (r: u64)
    requires
        pos + 8 <= buf@.len(),
    ensures
        r == le64(buf@, pos as int),
{
    let _n = buf.len();
    let lo = read_u32(buf, pos);
    let hi = read_u32(buf, pos + 4);
    lo as u64 + 4294967296 * (hi as u64)
}

/// Appends the little-endian bytes of `x`.
pub fn push_u16(out: &mut Vec<u8>, x: u16)
    ensures
        final(out)@ == old(out)@ + u16_bytes(x),
{
    out.push((x % 256) as u8);
    out.push((x / 256) as u8);
    assert(out@ =~= old(out)@ + u16_bytes(x));
}

/// Appends the little-endian bytes of `x`.
pub fn push_u32(out: &mut Vec<u8>, x: u32)
    ensures
        final(out)@ == old(out)@ + u32_bytes(x),
{
    push_u16(out, (x % 65536) as u16);
    push_u16(out, (x / 65536) as u16);
    assert(out@ =~= old(out)@ + u32_bytes(x));
}

/// Appends the little-endian bytes of `x`.
pub fn push_u64(out: &mut Vec<u8>, x: u64)
    ensures
        final(out)@ == old(out)@ + u64_bytes(x),
{
    push_u32(out, (x % 4294967296) as u32);
    push_u32(out, (x / 4294967296) as u32);
    assert(out@ =~= old(out)@ + u64_bytes(x));
}

/// Appends `n` zero bytes.
pub fn push_zeros(out: &mut Vec<u8>, n: usize)
    ensures
        final(out)@ == old(out)@ + Seq::new(n as nat, |i: int| 0u8),
{
    let mut k: usize = 0;
    while k < n
        invariant
            k <= n,
            out@ == old(out)@ + Seq::new(k as nat, |i: int| 0u8),
        decreases n - k,
    {
        out.push(0u8);
        k = k + 1;
        assert(out@ =~= old(out)@ + Seq::new(k as nat, |i: int| 0u8));
    }
}

/// Appends `src[start..end]`.
pub fn push_slice(out: &mut Vec<u8>, src: &[u8], start: usize, end: usize)
    requires
        start <= end <= src@.len(),
    ensures
        final(out)@ == old(out)@ + src@.subrange(start as int, end as int),
{
    let mut k: usize = start;
    while k < end
        invariant
            start <= k <= end,
            end <= src@.len(),
            out@ == old(out)@ + src@.subrange(start as int, k as int),
        decreases end - k,
    {
        out.push(src[k]);
        k = k + 1;
        assert(out@ =~= old(out)@ + src@.subrange(start as int, k as int));
    }
}

/// Overwrites every byte of `dst` with the byte of `src` at the same place.
pub fn copy_into(src: &Vec<u8>, dst: &mut [u8])
    requires
        src@.len() == old(dst)@.len(),
    ensures
        final(dst)@ == src@,
{
    let n = dst.len();
    let mut k: usize = 0;
    while k < n
        invariant
            k <= n,
            n == dst@.len(),
            src@.len() == n,
            forall|j: int| 0 <= j < k ==> dst@[j] == src@[j],
        decreases n - k,
    {
        dst[k] = src[k];
        k = k + 1;
    }
    assert(dst@ =~= src@);
}

} // verus!
