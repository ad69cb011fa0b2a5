//! Little-endian and big-endian integers in byte sequences.

use vstd::prelude::*;

verus! {

/// The 16-bit little-endian value at `at`.
pub open spec fn le16(s: Seq<u8>, at: int) -> u16 {
    (s[at] + 0x100 * s[at + 1]) as u16
}

/// The 32-bit little-endian value at `at`.
pub open spec fn le32(s: Seq<u8>, at: int) -> u32 {
    (s[at] + 0x100 * s[at + 1] + 0x1_0000 * s[at + 2] + 0x100_0000 * s[at + 3]) as u32
}

/// The 64-bit little-endian value at `at`.
pub open spec fn le64(s: Seq<u8>, at: int) -> u64 {
    (le32(s, at) + 0x1_0000_0000 * le32(s, at + 4)) as u64
}

/// The 16-bit big-endian value at `at`.
pub open spec fn be16(s: Seq<u8>, at: int) -> u16 {
    (0x100 * s[at] + s[at + 1]) as u16
}

/// The 32-bit big-endian value at `at`.
pub open spec fn be32(s: Seq<u8>, at: int) -> u32 {
    (0x100_0000 * s[at] + 0x1_0000 * s[at + 1] + 0x100 * s[at + 2] + s[at + 3]) as u32
}

/// The two bytes of `v`, low byte first.
pub open spec fn le16_bytes(v: u16) -> Seq<u8> {
    seq![(v % 0x100) as u8, (v / 0x100) as u8]
}

/// The four bytes of `v`, low byte first.
pub open spec fn le32_bytes(v: u32) -> Seq<u8> {
    seq![
        (v % 0x100) as u8,
        (v / 0x100 % 0x100) as u8,
        (v / 0x1_0000 % 0x100) as u8,
        (v / 0x100_0000) as u8,
    ]
}

/// The eight bytes of `v`, low byte first.
pub open spec fn le64_bytes(v: u64) -> Seq<u8> {
    le32_bytes((v % 0x1_0000_0000) as u32) + le32_bytes((v / 0x1_0000_0000) as u32)
}

/// The two bytes of `v`, high byte first.
pub open spec fn be16_bytes(v: u16) -> Seq<u8> {
    seq![(v / 0x100) as u8, (v % 0x100) as u8]
}

/// The four bytes of `v`, high byte first.
pub open spec fn be32_bytes(v: u32) -> Seq<u8> {
    seq![
        (v / 0x100_0000) as u8,
        (v / 0x1_0000 % 0x100) as u8,
        (v / 0x100 % 0x100) as u8,
        (v % 0x100) as u8,
    ]
}

/// Read the 32-bit little-endian value at `at`.
pub fn get_le32(s: &[u8], at: usize) -> (v: u32)
    requires
        at + 4 <= s@.len(),
    ensures
        v == le32(s@, at as int),
{
    s[at] as u32 + 0x100 * (s[at + 1] as u32) + 0x1_0000 * (s[at + 2] as u32) + 0x100_0000 * (s[at
        + 3] as u32)
}

/// Read the 64-bit little-endian value at `at`.
pub fn get_le64(s: &[u8], at: usize) -> (v: u64)
    requires
        at + 8 <= s@.len(),
    ensures
        v == le64(s@, at as int),
{
    let _size: usize = s.len();
    let lo: u32 = get_le32(s, at);
    let hi: u32 = get_le32(s, at + 4);
    lo as u64 + 0x1_0000_0000 * (hi as u64)
}

/// Read the 16-bit big-endian value at `at`.
pub fn get_be16(s: &[u8], at: usize) -> (v: u16)
    requires
        at + 2 <= s@.len(),
    ensures
        v == be16(s@, at as int),
{
    0x100 * (s[at] as u16) + s[at + 1] as u16
}

/// Read the 32-bit big-endian value at `at`.
pub fn get_be32(s: &[u8], at: usize) -> (v: u32)
    requires
        at + 4 <= s@.len(),
    ensures
        v == be32(s@, at as int),
{
    0x100_0000 * (s[at] as u32) + 0x1_0000 * (s[at + 1] as u32) + 0x100 * (s[at + 2] as u32) + s[at
        + 3] as u32
}

/// Append `v`, low byte first.
pub fn put_le16(out: &mut Vec<u8>, v: u16)
    ensures
        final(out)@ == old(out)@ + le16_bytes(v),
{
    out.push((v % 0x100) as u8);
    out.push((v / 0x100) as u8);
    assert(out@ =~= old(out)@ + le16_bytes(v));
}

/// Append `v`, low byte first.
pub fn put_le32(out: &mut Vec<u8>, v: u32)
    ensures
        final(out)@ == old(out)@ + le32_bytes(v),
{
    out.push((v % 0x100) as u8);
    out.push((v / 0x100 % 0x100) as u8);
    out.push((v / 0x1_0000 % 0x100) as u8);
    out.push((v / 0x100_0000) as u8);
    assert(out@ =~= old(out)@ + le32_bytes(v));
}

/// Append `v`, low byte first.
pub fn put_le64(out: &mut Vec<u8>, v: u64)
    ensures
        final(out)@ == old(out)@ + le64_bytes(v),
{
    put_le32(out, (v % 0x1_0000_0000) as u32);
    put_le32(out, (v / 0x1_0000_0000) as u32);
    assert(out@ =~= old(out)@ + le64_bytes(v));
}

/// Append `v`, high byte first.
pub fn put_be16(out: &mut Vec<u8>, v: u16)
    ensures
        final(out)@ == old(out)@ + be16_bytes(v),
{
    out.push((v / 0x100) as u8);
    out.push((v % 0x100) as u8);
    assert(out@ =~= old(out)@ + be16_bytes(v));
}

/// Append `v`, high byte first.
pub fn put_be32(out: &mut Vec<u8>, v: u32)
    ensures
        final(out)@ == old(out)@ + be32_bytes(v),
{
    out.push((v / 0x100_0000) as u8);
    out.push((v / 0x1_0000 % 0x100) as u8);
    out.push((v / 0x100 % 0x100) as u8);
    out.push((v % 0x100) as u8);
    assert(out@ =~= old(out)@ + be32_bytes(v));
}

/// Append every byte of `src`.
pub fn put_bytes(out: &mut Vec<u8>, src: &[u8])
    ensures
        final(out)@ == old(out)@ + src@,
{
    let mut i: usize = 0;
    while i < src.len()
        invariant
            i <= src@.len(),
            out@ == old(out)@ + src@.take(i as int),
        decreases src@.len() - i,
    {
        out.push(src[i]);
        i += 1;
        assert(src@.take(i as int) =~= src@.take(i - 1).push(src@[i - 1]));
    }
    assert(src@.take(i as int) =~= src@);
}

/// The first `len` bytes of `src`.
pub fn take_bytes(src: &[u8], len: usize) -> (out: Vec<u8>)
    requires
        len <= src@.len(),
    ensures
        out@ == src@.take(len as int),
{
    let mut out: Vec<u8> = Vec::new();
    let mut i: usize = 0;
    while i < len
        invariant
            i <= len <= src@.len(),
            out@ == src@.take(i as int),
        decreases len - i,
    {
        out.push(src[i]);
        i += 1;
        assert(src@.take(i as int) =~= src@.take(i - 1).push(src@[i - 1]));
    }
    out
}

/// The bytes `from..to` of `src`.
pub fn sub_bytes(src: &[u8], from: usize, to: usize) -> (out: Vec<u8>)
    requires
        from <= to <= src@.len(),
    ensures
        out@ == src@.subrange(from as int, to as int),
{
    let mut out: Vec<u8> = Vec::new();
    let mut i: usize = from;
    while i < to
        invariant
            from <= i <= to <= src@.len(),
            out@ == src@.subrange(from as int, i as int),
        decreases to - i,
    {
        out.push(src[i]);
        i += 1;
        assert(src@.subrange(from as int, i as int) =~= src@.subrange(from as int, i - 1).push(
            src@[i - 1],
        ));
    }
    assert(from == to ==> out@ =~= src@.subrange(from as int, to as int));
    out
}

/// A 16-bit value survives its little-endian bytes.
pub proof fn le16_round_trip(v: u16)
    ensures
        le16(le16_bytes(v), 0) == v,
{
}

/// A 32-bit value survives its little-endian bytes, wherever they stand.
pub proof fn le32_round_trip(before: Seq<u8>, v: u32, after: Seq<u8>)
    ensures
        le32(before + le32_bytes(v) + after, before.len() as int) == v,
{
    let s = before + le32_bytes(v) + after;
    let n = before.len() as int;
    assert(s[n] == le32_bytes(v)[0]);
    assert(s[n + 1] == le32_bytes(v)[1]);
    assert(s[n + 2] == le32_bytes(v)[2]);
    assert(s[n + 3] == le32_bytes(v)[3]);
}

/// A 64-bit value survives its little-endian bytes.
pub proof fn le64_round_trip(v: u64)
    ensures
        le64(le64_bytes(v), 0) == v,
{
    let lo = (v % 0x1_0000_0000) as u32;
    let hi = (v / 0x1_0000_0000) as u32;
    let e = Seq::<u8>::empty();
    assert(e + le32_bytes(lo) + le32_bytes(hi) =~= le64_bytes(v));
    assert(le32_bytes(lo) + le32_bytes(hi) + e =~= le64_bytes(v));
    le32_round_trip(e, lo, le32_bytes(hi));
    le32_round_trip(le32_bytes(lo), hi, e);
}

/// A 16-bit value survives its big-endian bytes.
pub proof fn be16_round_trip(v: u16)
    ensures
        be16(be16_bytes(v), 0) == v,
{
}

/// A 32-bit value survives its big-endian bytes.
pub proof fn be32_round_trip(v: u32)
    ensures
        be32(be32_bytes(v), 0) == v,
{
}

proof fn split32(a: int, b: int, c: int, d: int)
    requires
        0 <= a < 0x100,
        0 <= b < 0x100,
        0 <= c < 0x100,
        0 <= d < 0x100,
    ensures
        ({
            let v = a + 0x100 * b + 0x1_0000 * c + 0x100_0000 * d;
            &&& v % 0x100 == a
            &&& v / 0x100 % 0x100 == b
            &&& v / 0x1_0000 % 0x100 == c
            &&& v / 0x100_0000 == d
        }),
{
    let v = a + 0x100 * b + 0x1_0000 * c + 0x100_0000 * d;
    assert(v / 0x100 == b + 0x100 * c + 0x1_0000 * d);
    assert(v / 0x1_0000 == c + 0x100 * d);
}

/// Four bytes are the bytes of the value they hold.
pub proof fn le32_bytes_of(s: Seq<u8>, at: int)
    requires
        0 <= at,
        at + 4 <= s.len(),
    ensures
        le32_bytes(le32(s, at)) == s.subrange(at, at + 4),
{
    split32(s[at] as int, s[at + 1] as int, s[at + 2] as int, s[at + 3] as int);
    assert(le32_bytes(le32(s, at)) =~= s.subrange(at, at + 4));
}

/// The little-endian forms have the lowest byte first, the big-endian ones the
/// highest.
pub proof fn byte_order(v: u32, w: u16, d: u64)
    ensures
        le32_bytes(v).len() == 4 && be32_bytes(v).len() == 4,
        le32_bytes(v)[0] == v % 0x100 && le32_bytes(v)[3] == v / 0x100_0000,
        be32_bytes(v)[3] == v % 0x100 && be32_bytes(v)[0] == v / 0x100_0000,
        le32_bytes(v)[1] == be32_bytes(v)[2] && le32_bytes(v)[2] == be32_bytes(v)[1],
        le16_bytes(w).len() == 2 && be16_bytes(w).len() == 2,
        le16_bytes(w)[0] == w % 0x100 && le16_bytes(w)[1] == w / 0x100,
        be16_bytes(w)[1] == w % 0x100 && be16_bytes(w)[0] == w / 0x100,
        le64_bytes(d).len() == 8,
        le64_bytes(d).subrange(0, 4) == le32_bytes((d % 0x1_0000_0000) as u32),
        le64_bytes(d).subrange(4, 8) == le32_bytes((d / 0x1_0000_0000) as u32),
{
    assert(le64_bytes(d).subrange(0, 4) =~= le32_bytes((d % 0x1_0000_0000) as u32));
    assert(le64_bytes(d).subrange(4, 8) =~= le32_bytes((d / 0x1_0000_0000) as u32));
}

/// A number that was read is the sum of its bytes by their places.
pub proof fn numbers_are_read_by_place(s: Seq<u8>)
    requires
        s.len() >= 4,
    ensures
        le16(s, 0) == s[0] + 0x100 * s[1],
        be16(s, 0) == 0x100 * s[0] + s[1],
        le32(s, 0) % 0x100 == s[0],
        le32(s, 0) / 0x100_0000 == s[3],
        le32(s, 0) % 0x1_0000 == le16(s, 0),
        be32(s, 0) % 0x100 == s[3],
        be32(s, 0) / 0x100_0000 == s[0],
        be32(s, 0) / 0x1_0000 == be16(s, 0),
{
}

} // verus!
