//! One guest access to a device register.

use vstd::prelude::*;

use crate::bytes::{le32, le32_bytes, le64, le64_bytes, put_le32, put_le64};

verus! {

/// A guest access: a read of a number of bytes, or a write of the bytes given.
#[derive(Debug, Clone, Copy)]
pub enum RWOp<'a> {
    Read(usize),
    Write(&'a [u8]),
}

/// The first `n` bytes of `s`, with zeros after its end.
pub open spec fn zero_extended(s: Seq<u8>, n: nat) -> Seq<u8> {
    Seq::new(n, |i: int| if i < s.len() { s[i] } else { 0u8 })
}

/// What a read of `len` bytes at `offset` sees of the aligned dword that
/// holds `offset`: the dword's bytes from `offset % 4` on, then zeros.
pub open spec fn dword_at(val: u32, offset: int, len: nat) -> Seq<u8> {
    zero_extended(le32_bytes(val).skip(offset % 4), len)
}

/// What a read of `len` bytes sees of a value that starts at its offset.
pub open spec fn dword(val: u32, len: nat) -> Seq<u8> {
    zero_extended(le32_bytes(val), len)
}

/// What a read of `len` bytes sees of one byte.
pub open spec fn single(val: u8, len: nat) -> Seq<u8> {
    zero_extended(seq![val], len)
}

/// The 32-bit value that a write of `bytes` carries.
pub open spec fn written32(bytes: Seq<u8>) -> u32 {
    le32(zero_extended(bytes, 4), 0)
}

/// The 64-bit value that a write of `bytes` carries.
pub open spec fn written64(bytes: Seq<u8>) -> u64 {
    le64(zero_extended(bytes, 8), 0)
}

/// The byte that a write of `bytes` carries.
pub open spec fn written8(bytes: Seq<u8>) -> u8 {
    zero_extended(bytes, 1)[0]
}

/// `src` cut or filled with zeros to `n` bytes.
pub fn fit(src: &[u8], from: usize, n: usize) -> (out: Vec<u8>)
    requires
        from <= src@.len(),
    ensures
        out@ == zero_extended(src@.skip(from as int), n as nat),
{
    let mut out: Vec<u8> = Vec::new();
    let mut i: usize = 0;
    while i < n
        invariant
            i <= n,
            from <= src@.len(),
            out@ == zero_extended(src@.skip(from as int), i as nat),
        decreases n - i,
    {
        let b: u8 = if i < src.len() - from {
            src[from + i]
        } else {
            0
        };
        out.push(b);
        i += 1;
        assert(out@ =~= zero_extended(src@.skip(from as int), i as nat));
    }
    assert(n == 0 ==> out@ =~= zero_extended(src@.skip(from as int), 0));
    out
}

/// Answer a read with the bytes of the dword that holds `offset`.
pub fn answer_dword_at(val: u32, offset: usize, len: usize) -> (out: Vec<u8>)
    ensures
        out@ == dword_at(val, offset as int, len as nat),
{
    let mut bytes: Vec<u8> = Vec::new();
    put_le32(&mut bytes, val);
    assert(bytes@ =~= le32_bytes(val));
    fit(bytes.as_slice(), offset % 4, len)
}

/// Answer a read with a dword.
pub fn answer_dword(val: u32, len: usize) -> (out: Vec<u8>)
    ensures
        out@ == dword(val, len as nat),
{
    let mut bytes: Vec<u8> = Vec::new();
    put_le32(&mut bytes, val);
    assert(bytes@ =~= le32_bytes(val));
    assert(bytes@.skip(0) =~= bytes@);
    fit(bytes.as_slice(), 0, len)
}

/// Answer a read with one byte.
pub fn answer_byte(val: u8, len: usize) -> (out: Vec<u8>)
    ensures
        out@ == single(val, len as nat),
{
    let mut bytes: Vec<u8> = Vec::new();
    bytes.push(val);
    assert(bytes@ =~= seq![val]);
    assert(bytes@.skip(0) =~= bytes@);
    fit(bytes.as_slice(), 0, len)
}

/// Answer an eight-byte read.
pub fn answer_qword(val: u64) -> (out: Vec<u8>)
    ensures
        out@ == le64_bytes(val),
{
    let mut bytes: Vec<u8> = Vec::new();
    put_le64(&mut bytes, val);
    assert(bytes@ =~= le64_bytes(val));
    bytes
}

/// The 32-bit value a write carries.
pub fn write_value32(bytes: &[u8]) -> (v: u32)
    ensures
        v == written32(bytes@),
{
    assert(bytes@.skip(0) =~= bytes@);
    let b = fit(bytes, 0, 4);
    crate::bytes::get_le32(b.as_slice(), 0)
}

/// The 64-bit value a write carries.
pub fn write_value64(bytes: &[u8]) -> (v: u64)
    ensures
        v == written64(bytes@),
{
    assert(bytes@.skip(0) =~= bytes@);
    let b = fit(bytes, 0, 8);
    crate::bytes::get_le64(b.as_slice(), 0)
}

/// The byte a write carries.
pub fn write_value8(bytes: &[u8]) -> (v: u8)
    ensures
        v == written8(bytes@),
{
    if bytes.len() > 0 {
        bytes[0]
    } else {
        0
    }
}

/// A four-byte write carries the value whose bytes it holds.
pub proof fn written32_of_bytes(v: u32)
    ensures
        written32(le32_bytes(v)) == v,
{
    let e = Seq::<u8>::empty();
    assert(zero_extended(le32_bytes(v), 4) =~= e + le32_bytes(v) + e);
    crate::bytes::le32_round_trip(e, v, e);
}

/// An eight-byte write carries the value whose bytes it holds.
pub proof fn written64_of_bytes(v: u64)
    ensures
        written64(le64_bytes(v)) == v,
{
    assert(zero_extended(le64_bytes(v), 8) =~= le64_bytes(v));
    crate::bytes::le64_round_trip(v);
}

proof fn halves(lo: u32, hi: u32)
    ensures
        ({
            let v = (lo + 0x1_0000_0000 * hi) as u64;
            v % 0x1_0000_0000 == lo && v / 0x1_0000_0000 == hi
        }),
{
}

proof fn dwords_of_halves(lo: Seq<u8>, hi: Seq<u8>)
    requires
        lo.len() == 4,
        hi.len() == 4,
    ensures
        zero_extended(lo + hi, 8) == lo + hi,
        le32(lo + hi, 0) == written32(lo),
        le32(lo + hi, 4) == written32(hi),
{
    let both = lo + hi;
    assert(zero_extended(both, 8) =~= both);
    assert(zero_extended(lo, 4) =~= lo);
    assert(zero_extended(hi, 4) =~= hi);
    assert(both[0] == lo[0] && both[1] == lo[1] && both[2] == lo[2] && both[3] == lo[3]);
    assert(both[4] == hi[0] && both[5] == hi[1] && both[6] == hi[2] && both[7] == hi[3]);
}

/// An eight-byte write carries what its two halves carry.
pub proof fn written64_of_halves(lo: Seq<u8>, hi: Seq<u8>)
    requires
        lo.len() == 4,
        hi.len() == 4,
    ensures
        (lo + hi).len() == 8,
        written64(lo + hi) % 0x1_0000_0000 == written32(lo),
        written64(lo + hi) / 0x1_0000_0000 == written32(hi),
{
    dwords_of_halves(lo, hi);
    halves(le32(lo + hi, 0), le32(lo + hi, 4));
}

/// Eight bytes are the bytes of the value they carry.
pub proof fn bytes_of_written64(bytes: Seq<u8>)
    requires
        bytes.len() == 8,
    ensures
        le64_bytes(written64(bytes)) == bytes,
{
    let z = zero_extended(bytes, 8);
    assert(z =~= bytes);
    crate::bytes::le32_bytes_of(bytes, 0);
    crate::bytes::le32_bytes_of(bytes, 4);
    halves(le32(bytes, 0), le32(bytes, 4));
    assert(bytes.subrange(0, 4) + bytes.subrange(4, 8) =~= bytes);
}

/// A register is read from its lowest byte on, and reads past it see zeros; a
/// read that starts inside a dword starts at that byte.
pub proof fn reads_start_at_the_lowest_byte(val: u32, v: u8, offset: int, len: nat, i: int)
    requires
        0 <= i < len,
    ensures
        dword(val, len).len() == len,
        dword(val, len)[i] == if i < 4 {
            le32_bytes(val)[i]
        } else {
            0
        },
        dword_at(val, offset, len).len() == len,
        dword_at(val, offset, len)[i] == if offset % 4 + i < 4 {
            le32_bytes(val)[offset % 4 + i]
        } else {
            0
        },
        single(v, len).len() == len,
        single(v, len)[i] == if i == 0 {
            v
        } else {
            0
        },
{
}

/// A narrow write has zeros above it, and what is past a register's width is
/// ignored.
pub proof fn narrow_writes_are_extended(bytes: Seq<u8>)
    ensures
        bytes.len() == 0 ==> written32(bytes) == 0 && written8(bytes) == 0,
        bytes.len() == 1 ==> written32(bytes) == bytes[0],
        bytes.len() == 2 ==> written32(bytes) == bytes[0] + 0x100 * bytes[1],
        bytes.len() >= 4 ==> written32(bytes) == bytes[0] + 0x100 * bytes[1] + 0x1_0000 * bytes[2]
            + 0x100_0000 * bytes[3],
        bytes.len() >= 1 ==> written8(bytes) == bytes[0],
        bytes.len() == 4 ==> written64(bytes) == written32(bytes),
{
    if bytes.len() == 4 {
        let z = zero_extended(bytes, 8);
        assert(le32(z, 4) == 0);
        assert(le32(z, 0) == written32(bytes));
    }
}

} // verus!
