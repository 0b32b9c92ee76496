//! Little-endian integer encodings, as `from_le_bytes` / `to_le_bytes` define
//! them.
use vstd::prelude::*;

verus! {

/// The value of two little-endian bytes.
pub open spec fn le_u16(b: Seq<u8>) -> int {
    b[0] + 256 * b[1]
}

/// The value of eight little-endian bytes, read as an unsigned integer.
pub open spec fn le_u64(b: Seq<u8>) -> int {
    b[0] + 0x100 * b[1] + 0x1_0000 * b[2] + 0x100_0000 * b[3] + 0x1_0000_0000 * b[4]
        + 0x100_0000_0000 * b[5] + 0x1_0000_0000_0000 * b[6] + 0x100_0000_0000_0000 * b[7]
}

/// The value of eight little-endian bytes, read as a two's complement integer.
pub open spec fn le_i64(b: Seq<u8>) -> int {
    let u = le_u64(b);
    if u < 0x8000_0000_0000_0000 {
        u
    } else {
        u - 0x1_0000_0000_0000_0000
    }
}

/// `u16::from_le_bytes([b0, b1])`.
pub fn u16_from_le(b0: u8, b1: u8) -> (v: u16)
    ensures
        v == le_u16(seq![b0, b1]),
{
    (b0 as u16) + (b1 as u16) * 256
}

/// `v.to_le_bytes()` for a `u16`.
pub fn u16_to_le(v: u16) -> (b: [u8; 2])
    ensures
        b@ == seq![(v % 256) as u8, (v / 256) as u8],
        le_u16(b@) == v,
{
    let b = [(v % 256) as u8, (v / 256) as u8];
    b
}

/// `u64::from_le_bytes` of the eight bytes of `data` that start at `start`.
pub fn u64_from_le(data: &[u8], start: usize) -> (v: u64)
    requires
        start + 8 <= data@.len(),
    ensures
        v == le_u64(data@.subrange(start as int, start + 8)),
{
    let v = (data[start] as u64) + (data[start + 1] as u64) * 0x100 + (data[start + 2] as u64)
        * 0x1_0000 + (data[start + 3] as u64) * 0x100_0000 + (data[start + 4] as u64)
        * 0x1_0000_0000 + (data[start + 5] as u64) * 0x100_0000_0000 + (data[start + 6] as u64)
        * 0x1_0000_0000_0000 + (data[start + 7] as u64) * 0x100_0000_0000_0000;
    v
}

/// The eight little-endian bytes of an unsigned value below 2^64.
pub open spec fn le_bytes8(u: int) -> Seq<u8> {
    seq![
        (u % 0x100) as u8,
        ((u / 0x100) % 0x100) as u8,
        ((u / 0x1_0000) % 0x100) as u8,
        ((u / 0x100_0000) % 0x100) as u8,
        ((u / 0x1_0000_0000) % 0x100) as u8,
        ((u / 0x100_0000_0000) % 0x100) as u8,
        ((u / 0x1_0000_0000_0000) % 0x100) as u8,
        ((u / 0x100_0000_0000_0000) % 0x100) as u8,
    ]
}

/// The unsigned value with the bits of a two's complement `i64`.
pub open spec fn twos_complement(v: int) -> int {
    if v >= 0 {
        v
    } else {
        v + 0x1_0000_0000_0000_0000
    }
}

/// `v.to_le_bytes()` for a `u64`.
pub fn u64_to_le(v: u64) -> (b: [u8; 8])
    ensures
        b@.len() == 8,
        b@ == le_bytes8(v as int),
        le_u64(b@) == v,
{
    let r1 = v / 256;
    let r2 = r1 / 256;
    let r3 = r2 / 256;
    let r4 = r3 / 256;
    let r5 = r4 / 256;
    let r6 = r5 / 256;
    let r7 = r6 / 256;
    let b = [
        (v % 256) as u8,
        (r1 % 256) as u8,
        (r2 % 256) as u8,
        (r3 % 256) as u8,
        (r4 % 256) as u8,
        (r5 % 256) as u8,
        (r6 % 256) as u8,
        (r7 % 256) as u8,
    ];
    assert(r7 < 256);
    b
}

/// The two's complement reading of an unsigned 64-bit value.
pub fn u64_as_i64(u: u64) -> (v: i64)
    ensures
        v == (if u < 0x8000_0000_0000_0000 { u as int } else { u - 0x1_0000_0000_0000_0000 }),
{
    if u < 0x8000_0000_0000_0000 {
        u as i64
    } else {
        -((0xFFFF_FFFF_FFFF_FFFFu64 - u) as i64) - 1
    }
}

/// The unsigned 64-bit value with the same bits as `v`.
pub fn i64_as_u64(v: i64) -> (u: u64)
    ensures
        u == (if v >= 0 { v as int } else { v + 0x1_0000_0000_0000_0000 }),
{
    if v >= 0 {
        v as u64
    } else {
        ((v + 1) + 0x7FFF_FFFF_FFFF_FFFF) as u64 + 0x8000_0000_0000_0000u64
    }
}

/// `i64::from_le_bytes` of the eight bytes of `data` that start at `start`.
pub fn i64_from_le(data: &[u8], start: usize) -> (v: i64)
    requires
        start + 8 <= data@.len(),
    ensures
        v == le_i64(data@.subrange(start as int, start + 8)),
{
    u64_as_i64(u64_from_le(data, start))
}

/// `v.to_le_bytes()` for an `i64`.
pub fn i64_to_le(v: i64) -> (b: [u8; 8])
    ensures
        b@.len() == 8,
        b@ == le_bytes8(twos_complement(v as int)),
        le_i64(b@) == v,
{
    u64_to_le(i64_as_u64(v))
}

} // verus!
