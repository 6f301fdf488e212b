//! Little-endian integers read from a byte sequence at a position.

use vstd::prelude::*;

verus! {

/// The unsigned value of the two bytes at `i` (little-endian).
pub open spec fn le16(b: Seq<u8>, i: int) -> int {
    b[i] + 256 * b[i + 1]
}

/// The unsigned value of the four bytes at `i` (little-endian).
pub open spec fn le32(b: Seq<u8>, i: int) -> int {
    le16(b, i) + 65536 * le16(b, i + 2)
}

/// The unsigned value of the eight bytes at `i` (little-endian).
pub open spec fn le64(b: Seq<u8>, i: int) -> int {
    le32(b, i) + 4294967296 * le32(b, i + 4)
}

/// The two's-complement reading of an unsigned value `v` of `2 * half` range.
pub open spec fn signed(v: int, half: int) -> int {
    if v < half {
        v
    } else {
        v - 2 * half
    }
}

/// Reads the little-endian `u16` at `pos`.
pub fn read_u16_le(bytes: &[u8], pos: usize) -> (v: u16)
    requires
        pos + 2 <= bytes@.len(),
    ensures
        v == le16(bytes@, pos as int),
{
    let lo = bytes[pos] as u16;
    let hi = bytes[pos + 1] as u16;
    lo + hi * 256
}

/// Reads the little-endian `u32` at `pos`.
pub fn read_u32_le(bytes: &[u8], pos: usize) -> (v: u32)
    requires
        pos + 4 <= bytes@.len(),
    ensures
        v == le32(bytes@, pos as int),
{
    assert(bytes@.len() == bytes.len());
    let lo = read_u16_le(bytes, pos) as u32;
    let hi = read_u16_le(bytes, pos + 2) as u32;
    lo + hi * 65536
}

/// Reads the little-endian `u64` at `pos`.
pub fn read_u64_le(bytes: &[u8], pos: usize) -> (v: u64)
    requires
        pos + 8 <= bytes@.len(),
    ensures
        v == le64(bytes@, pos as int),
{
    assert(bytes@.len() == bytes.len());
    let lo = read_u32_le(bytes, pos) as u64;
    let hi = read_u32_le(bytes, pos + 4) as u64;
    lo + hi * 4294967296
}

/// Reinterprets a byte as a two's-complement `i8`.
pub fn to_i8(v: u8) -> (r: i8)
    ensures
        r == signed(v as int, 128),
{
    if v < 128 {
        v as i8
    } else {
        (v as i16 - 256) as i8
    }
}

/// Reinterprets a `u16` as a two's-complement `i16`.
pub fn to_i16(v: u16) -> (r: i16)
    ensures
        r == signed(v as int, 32768),
{
    if v < 32768 {
        v as i16
    } else {
        (v as i32 - 65536) as i16
    }
}

/// Reinterprets a `u32` as a two's-complement `i32`.
pub fn to_i32(v: u32) -> (r: i32)
    ensures
        r == signed(v as int, 2147483648),
{
    if v < 2147483648 {
        v as i32
    } else {
        (v as i64 - 4294967296) as i32
    }
}

/// Reinterprets a `u64` as a two's-complement `i64`.
pub fn to_i64(v: u64) -> (r: i64)
    ensures
        r == signed(v as int, 9223372036854775808),
{
    if v < 9223372036854775808 {
        v as i64
    } else {
        (v as i128 - 18446744073709551616) as i64
    }
}

} // verus!
