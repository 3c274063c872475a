//! Fixed-width big-endian reads from a byte buffer, including GRIB2's
//! sign-magnitude convention for signed fields.

use vstd::prelude::*;

verus! {

/// The value of the two big-endian bytes starting at `at`.
pub open spec fn be_u16(s: Seq<u8>, at: int) -> int {
    s[at] * 0x100 + s[at + 1]
}

/// The value of the four big-endian bytes starting at `at`.
pub open spec fn be_u32(s: Seq<u8>, at: int) -> int {
    be_u16(s, at) * 0x1_0000 + be_u16(s, at + 2)
}

/// The value of the eight big-endian bytes starting at `at`.
pub open spec fn be_u64(s: Seq<u8>, at: int) -> int {
    be_u32(s, at) * 0x1_0000_0000 + be_u32(s, at + 4)
}

/// GRIB2 sign-magnitude reading of an 8-bit field: all bits set is the
/// missing sentinel and is reinterpreted unchanged; otherwise a set
/// most-significant bit negates the remaining magnitude.
pub open spec fn sign_magnitude8(u: int) -> int {
    if u == 0xFF {
        -1
    } else if u >= 0x80 {
        -(u - 0x80)
    } else {
        u
    }
}

/// GRIB2 sign-magnitude reading of a 16-bit field.
pub open spec fn sign_magnitude16(u: int) -> int {
    if u == 0xFFFF {
        -1
    } else if u >= 0x8000 {
        -(u - 0x8000)
    } else {
        u
    }
}

/// GRIB2 sign-magnitude reading of a 32-bit field.
pub open spec fn sign_magnitude32(u: int) -> int {
    if u == 0xFFFF_FFFF {
        -1
    } else if u >= 0x8000_0000 {
        -(u - 0x8000_0000)
    } else {
        u
    }
}

/// GRIB2 sign-magnitude reading of a 64-bit field.
pub open spec fn sign_magnitude64(u: int) -> int {
    if u == 0xFFFF_FFFF_FFFF_FFFF {
        -1
    } else if u >= 0x8000_0000_0000_0000 {
        -(u - 0x8000_0000_0000_0000)
    } else {
        u
    }
}

/// An owned copy of a byte buffer.
pub fn copy_bytes(v: &Vec<u8>) -> (r: Vec<u8>)
    ensures
        r@ == v@,
{
    vstd::slice::slice_to_vec(v.as_slice())
}

/// Reads the byte at `at`.
pub fn u8_be(buf: &[u8], at: usize) -> (r: u8)
    requires
        at < buf@.len(),
    ensures
        r == buf@[at as int],
{
    buf[at]
}

/// Reads two big-endian bytes starting at `at`.
pub fn u16_be(buf: &[u8], at: usize) -> (r: u16)
    requires
        at + 2 <= buf@.len(),
    ensures
        r == be_u16(buf@, at as int),
{
    (buf[at] as u16) * 0x100 + (buf[at + 1] as u16)
}

/// Reads four big-endian bytes starting at `at`.
pub fn u32_be(buf: &[u8], at: usize) -> (r: u32)
    requires
        at + 4 <= buf@.len(),
    ensures
        r == be_u32(buf@, at as int),
{
    let n = buf.len();
    assert(at + 4 <= n);
    (u16_be(buf, at) as u32) * 0x1_0000 + (u16_be(buf, at + 2) as u32)
}

/// Reads eight big-endian bytes starting at `at`.
pub fn u64_be(buf: &[u8], at: usize) -> (r: u64)
    requires
        at + 8 <= buf@.len(),
    ensures
        r == be_u64(buf@, at as int),
{
    let n = buf.len();
    assert(at + 8 <= n);
    (u32_be(buf, at) as u64) * 0x1_0000_0000 + (u32_be(buf, at + 4) as u64)
}

/// Reads a sign-magnitude 8-bit field at `at`.
pub fn i8_be(buf: &[u8], at: usize) -> (r: i8)
    requires
        at < buf@.len(),
    ensures
        r == sign_magnitude8(buf@[at as int] as int),
{
    let u = u8_be(buf, at);
    if u == 0xFF {
        -1
    } else if u >= 0x80 {
        -((u - 0x80) as i8)
    } else {
        u as i8
    }
}

/// Reads a sign-magnitude 16-bit field at `at`.
pub fn i16_be(buf: &[u8], at: usize) -> (r: i16)
    requires
        at + 2 <= buf@.len(),
    ensures
        r == sign_magnitude16(be_u16(buf@, at as int)),
{
    let u = u16_be(buf, at);
    if u == 0xFFFF {
        -1
    } else if u >= 0x8000 {
        -((u - 0x8000) as i16)
    } else {
        u as i16
    }
}

/// Reads a sign-magnitude 32-bit field at `at`.
pub fn i32_be(buf: &[u8], at: usize) -> (r: i32)
    requires
        at + 4 <= buf@.len(),
    ensures
        r == sign_magnitude32(be_u32(buf@, at as int)),
{
    let u = u32_be(buf, at);
    if u == 0xFFFF_FFFF {
        -1
    } else if u >= 0x8000_0000 {
        -((u - 0x8000_0000) as i32)
    } else {
        u as i32
    }
}

/// Reads a sign-magnitude 64-bit field at `at`.
pub fn i64_be(buf: &[u8], at: usize) -> (r: i64)
    requires
        at + 8 <= buf@.len(),
    ensures
        r == sign_magnitude64(be_u64(buf@, at as int)),
{
    let u = u64_be(buf, at);
    if u == 0xFFFF_FFFF_FFFF_FFFF {
        -1
    } else if u >= 0x8000_0000_0000_0000 {
        -((u - 0x8000_0000_0000_0000) as i64)
    } else {
        u as i64
    }
}

} // verus!
