//! Big-endian integers in a byte stream.

use vstd::prelude::*;

verus! {

/// The unsigned value of the two bytes at `at`, most significant first.
pub open spec fn be_u16(bytes: Seq<u8>, at: int) -> int {
    bytes[at] * 0x100 + bytes[at + 1]
}

/// The unsigned value of the four bytes at `at`, most significant first.
pub open spec fn be_u32(bytes: Seq<u8>, at: int) -> int {
    bytes[at] * 0x100_0000 + bytes[at + 1] * 0x1_0000 + bytes[at + 2] * 0x100 + bytes[at + 3]
}

/// The value of `unsigned`, below 2^`bits`, read as a two's complement number
/// of `bits` bits; `half` is 2^(`bits` - 1).
pub open spec fn twos_complement(unsigned: int, half: int) -> int {
    if unsigned >= half {
        unsigned - 2 * half
    } else {
        unsigned
    }
}

/// The signed value of the byte at `at`.
pub open spec fn be_i8(bytes: Seq<u8>, at: int) -> int {
    twos_complement(bytes[at] as int, 0x80)
}

/// The signed value of the two bytes at `at`, most significant first.
pub open spec fn be_i16(bytes: Seq<u8>, at: int) -> int {
    twos_complement(be_u16(bytes, at), 0x8000)
}

/// The signed value of the four bytes at `at`, most significant first.
pub open spec fn be_i32(bytes: Seq<u8>, at: int) -> int {
    twos_complement(be_u32(bytes, at), 0x8000_0000)
}

/// Reads the signed byte at `at`.
pub(crate) fn read_i8(bytes: &[u8], at: usize) -> (value: i8)
    requires
        at < bytes.len(),
    ensures
        value == be_i8(bytes@, at as int),
{
    let byte: u8 = bytes[at];
    if byte >= 0x80 {
        (byte as i16 - 0x100) as i8
    } else {
        byte as i8
    }
}

/// Reads the unsigned big-endian short at `at`.
pub(crate) fn read_u16(bytes: &[u8], at: usize) -> (value: u16)
    requires
        at + 2 <= bytes.len(),
    ensures
        value == be_u16(bytes@, at as int),
{
    (bytes[at] as u16) * 0x100 + (bytes[at + 1] as u16)
}

/// Reads the signed big-endian short at `at`.
pub(crate) fn read_i16(bytes: &[u8], at: usize) -> (value: i16)
    requires
        at + 2 <= bytes.len(),
    ensures
        value == be_i16(bytes@, at as int),
{
    let unsigned: u16 = read_u16(bytes, at);
    if unsigned >= 0x8000 {
        (unsigned as i32 - 0x1_0000) as i16
    } else {
        unsigned as i16
    }
}

/// Reads the unsigned big-endian 32-bit integer at `at`.
pub(crate) fn read_u32(bytes: &[u8], at: usize) -> (value: u32)
    requires
        at + 4 <= bytes.len(),
    ensures
        value == be_u32(bytes@, at as int),
{
    (bytes[at] as u32) * 0x100_0000 + (bytes[at + 1] as u32) * 0x1_0000 + (bytes[at + 2] as u32)
        * 0x100 + (bytes[at + 3] as u32)
}

/// Reads the signed big-endian 32-bit integer at `at`.
pub(crate) fn read_i32(bytes: &[u8], at: usize) -> (value: i32)
    requires
        at + 4 <= bytes.len(),
    ensures
        value == be_i32(bytes@, at as int),
{
    let unsigned: u32 = read_u32(bytes, at);
    if unsigned >= 0x8000_0000 {
        (unsigned as i64 - 0x1_0000_0000) as i32
    } else {
        unsigned as i32
    }
}

} // verus!
