//! Little-endian integers in byte sequences.
//!
//! `le_u16`, `le_u32`, `le_i16` and `le_i32` say what a field of a buffer
//! means as a number. The executable readers get the number from the
//! `byteorder` crate.

use byteorder::{ByteOrder, LittleEndian};
use vstd::prelude::*;
use vstd::slice::slice_subrange;

verus! {

/// The unsigned 16-bit integer whose little-endian bytes are `s[at]`,
/// `s[at + 1]`.
pub open spec fn le_u16(s: Seq<u8>, at: int) -> u16 {
    (s[at] + s[at + 1] * 0x100) as u16
}

/// The unsigned 32-bit integer whose little-endian bytes are `s[at]` to
/// `s[at + 3]`.
pub open spec fn le_u32(s: Seq<u8>, at: int) -> u32 {
    (s[at] + s[at + 1] * 0x100 + s[at + 2] * 0x1_0000 + s[at + 3] * 0x100_0000) as u32
}

/// The signed 16-bit integer whose two's complement, in little-endian bytes,
/// is `s[at]`, `s[at + 1]`.
pub open spec fn le_i16(s: Seq<u8>, at: int) -> i16 {
    let u = le_u16(s, at);
    if u < 0x8000 {
        u as i16
    } else {
        (u - 0x1_0000) as i16
    }
}

/// The signed 32-bit integer whose two's complement, in little-endian bytes,
/// is `s[at]` to `s[at + 3]`.
pub open spec fn le_i32(s: Seq<u8>, at: int) -> i32 {
    let u = le_u32(s, at);
    if u < 0x8000_0000 {
        u as i32
    } else {
        (u - 0x1_0000_0000) as i32
    }
}

/// The four little-endian bytes of `n`, lowest first.
pub open spec fn le_bytes_u32(n: u32) -> Seq<u8> {
    seq![
        (n % 0x100) as u8,
        (n / 0x100 % 0x100) as u8,
        (n / 0x1_0000 % 0x100) as u8,
        (n / 0x100_0000) as u8,
    ]
}

/// `byteorder::LittleEndian::read_u16`: the first two bytes of `buf`, read as
/// a little-endian unsigned integer. The crate panics on a shorter buffer.
#[verifier::external_body]
fn read_u16(buf: &[u8]) -> (value: u16)
    requires
        buf@.len() >= 2,
    ensures
        value == le_u16(buf@, 0),
{
    LittleEndian::read_u16(buf)
}

/// `byteorder::LittleEndian::read_i16`: the first two bytes of `buf`, read as
/// a little-endian two's complement integer. The crate panics on a shorter
/// buffer.
#[verifier::external_body]
fn read_i16(buf: &[u8]) -> (value: i16)
    requires
        buf@.len() >= 2,
    ensures
        value == le_i16(buf@, 0),
{
    LittleEndian::read_i16(buf)
}

/// `byteorder::LittleEndian::read_u32`: the first four bytes of `buf`, read
/// as a little-endian unsigned integer. The crate panics on a shorter buffer.
#[verifier::external_body]
fn read_u32(buf: &[u8]) -> (value: u32)
    requires
        buf@.len() >= 4,
    ensures
        value == le_u32(buf@, 0),
{
    LittleEndian::read_u32(buf)
}

/// `byteorder::LittleEndian::read_i32`: the first four bytes of `buf`, read
/// as a little-endian two's complement integer. The crate panics on a shorter
/// buffer.
#[verifier::external_body]
fn read_i32(buf: &[u8]) -> (value: i32)
    requires
        buf@.len() >= 4,
    ensures
        value == le_i32(buf@, 0),
{
    LittleEndian::read_i32(buf)
}

/// Reads the unsigned 16-bit field that begins at `at`.
pub fn u16_at(bytes: &[u8], at: usize) -> (value: u16)
    requires
        at + 2 <= bytes.len(),
    ensures
        value == le_u16(bytes@, at as int),
{
    let end = at + 2;
    read_u16(slice_subrange(bytes, at, end))
}

/// Reads the signed 16-bit field that begins at `at`.
pub fn i16_at(bytes: &[u8], at: usize) -> (value: i16)
    requires
        at + 2 <= bytes.len(),
    ensures
        value == le_i16(bytes@, at as int),
{
    let end = at + 2;
    read_i16(slice_subrange(bytes, at, end))
}

/// Reads the unsigned 32-bit field that begins at `at`.
pub fn u32_at(bytes: &[u8], at: usize) -> (value: u32)
    requires
        at + 4 <= bytes.len(),
    ensures
        value == le_u32(bytes@, at as int),
{
    let end = at + 4;
    read_u32(slice_subrange(bytes, at, end))
}

/// Reads the signed 32-bit field that begins at `at`.
pub fn i32_at(bytes: &[u8], at: usize) -> (value: i32)
    requires
        at + 4 <= bytes.len(),
    ensures
        value == le_i32(bytes@, at as int),
{
    let end = at + 4;
    read_i32(slice_subrange(bytes, at, end))
}

/// The little-endian bytes of `n`.
pub fn u32_to_le_bytes(n: u32) -> (bytes: [u8; 4])
    ensures
        bytes@ == le_bytes_u32(n),
{
    let b0 = (n & 0xff) as u8;
    let b1 = ((n >> 8) & 0xff) as u8;
    let b2 = ((n >> 16) & 0xff) as u8;
    let b3 = (n >> 24) as u8;
    proof {
        assert(n & 0xff == n % 0x100) by (bit_vector);
        assert((n >> 8) & 0xff == n / 0x100 % 0x100) by (bit_vector);
        assert((n >> 16) & 0xff == n / 0x1_0000 % 0x100) by (bit_vector);
        assert(n >> 24 == n / 0x100_0000 && n >> 24 < 0x100) by (bit_vector);
    }
    [b0, b1, b2, b3]
}

/// Writing a number out and reading it back gives the number.
pub proof fn lemma_le_bytes_round_trip(n: u32)
    ensures
        le_bytes_u32(n).len() == 4,
        le_u32(le_bytes_u32(n), 0) == n,
{
    assert(n == (n % 0x100) + (n / 0x100 % 0x100) * 0x100 + (n / 0x1_0000 % 0x100) * 0x1_0000 + (n
        / 0x100_0000) * 0x100_0000 && n / 0x100_0000 < 0x100) by (bit_vector);
}

} // verus!
