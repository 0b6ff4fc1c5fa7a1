//! Big-endian integers carried in frame payloads, and the fixed-point words
//! that the drive's replies hold.

use vstd::prelude::*;
use crate::frame::be_i32;

verus! {

/// The signed 64-bit integer whose big-endian bytes are `s[0..8]`.
pub open spec fn i64_from_be(s: Seq<u8>) -> i64
    recommends
        s.len() >= 8,
{
    ((s[0] as u64) << 56u64 | (s[1] as u64) << 48u64 | (s[2] as u64) << 40u64
        | (s[3] as u64) << 32u64 | (s[4] as u64) << 24u64 | (s[5] as u64) << 16u64
        | (s[6] as u64) << 8u64 | (s[7] as u64)) as i64
}

/// The signed 32-bit integer whose big-endian bytes are `s[0..4]`.
pub open spec fn i32_from_be(s: Seq<u8>) -> i32
    recommends
        s.len() >= 4,
{
    ((s[0] as u32) << 24u32 | (s[1] as u32) << 16u32 | (s[2] as u32) << 8u32
        | (s[3] as u32)) as i32
}

/// The signed 16-bit integer whose big-endian bytes are `s[0..2]`.
pub open spec fn i16_from_be(s: Seq<u8>) -> i16
    recommends
        s.len() >= 2,
{
    ((s[0] as u16) << 8u16 | (s[1] as u16)) as i16
}

/// Reads a big-endian signed 64-bit integer from the first eight bytes.
pub fn vec_to_long(buf: &[u8]) -> (r: i64)
    requires
        buf@.len() >= 8,
    ensures
        r == i64_from_be(buf@),
{
    let u: u64 = (buf[0] as u64) << 56u64 | (buf[1] as u64) << 48u64 | (buf[2] as u64) << 40u64
        | (buf[3] as u64) << 32u64 | (buf[4] as u64) << 24u64 | (buf[5] as u64) << 16u64
        | (buf[6] as u64) << 8u64 | (buf[7] as u64);
    #[verifier::truncate]
    (u as i64)
}

/// Reads a big-endian signed 32-bit integer from the first four bytes.
pub fn vec_to_int(buf: &[u8]) -> (r: i32)
    requires
        buf@.len() >= 4,
    ensures
        r == i32_from_be(buf@),
{
    let u: u32 = (buf[0] as u32) << 24u32 | (buf[1] as u32) << 16u32 | (buf[2] as u32) << 8u32
        | (buf[3] as u32);
    #[verifier::truncate]
    (u as i32)
}

/// Reads a big-endian signed 16-bit integer from the first two bytes.
pub fn vec_to_short(buf: &[u8]) -> (r: i16)
    requires
        buf@.len() >= 2,
    ensures
        r == i16_from_be(buf@),
{
    let u: u16 = (buf[0] as u16) << 8u16 | (buf[1] as u16);
    #[verifier::truncate]
    (u as i16)
}

/// Reading back the four bytes that carry a value on the wire gives the
/// value itself.
pub proof fn lemma_i32_round_trip(v: i32)
    ensures
        i32_from_be(be_i32(v)) == v,
{
    let u = v as u32;
    let s = be_i32(v);
    let (b0, b1, b2, b3) = (s[0], s[1], s[2], s[3]);
    assert(b0 == ((u >> 24u32) & 0xffu32) as u8 && b1 == ((u >> 16u32) & 0xffu32) as u8
        && b2 == ((u >> 8u32) & 0xffu32) as u8 && b3 == (u & 0xffu32) as u8);
    assert(((b0 as u32) << 24u32 | (b1 as u32) << 16u32 | (b2 as u32) << 8u32 | (b3 as u32))
        == u) by (bit_vector)
        requires
            b0 == ((u >> 24u32) & 0xffu32) as u8,
            b1 == ((u >> 16u32) & 0xffu32) as u8,
            b2 == ((u >> 8u32) & 0xffu32) as u8,
            b3 == (u & 0xffu32) as u8,
    ;
    assert((v as u32) as i32 == v) by (bit_vector);
}

} // verus!
