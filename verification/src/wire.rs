//! Big-endian integer fields as they appear on the wire.
//!
//! The conversions themselves are done by the `byteorder` crate. This module
//! states what they compute, as arithmetic on the bytes, and proves that
//! decoding undoes encoding and the other way round.

use byteorder::{BigEndian, ByteOrder};
use vstd::prelude::*;

verus! {

/// The number spelled by the first four bytes of `b`, most significant first.
#[verifier::opaque]
pub open spec fn be_u32(b: Seq<u8>) -> int
    recommends
        b.len() >= 4,
{
    b[0] * 0x100_0000 + b[1] * 0x1_0000 + b[2] * 0x100 + b[3]
}

/// The four bytes that spell `v`, most significant first.
#[verifier::opaque]
pub open spec fn be_bytes_u32(v: u32) -> Seq<u8> {
    seq![
        (v / 0x100_0000) as u8,
        (v / 0x1_0000 % 0x100) as u8,
        (v / 0x100 % 0x100) as u8,
        (v % 0x100) as u8,
    ]
}

/// The number spelled by the first eight bytes of `b`, most significant first.
#[verifier::opaque]
pub open spec fn be_u64(b: Seq<u8>) -> int
    recommends
        b.len() >= 8,
{
    be_u32(b.subrange(0, 4)) * 0x1_0000_0000 + be_u32(b.subrange(4, 8))
}

/// The eight bytes that spell `v`, most significant first.
#[verifier::opaque]
pub open spec fn be_bytes_u64(v: u64) -> Seq<u8> {
    be_bytes_u32((v / 0x1_0000_0000) as u32) + be_bytes_u32((v % 0x1_0000_0000) as u32)
}

/// Calls `byteorder::BigEndian::read_u32`.
///
/// Trusted: the crate reads the first four bytes of `buf` as a big-endian
/// number and panics on a shorter slice, which the precondition rules out.
#[verifier::external_body]
pub(crate) fn read_u32_be(buf: &[u8]) -> (v: u32)
    requires
        buf@.len() >= 4,
    ensures
        v == be_u32(buf@),
{
    BigEndian::read_u32(buf)
}

/// Calls `byteorder::BigEndian::read_u64`.
///
/// Trusted: the crate reads the first eight bytes of `buf` as a big-endian
/// number and panics on a shorter slice, which the precondition rules out.
#[verifier::external_body]
pub(crate) fn read_u64_be(buf: &[u8]) -> (v: u64)
    requires
        buf@.len() >= 8,
    ensures
        v == be_u64(buf@),
{
    BigEndian::read_u64(buf)
}

/// Calls `byteorder::BigEndian::write_u32`.
///
/// Trusted: the crate overwrites the first four bytes of `buf` with the
/// big-endian form of `v`, leaves the rest of the slice alone, and panics on
/// a shorter slice, which the precondition rules out.
#[verifier::external_body]
pub(crate) fn write_u32_be(buf: &mut [u8], v: u32)
    requires
        old(buf)@.len() >= 4,
    ensures
        final(buf)@ == be_bytes_u32(v) + old(buf)@.skip(4),
{
    BigEndian::write_u32(buf, v)
}

/// Calls `byteorder::BigEndian::write_u64`.
///
/// Trusted: the crate overwrites the first eight bytes of `buf` with the
/// big-endian form of `v`, leaves the rest of the slice alone, and panics on
/// a shorter slice, which the precondition rules out.
#[verifier::external_body]
pub(crate) fn write_u64_be(buf: &mut [u8], v: u64)
    requires
        old(buf)@.len() >= 8,
    ensures
        final(buf)@ == be_bytes_u64(v) + old(buf)@.skip(8),
{
    BigEndian::write_u64(buf, v)
}

/// Four bytes always spell a number that fits in 32 bits.
pub proof fn lemma_be_u32_range(b: Seq<u8>)
    requires
        b.len() >= 4,
    ensures
        0 <= be_u32(b) <= u32::MAX,
{
    reveal(be_u32);
}

/// Eight bytes always spell a number that fits in 64 bits.
pub proof fn lemma_be_u64_range(b: Seq<u8>)
    requires
        b.len() >= 8,
    ensures
        0 <= be_u64(b) <= u64::MAX,
{
    reveal(be_u64);
    lemma_be_u32_range(b.subrange(0, 4));
    lemma_be_u32_range(b.subrange(4, 8));
}

/// Only the first four bytes matter to `be_u32`.
pub proof fn lemma_be_u32_prefix(b: Seq<u8>)
    requires
        b.len() >= 4,
    ensures
        be_u32(b) == be_u32(b.subrange(0, 4)),
{
    reveal(be_u32);
}

/// Only the first eight bytes matter to `be_u64`.
pub proof fn lemma_be_u64_prefix(b: Seq<u8>)
    requires
        b.len() >= 8,
    ensures
        be_u64(b) == be_u64(b.subrange(0, 8)),
{
    reveal(be_u64);
    assert(b.subrange(0, 8).subrange(0, 4) =~= b.subrange(0, 4));
    assert(b.subrange(0, 8).subrange(4, 8) =~= b.subrange(4, 8));
}

/// The four bytes cut out of a 32-bit value add up to it again.
proof fn lemma_u32_digits_join(v: u32)
    by (bit_vector)
    ensures
        (v / 0x100_0000) < 0x100,
        (v / 0x100_0000) * 0x100_0000 + (v / 0x1_0000 % 0x100) * 0x1_0000 + (v / 0x100 % 0x100)
            * 0x100 + (v % 0x100) == v,
{
}

/// Cutting the sum of four weighted bytes gives the four bytes again.
proof fn lemma_u32_digits_split(b0: u8, b1: u8, b2: u8, b3: u8, v: u32)
    by (bit_vector)
    requires
        v == b0 * 0x100_0000 + b1 * 0x1_0000 + b2 * 0x100 + b3,
    ensures
        v / 0x100_0000 == b0,
        v / 0x1_0000 % 0x100 == b1,
        v / 0x100 % 0x100 == b2,
        v % 0x100 == b3,
{
}

/// Decoding the encoding of a 32-bit value gives the value back.
pub proof fn lemma_be_u32_decode_encode(v: u32)
    ensures
        be_bytes_u32(v).len() == 4,
        be_u32(be_bytes_u32(v)) == v,
{
    reveal(be_u32);
    reveal(be_bytes_u32);
    lemma_u32_digits_join(v);
}

/// Encoding the number that four bytes spell gives the same four bytes.
pub proof fn lemma_be_u32_encode_decode(b: Seq<u8>)
    requires
        b.len() == 4,
    ensures
        be_bytes_u32(be_u32(b) as u32) == b,
{
    reveal(be_u32);
    reveal(be_bytes_u32);
    lemma_be_u32_range(b);
    lemma_u32_digits_split(b[0], b[1], b[2], b[3], be_u32(b) as u32);
    assert(be_bytes_u32(be_u32(b) as u32) =~= b);
}

/// Decoding the encoding of a 64-bit value gives the value back.
pub proof fn lemma_be_u64_decode_encode(v: u64)
    ensures
        be_bytes_u64(v).len() == 8,
        be_u64(be_bytes_u64(v)) == v,
{
    reveal(be_u64);
    reveal(be_bytes_u64);
    let hi = (v / 0x1_0000_0000) as u32;
    let lo = (v % 0x1_0000_0000) as u32;
    lemma_be_u32_decode_encode(hi);
    lemma_be_u32_decode_encode(lo);
    let b = be_bytes_u64(v);
    assert(b.subrange(0, 4) =~= be_bytes_u32(hi));
    assert(b.subrange(4, 8) =~= be_bytes_u32(lo));
}

/// Encoding the number that eight bytes spell gives the same eight bytes.
pub proof fn lemma_be_u64_encode_decode(b: Seq<u8>)
    requires
        b.len() == 8,
    ensures
        be_bytes_u64(be_u64(b) as u64) == b,
{
    reveal(be_u64);
    reveal(be_bytes_u64);
    let hi = b.subrange(0, 4);
    let lo = b.subrange(4, 8);
    lemma_be_u32_range(hi);
    lemma_be_u32_range(lo);
    lemma_be_u32_encode_decode(hi);
    lemma_be_u32_encode_decode(lo);
    let v = be_u64(b) as u64;
    assert((v / 0x1_0000_0000) as u32 == be_u32(hi));
    assert((v % 0x1_0000_0000) as u32 == be_u32(lo));
    assert(be_bytes_u64(v) =~= hi + lo);
    assert(hi + lo =~= b);
}

} // verus!
