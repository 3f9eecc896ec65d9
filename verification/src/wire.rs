//! Big-endian integers on the wire.
//!
//! The spec functions say how an integer is laid out; the executable
//! functions hand the work to the `bytes` crate and are trusted to follow
//! that layout.

use bytes::{Buf, BufMut};
use vstd::prelude::*;

verus! {

/// The two bytes of a 16-bit integer, most significant first.
pub open spec fn be16(v: u16) -> Seq<u8> {
    seq![(v / 0x100) as u8, (v % 0x100) as u8]
}

/// The four bytes of a 32-bit integer, most significant first.
pub open spec fn be32(v: u32) -> Seq<u8> {
    seq![
        (v / 0x100_0000) as u8,
        (v / 0x1_0000 % 0x100) as u8,
        (v / 0x100 % 0x100) as u8,
        (v % 0x100) as u8,
    ]
}

/// The eight bytes of a 64-bit integer, most significant first.
pub open spec fn be64(v: u64) -> Seq<u8> {
    be32((v / 0x1_0000_0000) as u32) + be32((v % 0x1_0000_0000) as u32)
}

/// The integer that the two bytes from `at` on spell, most significant first.
pub open spec fn be16_at(data: Seq<u8>, at: int) -> int {
    data[at] * 0x100 + data[at + 1]
}

/// The integer that the four bytes from `at` on spell, most significant first.
pub open spec fn be32_at(data: Seq<u8>, at: int) -> int {
    data[at] * 0x100_0000 + data[at + 1] * 0x1_0000 + data[at + 2] * 0x100 + data[at + 3]
}

/// The integer that the eight bytes from `at` on spell, most significant first.
pub open spec fn be64_at(data: Seq<u8>, at: int) -> int {
    be32_at(data, at) * 0x1_0000_0000 + be32_at(data, at + 4)
}

/// Reading back the bytes of a 16-bit integer gives the integer.
pub proof fn lemma_be16_round_trip(v: u16, prefix: Seq<u8>, suffix: Seq<u8>)
    ensures
        be16_at(prefix + be16(v) + suffix, prefix.len() as int) == v,
{
    let data = prefix + be16(v) + suffix;
    let at = prefix.len() as int;
    assert(data[at] == be16(v)[0]);
    assert(data[at + 1] == be16(v)[1]);
}

/// Reading back the bytes of a 32-bit integer gives the integer.
pub proof fn lemma_be32_round_trip(v: u32, prefix: Seq<u8>, suffix: Seq<u8>)
    ensures
        be32_at(prefix + be32(v) + suffix, prefix.len() as int) == v,
{
    let data = prefix + be32(v) + suffix;
    let at = prefix.len() as int;
    assert(data[at] == be32(v)[0]);
    assert(data[at + 1] == be32(v)[1]);
    assert(data[at + 2] == be32(v)[2]);
    assert(data[at + 3] == be32(v)[3]);
}

/// Reading back the bytes of a 64-bit integer gives the integer.
pub proof fn lemma_be64_round_trip(v: u64, prefix: Seq<u8>, suffix: Seq<u8>)
    ensures
        be64_at(prefix + be64(v) + suffix, prefix.len() as int) == v,
{
    let high = (v / 0x1_0000_0000) as u32;
    let low = (v % 0x1_0000_0000) as u32;
    let data = prefix + be64(v) + suffix;
    assert(data =~= prefix + be32(high) + (be32(low) + suffix));
    lemma_be32_round_trip(high, prefix, be32(low) + suffix);
    assert(data =~= (prefix + be32(high)) + be32(low) + suffix);
    lemma_be32_round_trip(low, prefix + be32(high), suffix);
}

/// `bytes::BufMut::put_u8` on a `Vec<u8>`: the byte is appended.
#[verifier::external_body]
pub(crate) fn put_u8(data: &mut Vec<u8>, n: u8)
    ensures
        final(data)@ == old(data)@.push(n),
{
    data.put_u8(n)
}

/// `bytes::BufMut::put_u16` on a `Vec<u8>`: the two bytes of the integer are
/// appended, most significant first.
#[verifier::external_body]
pub(crate) fn put_u16(data: &mut Vec<u8>, n: u16)
    ensures
        final(data)@ == old(data)@ + be16(n),
{
    data.put_u16(n)
}

/// `bytes::BufMut::put_u32` on a `Vec<u8>`: the four bytes of the integer are
/// appended, most significant first.
#[verifier::external_body]
pub(crate) fn put_u32(data: &mut Vec<u8>, n: u32)
    ensures
        final(data)@ == old(data)@ + be32(n),
{
    data.put_u32(n)
}

/// `bytes::BufMut::put_u64` on a `Vec<u8>`: the eight bytes of the integer are
/// appended, most significant first.
#[verifier::external_body]
pub(crate) fn put_u64(data: &mut Vec<u8>, n: u64)
    ensures
        final(data)@ == old(data)@ + be64(n),
{
    data.put_u64(n)
}

/// `bytes::Buf::get_u8` on the slice that starts at `at`: its first byte.
/// The call panics on an empty buffer, which the precondition leaves out.
#[verifier::external_body]
pub(crate) fn get_u8(data: &[u8], at: usize) -> (r: u8)
    requires
        at < data@.len(),
    ensures
        r == data@[at as int],
{
    let mut rest = &data[at..];
    rest.get_u8()
}

/// `bytes::Buf::get_u16` on the slice that starts at `at`: its first two
/// bytes read as a big-endian integer. The call panics on a shorter buffer,
/// which the precondition leaves out.
#[verifier::external_body]
pub(crate) fn get_u16(data: &[u8], at: usize) -> (r: u16)
    requires
        at + 2 <= data@.len(),
    ensures
        r == be16_at(data@, at as int),
{
    let mut rest = &data[at..];
    rest.get_u16()
}

/// `bytes::Buf::get_u32` on the slice that starts at `at`: its first four
/// bytes read as a big-endian integer. The call panics on a shorter buffer,
/// which the precondition leaves out.
#[verifier::external_body]
pub(crate) fn get_u32(data: &[u8], at: usize) -> (r: u32)
    requires
        at + 4 <= data@.len(),
    ensures
        r == be32_at(data@, at as int),
{
    let mut rest = &data[at..];
    rest.get_u32()
}

/// `bytes::Buf::get_u64` on the slice that starts at `at`: its first eight
/// bytes read as a big-endian integer. The call panics on a shorter buffer,
/// which the precondition leaves out.
#[verifier::external_body]
pub(crate) fn get_u64(data: &[u8], at: usize) -> (r: u64)
    requires
        at + 8 <= data@.len(),
    ensures
        r == be64_at(data@, at as int),
{
    let mut rest = &data[at..];
    rest.get_u64()
}

} // verus!
