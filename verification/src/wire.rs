//! Little-endian integers on the wire, read with `nom`'s streaming parsers.
//!
//! The spec functions say what an integer at a byte offset of a buffer is.
//! The executable functions hand a slice to `nom` and give back what it
//! returns; their contracts are not proved here, they restate `nom`'s source.

use vstd::prelude::*;

verus! {

/// The unsigned 16-bit integer whose little-endian bytes start at `at`.
pub open spec fn u16_at(s: Seq<u8>, at: int) -> int {
    s[at] + 0x100 * s[at + 1]
}

/// The unsigned 32-bit integer whose little-endian bytes start at `at`.
pub open spec fn u32_at(s: Seq<u8>, at: int) -> int {
    s[at] + 0x100 * s[at + 1] + 0x1_0000 * s[at + 2] + 0x100_0000 * s[at + 3]
}

/// The unsigned 64-bit integer whose little-endian bytes start at `at`.
pub open spec fn u64_at(s: Seq<u8>, at: int) -> int {
    u32_at(s, at) + 0x1_0000_0000 * u32_at(s, at + 4)
}

/// The signed integer that the unsigned integer `v` below `modulus`, a
/// power of two, stands for in two's complement.
pub open spec fn twos_complement(v: int, modulus: int) -> int {
    if 2 * v < modulus {
        v
    } else {
        v - modulus
    }
}

/// The signed 16-bit integer whose little-endian bytes start at `at`.
pub open spec fn i16_at(s: Seq<u8>, at: int) -> int {
    twos_complement(u16_at(s, at), 0x1_0000)
}

/// The signed 32-bit integer whose little-endian bytes start at `at`.
pub open spec fn i32_at(s: Seq<u8>, at: int) -> int {
    twos_complement(u32_at(s, at), 0x1_0000_0000)
}

/// The signed 64-bit integer whose little-endian bytes start at `at`.
pub open spec fn i64_at(s: Seq<u8>, at: int) -> int {
    twos_complement(u64_at(s, at), 0x1_0000_0000_0000_0000)
}

/// `nom::number::streaming::u8`: with at least one byte, the first byte and
/// the input after it; with none, a failure.
#[verifier::external_body]
pub(crate) fn byte<'a>(input: &'a [u8]) -> (r: Option<(&'a [u8], u8)>)
    ensures
        r is Some <==> input@.len() >= 1,
        r matches Some((rest, value)) ==> rest@ == input@.skip(1) && value == input@[0],
{
    match nom::number::streaming::u8::<&[u8], (&[u8], nom::error::ErrorKind)>(input) {
        Ok((rest, value)) => Some((rest, value)),
        Err(_) => None,
    }
}

/// `nom::number::streaming::le_u16`: with at least two bytes, the first two
/// read as a little-endian unsigned integer and the input after them; with
/// fewer, a failure.
#[verifier::external_body]
pub(crate) fn le_u16<'a>(input: &'a [u8]) -> (r: Option<(&'a [u8], u16)>)
    ensures
        r is Some <==> input@.len() >= 2,
        r matches Some((rest, value)) ==> rest@ == input@.skip(2) && value == u16_at(input@, 0),
{
    match nom::number::streaming::le_u16::<&[u8], (&[u8], nom::error::ErrorKind)>(input) {
        Ok((rest, value)) => Some((rest, value)),
        Err(_) => None,
    }
}

/// `nom::number::streaming::le_u32`: with at least four bytes, the first
/// four read as a little-endian unsigned integer and the input after them;
/// with fewer, a failure.
#[verifier::external_body]
pub(crate) fn le_u32<'a>(input: &'a [u8]) -> (r: Option<(&'a [u8], u32)>)
    ensures
        r is Some <==> input@.len() >= 4,
        r matches Some((rest, value)) ==> rest@ == input@.skip(4) && value == u32_at(input@, 0),
{
    match nom::number::streaming::le_u32::<&[u8], (&[u8], nom::error::ErrorKind)>(input) {
        Ok((rest, value)) => Some((rest, value)),
        Err(_) => None,
    }
}

/// `nom::number::streaming::le_i16`: as `le_u16`, the integer read in two's
/// complement.
#[verifier::external_body]
pub(crate) fn le_i16<'a>(input: &'a [u8]) -> (r: Option<(&'a [u8], i16)>)
    ensures
        r is Some <==> input@.len() >= 2,
        r matches Some((rest, value)) ==> rest@ == input@.skip(2) && value == i16_at(input@, 0),
{
    match nom::number::streaming::le_i16::<&[u8], (&[u8], nom::error::ErrorKind)>(input) {
        Ok((rest, value)) => Some((rest, value)),
        Err(_) => None,
    }
}

/// `nom::number::streaming::le_i32`: as `le_u32`, the integer read in two's
/// complement.
#[verifier::external_body]
pub(crate) fn le_i32<'a>(input: &'a [u8]) -> (r: Option<(&'a [u8], i32)>)
    ensures
        r is Some <==> input@.len() >= 4,
        r matches Some((rest, value)) ==> rest@ == input@.skip(4) && value == i32_at(input@, 0),
{
    match nom::number::streaming::le_i32::<&[u8], (&[u8], nom::error::ErrorKind)>(input) {
        Ok((rest, value)) => Some((rest, value)),
        Err(_) => None,
    }
}

/// `nom::number::streaming::le_i64`: with at least eight bytes, the first
/// eight read as a little-endian integer in two's complement and the input
/// after them; with fewer, a failure.
#[verifier::external_body]
pub(crate) fn le_i64<'a>(input: &'a [u8]) -> (r: Option<(&'a [u8], i64)>)
    ensures
        r is Some <==> input@.len() >= 8,
        r matches Some((rest, value)) ==> rest@ == input@.skip(8) && value == i64_at(input@, 0),
{
    match nom::number::streaming::le_i64::<&[u8], (&[u8], nom::error::ErrorKind)>(input) {
        Ok((rest, value)) => Some((rest, value)),
        Err(_) => None,
    }
}

/// `nom::bytes::streaming::take`: with at least `count` bytes, the first
/// `count` and the input after them; with fewer, a failure.
#[verifier::external_body]
pub(crate) fn take<'a>(input: &'a [u8], count: usize) -> (r: Option<(&'a [u8], &'a [u8])>)
    ensures
        r is Some <==> input@.len() >= count,
        r matches Some((rest, taken)) ==> rest@ == input@.skip(count as int) && taken@
            == input@.take(count as int),
{
    match nom::bytes::streaming::take::<usize, &[u8], (&[u8], nom::error::ErrorKind)>(count)(input) {
        Ok((rest, taken)) => Some((rest, taken)),
        Err(_) => None,
    }
}

/// How an input fails to begin with a pattern.
#[derive(Debug, Clone, Copy, PartialEq, Eq, Structural)]
pub enum TagFault {
    /// The input is a proper prefix of the pattern.
    Incomplete,
    /// A byte of the input differs from the pattern's byte at its place.
    Mismatch,
}

/// Whether some byte of `s` differs from the byte of `pattern` at the same
/// index.
pub open spec fn differs(s: Seq<u8>, pattern: Seq<u8>) -> bool {
    exists|i: int| 0 <= i < s.len() && i < pattern.len() && s[i] != pattern[i]
}

/// `nom::bytes::streaming::tag`: compares input and pattern byte by byte as
/// far as both reach. A differing byte is a mismatch, whatever the lengths.
/// Without one, an input at least as long as the pattern is split behind
/// the pattern, and a shorter one is incomplete.
#[verifier::external_body]
pub(crate) fn tag<'a>(input: &'a [u8], pattern: &[u8]) -> (r: Result<(&'a [u8], &'a [u8]), TagFault>)
    ensures
        r is Ok <==> (!differs(input@, pattern@) && input@.len() >= pattern@.len()),
        r matches Ok((rest, matched)) ==> rest@ == input@.skip(pattern@.len() as int) && matched@
            == input@.take(pattern@.len() as int),
        differs(input@, pattern@) <==> (r matches Err(TagFault::Mismatch)),
{
    match nom::bytes::streaming::tag::<&[u8], &[u8], (&[u8], nom::error::ErrorKind)>(pattern)(input) {
        Ok((rest, matched)) => Ok((rest, matched)),
        Err(nom::Err::Incomplete(_)) => Err(TagFault::Incomplete),
        Err(nom::Err::Error(_)) => Err(TagFault::Mismatch),
        Err(nom::Err::Failure(_)) => Err(TagFault::Mismatch),
    }
}

} // verus!
