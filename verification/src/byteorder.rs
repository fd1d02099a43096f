//! Conversions between host and network byte order, whose direction
//! depends on the machine.
use vstd::prelude::*;

verus! {

/// `x` with its four bytes in reverse order.
pub open spec fn swap_bytes_u32(x: u32) -> u32 {
    ((x % 256) * 16777216 + ((x / 256) % 256) * 65536 + ((x / 65536) % 256) * 256 + x / 16777216) as u32
}

/// `x` with its two bytes in reverse order.
pub open spec fn swap_bytes_u16(x: u16) -> u16 {
    ((x % 256) * 256 + x / 256) as u16
}

/// `u16::to_be`: `x` in network order, `x` itself or `x` byte-swapped
/// depending on the machine; which of the two is not stated.
#[verifier::external_body]
pub(crate) fn u16_to_be(x: u16) -> (r: u16)
    ensures
        r == x || r == swap_bytes_u16(x),
{
    x.to_be()
}

/// Whether the machine keeps integers in network order: converting 1 to
/// network order leaves it 1 only there. Which it is, nothing states.
pub(crate) fn host_is_big_endian() -> bool {
    u16_to_be(1) == 1
}

/// `x` in network order on a machine that is big-endian when `big`.
pub open spec fn to_net32(big: bool, x: u32) -> u32 {
    if big {
        x
    } else {
        swap_bytes_u32(x)
    }
}

/// `x` in network order on a machine that is big-endian when `big`.
pub open spec fn to_net16(big: bool, x: u16) -> u16 {
    if big {
        x
    } else {
        swap_bytes_u16(x)
    }
}

/// See `to_net32`.
pub(crate) fn net32(big: bool, x: u32) -> (r: u32)
    ensures
        r == to_net32(big, x),
{
    if big {
        x
    } else {
        (x % 256) * 16777216 + ((x / 256) % 256) * 65536 + ((x / 65536) % 256) * 256 + x / 16777216
    }
}

/// See `to_net16`.
pub(crate) fn net16(big: bool, x: u16) -> (r: u16)
    ensures
        r == to_net16(big, x),
{
    if big {
        x
    } else {
        (x % 256) * 256 + x / 256
    }
}

/// `u32::from_be`: `x` read as network order, `x` itself or `x`
/// byte-swapped depending on the machine; which of the two is not stated.
#[verifier::external_body]
pub(crate) fn u32_from_be(x: u32) -> (r: u32)
    ensures
        r == x || r == swap_bytes_u32(x),
{
    u32::from_be(x)
}

/// `u16::from_be`: `x` read as network order, `x` itself or `x`
/// byte-swapped depending on the machine; which of the two is not stated.
#[verifier::external_body]
pub(crate) fn u16_from_be(x: u16) -> (r: u16)
    ensures
        r == x || r == swap_bytes_u16(x),
{
    u16::from_be(x)
}

/// `x` widened to 32 bits.
pub(crate) fn widen_u16(x: u16) -> (r: u32)
    ensures
        r == x,
{
    x as u32
}

/// `x` widened to 32 bits.
pub(crate) fn widen_u8(x: u8) -> (r: u32)
    ensures
        r == x,
{
    x as u32
}

} // verus!
