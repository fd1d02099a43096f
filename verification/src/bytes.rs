//! Integer encodings shared by the packet parsers and builders: network
//! order (big-endian) for wire formats, and the little-endian host order of
//! the x86 machines whose socket ABI the socket layer speaks.
use vstd::prelude::*;

verus! {

/// The value of two bytes read in network order.
pub open spec fn be16(b0: u8, b1: u8) -> u16 {
    (b0 as int * 256 + b1 as int) as u16
}

/// The value of four bytes read in network order.
pub open spec fn be32(b0: u8, b1: u8, b2: u8, b3: u8) -> u32 {
    (b0 as int * 16777216 + b1 as int * 65536 + b2 as int * 256 + b3 as int) as u32
}

/// The network-order value of the two bytes of `s` that start at `off`.
pub open spec fn be16_at(s: Seq<u8>, off: int) -> u16 {
    be16(s[off], s[off + 1])
}

/// The network-order value of the four bytes of `s` that start at `off`.
pub open spec fn be32_at(s: Seq<u8>, off: int) -> u32 {
    be32(s[off], s[off + 1], s[off + 2], s[off + 3])
}

/// The two network-order bytes of `x`.
pub open spec fn be16_bytes(x: u16) -> Seq<u8> {
    seq![(x / 256) as u8, (x % 256) as u8]
}

/// The four network-order bytes of `x`.
pub open spec fn be32_bytes(x: u32) -> Seq<u8> {
    seq![
        (x / 16777216) as u8,
        ((x / 65536) % 256) as u8,
        ((x / 256) % 256) as u8,
        (x % 256) as u8,
    ]
}

/// The eight network-order bytes of `x`.
pub open spec fn be64_bytes(x: u64) -> Seq<u8> {
    be32_bytes((x / 4294967296) as u32) + be32_bytes((x % 4294967296) as u32)
}

pub fn read_be16(bytes: &[u8], off: usize) -> (r: u16)
    requires
        off + 2 <= bytes@.len(),
    ensures
        r == be16_at(bytes@, off as int),
{
    let b0 = bytes[off] as u16;
    let b1 = bytes[off + 1] as u16;
    b0 * 256 + b1
}

pub fn read_be32(bytes: &[u8], off: usize) -> (r: u32)
    requires
        off + 4 <= bytes@.len(),
    ensures
        r == be32_at(bytes@, off as int),
{
    let b0 = bytes[off] as u32;
    let b1 = bytes[off + 1] as u32;
    let b2 = bytes[off + 2] as u32;
    let b3 = bytes[off + 3] as u32;
    b0 * 16777216 + b1 * 65536 + b2 * 256 + b3
}

pub fn u16_to_be_bytes(x: u16) -> (r: [u8; 2])
    ensures
        r@ == be16_bytes(x),
{
    let r = [(x / 256) as u8, (x % 256) as u8];
    assert(r@ =~= be16_bytes(x));
    r
}

pub fn u32_to_be_bytes(x: u32) -> (r: [u8; 4])
    ensures
        r@ == be32_bytes(x),
{
    let r = [
        (x / 16777216) as u8,
        ((x / 65536) % 256) as u8,
        ((x / 256) % 256) as u8,
        (x % 256) as u8,
    ];
    assert(r@ =~= be32_bytes(x));
    r
}

pub fn u64_to_be_bytes(x: u64) -> (r: [u8; 8])
    ensures
        r@ == be64_bytes(x),
{
    let hi = u32_to_be_bytes((x / 4294967296) as u32);
    let lo = u32_to_be_bytes((x % 4294967296) as u32);
    let r = [hi[0], hi[1], hi[2], hi[3], lo[0], lo[1], lo[2], lo[3]];
    assert(r@ =~= be64_bytes(x));
    r
}

/// Reading back the bytes of a 16-bit value gives the value.
pub proof fn lemma_be16_roundtrip(x: u16)
    ensures
        be16(be16_bytes(x)[0], be16_bytes(x)[1]) == x,
{
}

/// Reading back the bytes of a 32-bit value gives the value.
pub proof fn lemma_be32_roundtrip(x: u32)
    ensures
        be32(be32_bytes(x)[0], be32_bytes(x)[1], be32_bytes(x)[2], be32_bytes(x)[3]) == x,
{
}

/// Encoding what was read from two bytes gives those bytes back.
pub proof fn lemma_be16_bytes_of_read(b0: u8, b1: u8)
    ensures
        be16_bytes(be16(b0, b1)) == seq![b0, b1],
{
    assert(be16_bytes(be16(b0, b1)) =~= seq![b0, b1]);
}

/// Encoding what was read from four bytes gives those bytes back.
pub proof fn lemma_be32_bytes_of_read(b0: u8, b1: u8, b2: u8, b3: u8)
    ensures
        be32_bytes(be32(b0, b1, b2, b3)) == seq![b0, b1, b2, b3],
{
    let v: int = b0 as int * 16777216 + b1 as int * 65536 + b2 as int * 256 + b3 as int;
    assert(0 <= v < 4294967296);
    assert(be32(b0, b1, b2, b3) as int == v);
    assert(v / 16777216 == b0 as int) by (nonlinear_arith)
        requires
            v == b0 as int * 16777216 + b1 as int * 65536 + b2 as int * 256 + b3 as int,
            0 <= b0 < 256,
            0 <= b1 < 256,
            0 <= b2 < 256,
            0 <= b3 < 256,
    ;
    assert((v / 65536) % 256 == b1 as int) by (nonlinear_arith)
        requires
            v == b0 as int * 16777216 + b1 as int * 65536 + b2 as int * 256 + b3 as int,
            0 <= b0 < 256,
            0 <= b1 < 256,
            0 <= b2 < 256,
            0 <= b3 < 256,
    ;
    assert((v / 256) % 256 == b2 as int) by (nonlinear_arith)
        requires
            v == b0 as int * 16777216 + b1 as int * 65536 + b2 as int * 256 + b3 as int,
            0 <= b0 < 256,
            0 <= b1 < 256,
            0 <= b2 < 256,
            0 <= b3 < 256,
    ;
    assert(v % 256 == b3 as int) by (nonlinear_arith)
        requires
            v == b0 as int * 16777216 + b1 as int * 65536 + b2 as int * 256 + b3 as int,
            0 <= b0 < 256,
            0 <= b1 < 256,
            0 <= b2 < 256,
            0 <= b3 < 256,
    ;
    assert(be32_bytes(be32(b0, b1, b2, b3)) =~= seq![b0, b1, b2, b3]);
}

/// The value of two bytes read in host (little-endian) order.
pub open spec fn le16(b0: u8, b1: u8) -> u16 {
    (b0 as int + b1 as int * 256) as u16
}

/// The value of four bytes read in host (little-endian) order.
pub open spec fn le32(b0: u8, b1: u8, b2: u8, b3: u8) -> u32 {
    (b0 as int + b1 as int * 256 + b2 as int * 65536 + b3 as int * 16777216) as u32
}

/// The host-order value of the two bytes of `s` that start at `off`.
pub open spec fn le16_at(s: Seq<u8>, off: int) -> u16 {
    le16(s[off], s[off + 1])
}

/// The host-order value of the four bytes of `s` that start at `off`.
pub open spec fn le32_at(s: Seq<u8>, off: int) -> u32 {
    le32(s[off], s[off + 1], s[off + 2], s[off + 3])
}

/// The two host-order bytes of `x`.
pub open spec fn le16_bytes(x: u16) -> Seq<u8> {
    seq![(x % 256) as u8, (x / 256) as u8]
}

/// The four host-order bytes of `x`.
pub open spec fn le32_bytes(x: u32) -> Seq<u8> {
    seq![
        (x % 256) as u8,
        ((x / 256) % 256) as u8,
        ((x / 65536) % 256) as u8,
        (x / 16777216) as u8,
    ]
}

pub fn read_le16(bytes: &[u8], off: usize) -> (r: u16)
    requires
        off + 2 <= bytes@.len(),
    ensures
        r == le16_at(bytes@, off as int),
{
    let b0 = bytes[off] as u16;
    let b1 = bytes[off + 1] as u16;
    b0 + b1 * 256
}

pub fn read_le32(bytes: &[u8], off: usize) -> (r: u32)
    requires
        off + 4 <= bytes@.len(),
    ensures
        r == le32_at(bytes@, off as int),
{
    let b0 = bytes[off] as u32;
    let b1 = bytes[off + 1] as u32;
    let b2 = bytes[off + 2] as u32;
    let b3 = bytes[off + 3] as u32;
    b0 + b1 * 256 + b2 * 65536 + b3 * 16777216
}

pub fn u16_to_le_bytes(x: u16) -> (r: [u8; 2])
    ensures
        r@ == le16_bytes(x),
{
    let r = [(x % 256) as u8, (x / 256) as u8];
    assert(r@ =~= le16_bytes(x));
    r
}

pub fn u32_to_le_bytes(x: u32) -> (r: [u8; 4])
    ensures
        r@ == le32_bytes(x),
{
    let r = [
        (x % 256) as u8,
        ((x / 256) % 256) as u8,
        ((x / 65536) % 256) as u8,
        (x / 16777216) as u8,
    ];
    assert(r@ =~= le32_bytes(x));
    r
}

/// Reading back the host-order bytes of a 32-bit value gives the value.
pub proof fn lemma_le32_roundtrip(x: u32)
    ensures
        le32(le32_bytes(x)[0], le32_bytes(x)[1], le32_bytes(x)[2], le32_bytes(x)[3]) == x,
{
}

/// Reading back the host-order bytes of a 16-bit value gives the value.
pub proof fn lemma_le16_roundtrip(x: u16)
    ensures
        le16(le16_bytes(x)[0], le16_bytes(x)[1]) == x,
{
}


/// Encoding in host order what was read from two bytes gives those bytes
/// back.
pub proof fn lemma_le16_bytes_of_read(b0: u8, b1: u8)
    ensures
        le16_bytes(le16(b0, b1)) == seq![b0, b1],
{
    lemma_be16_bytes_of_read(b1, b0);
    assert(le16(b0, b1) == be16(b1, b0));
    assert(le16_bytes(le16(b0, b1)) =~= seq![b0, b1]);
}

/// Encoding in host order what was read from four bytes gives those bytes
/// back.
pub proof fn lemma_le32_bytes_of_read(b0: u8, b1: u8, b2: u8, b3: u8)
    ensures
        le32_bytes(le32(b0, b1, b2, b3)) == seq![b0, b1, b2, b3],
{
    lemma_be32_bytes_of_read(b3, b2, b1, b0);
    assert(le32(b0, b1, b2, b3) == be32(b3, b2, b1, b0));
    assert(le32_bytes(le32(b0, b1, b2, b3)) =~= seq![b0, b1, b2, b3]);
}

} // verus!
