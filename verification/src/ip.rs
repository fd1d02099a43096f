//! IPv4 and IPv6 header building and parsing, and the Internet checksum.
use vstd::prelude::*;

use crate::bytes::{be16, be16_at, be16_bytes, be32, be32_at, be32_bytes};
use crate::errno::{EINVAL, ENOMEM};
use crate::skbuff::{alloc_skb, skb_put, SkBuff};

verus! {

pub const IPPROTO_ICMP: u8 = 1;
pub const IPPROTO_TCP: u8 = 6;
pub const IPPROTO_UDP: u8 = 17;
pub const ETH_P_IP: u16 = 0x0800;
pub const ETH_P_IPV6: u16 = 0x86dd;
pub const IPV4_HEADER_LEN: usize = 20;
pub const IPV6_HEADER_LEN: usize = 40;

/// A parsed IPv4 packet.
#[derive(Clone, Debug, PartialEq, Eq)]
pub struct Ipv4Packet {
    pub src: u32,
    pub dst: u32,
    pub protocol: u8,
    pub ttl: u8,
    pub payload: Vec<u8>,
}

/// A parsed IPv6 packet.
#[derive(Clone, Debug, PartialEq, Eq)]
pub struct Ipv6Packet {
    pub src: [u8; 16],
    pub dst: [u8; 16],
    pub next_header: u8,
    pub hop_limit: u8,
    pub payload: Vec<u8>,
}

/// The address `a.b.c.d` as a host-order integer (first octet highest).
pub fn ipv4(a: u8, b: u8, c: u8, d: u8) -> (r: u32)
    ensures
        r == be32(a, b, c, d),
{
    a as u32 * 16777216 + b as u32 * 65536 + c as u32 * 256 + d as u32
}

/// One's-complement addition of two 16-bit words (end-around carry).
pub open spec fn add1c(a: u16, b: u16) -> u16 {
    if a + b > 65535 {
        (a + b - 65535) as u16
    } else {
        (a + b) as u16
    }
}

/// The `i`-th 16-bit network-order word of `s`; an odd last byte is padded
/// with a zero byte.
pub open spec fn csum_word(s: Seq<u8>, i: int) -> u16 {
    if 2 * i + 1 < s.len() {
        be16(s[2 * i], s[2 * i + 1])
    } else {
        be16(s[2 * i], 0)
    }
}

/// One's-complement sum of the first `k` words of `s`.
pub open spec fn ocsum_words(s: Seq<u8>, k: int) -> u16
    decreases k,
{
    if k <= 0 {
        0
    } else {
        add1c(ocsum_words(s, k - 1), csum_word(s, k - 1))
    }
}

/// Number of 16-bit words `s` spans.
pub open spec fn csum_nwords(s: Seq<u8>) -> int {
    (s.len() as int + 1) / 2
}

/// The Internet checksum (RFC 1071) of `s`: the complement of the
/// one's-complement sum of its words.
pub open spec fn inet_checksum(s: Seq<u8>) -> u16 {
    (0xffff - ocsum_words(s, csum_nwords(s))) as u16
}

/// The Internet checksum of `bytes`.
pub fn checksum(bytes: &[u8]) -> (r: u16)
    ensures
        r == inet_checksum(bytes@),
{
    let n = bytes.len();
    let nwords = n / 2 + n % 2;
    assert(nwords as int == csum_nwords(bytes@));
    let mut acc: u16 = 0;
    let mut i: usize = 0;
    while i < nwords
        invariant
            i <= nwords,
            n == bytes@.len(),
            nwords as int == csum_nwords(bytes@),
            acc == ocsum_words(bytes@, i as int),
        decreases nwords - i,
    {
        let hi = bytes[2 * i] as u32;
        let lo: u32 = if 2 * i + 1 < n {
            bytes[2 * i + 1] as u32
        } else {
            0
        };
        let word = hi * 256 + lo;
        assert(word == csum_word(bytes@, i as int));
        let s = acc as u32 + word;
        acc = if s > 65535 {
            (s - 65535) as u16
        } else {
            s as u16
        };
        i += 1;
    }
    0xffff - acc
}

/// The 20-byte IPv4 header without options, checksum field zero.
pub open spec fn ipv4_header_zero_csum(src: u32, dst: u32, protocol: u8, ttl: u8, total_len: u16) -> Seq<u8> {
    seq![0x45u8, 0u8] + be16_bytes(total_len) + seq![0u8, 0u8, 0u8, 0u8, ttl, protocol, 0u8, 0u8]
        + be32_bytes(src) + be32_bytes(dst)
}

/// The 20-byte IPv4 header, with its checksum.
pub open spec fn ipv4_header(src: u32, dst: u32, protocol: u8, ttl: u8, total_len: u16) -> Seq<u8> {
    let h = ipv4_header_zero_csum(src, dst, protocol, ttl, total_len);
    h.subrange(0, 10) + be16_bytes(inet_checksum(h)) + h.subrange(12, 20)
}

/// The bytes of an IPv4 packet carrying `payload`.
pub open spec fn ipv4_packet_bytes(src: u32, dst: u32, protocol: u8, payload: Seq<u8>, ttl: u8) -> Seq<u8> {
    ipv4_header(src, dst, protocol, ttl, (payload.len() + 20) as u16) + payload
}

/// The bytes of an IPv6 packet carrying `payload`.
pub open spec fn ipv6_packet_bytes(src: Seq<u8>, dst: Seq<u8>, next_header: u8, payload: Seq<u8>, hop_limit: u8) -> Seq<u8> {
    seq![0x60u8, 0u8, 0u8, 0u8] + be16_bytes(payload.len() as u16) + seq![next_header, hop_limit] + src + dst + payload
}

/// The fields of an IPv4 packet: `None` when the bytes are not one.
pub open spec fn parse_ipv4_spec(b: Seq<u8>) -> Option<(u32, u32, u8, u8, Seq<u8>)> {
    if b.len() < 20 || b[0] / 16 != 4 || (b[0] % 16) < 5 {
        None
    } else {
        let ihl = (b[0] % 16) as int * 4;
        let total = be16_at(b, 2) as int;
        if ihl > b.len() || total < ihl || total > b.len() {
            None
        } else {
            Some((be32_at(b, 12), be32_at(b, 16), b[9], b[8], b.subrange(ihl, total)))
        }
    }
}

/// The fields of an IPv6 packet: `None` when the bytes are not one.
pub open spec fn parse_ipv6_spec(b: Seq<u8>) -> Option<(Seq<u8>, Seq<u8>, u8, u8, Seq<u8>)> {
    if b.len() < 40 || b[0] / 16 != 6 || 40 + be16_at(b, 4) > b.len() {
        None
    } else {
        Some((b.subrange(8, 24), b.subrange(24, 40), b[6], b[7], b.subrange(40, 40 + be16_at(b, 4))))
    }
}

/// A packet buffer holding exactly `bytes`.
pub(crate) fn skb_from_bytes(bytes: &[u8]) -> (r: Result<SkBuff, i32>)
    ensures
        r matches Ok(skb) ==> skb.wf() && skb@ == bytes@,
        r matches Err(e) ==> e == ENOMEM,
{
    let mut skb = match alloc_skb(bytes.len()) {
        Ok(s) => s,
        Err(e) => return Err(e),
    };
    let area = match skb_put(&mut skb, bytes.len()) {
        Ok(area) => area,
        Err(_) => return Err(ENOMEM),
    };
    crate::skbuff::copy_into(area, bytes);
    assert(skb@ =~= bytes@);
    Ok(skb)
}

/// Appends `src` to `out`.
pub(crate) fn push_bytes(out: &mut Vec<u8>, src: &[u8])
    ensures
        final(out)@ == old(out)@ + src@,
{
    let mut i: usize = 0;
    while i < src.len()
        invariant
            i <= src@.len(),
            out@ == old(out)@ + src@.subrange(0, i as int),
        decreases src@.len() - i,
    {
        out.push(src[i]);
        i += 1;
        assert(out@ =~= old(out)@ + src@.subrange(0, i as int));
    }
    assert(src@.subrange(0, src@.len() as int) =~= src@);
}

/// An IPv4 packet from `src` to `dst` carrying `payload`.
pub fn build_ipv4_packet(src: u32, dst: u32, protocol: u8, payload: &[u8], ttl: u8) -> (r: Result<SkBuff, i32>)
    ensures
        payload@.len() + 20 > 65535 ==> r == Err::<SkBuff, i32>(EINVAL),
        payload@.len() + 20 <= 65535 ==> r is Ok || r == Err::<SkBuff, i32>(ENOMEM),
        r matches Ok(skb) ==> skb.wf() && skb@ == ipv4_packet_bytes(src, dst, protocol, payload@, ttl),
{
    if payload.len() > 65535 - 20 {
        return Err(EINVAL);
    }
    let total = (payload.len() + 20) as u16;
    let mut header: Vec<u8> = Vec::new();
    header.push(0x45);
    header.push(0);
    let tl = crate::bytes::u16_to_be_bytes(total);
    push_bytes(&mut header, &tl);
    header.push(0);
    header.push(0);
    header.push(0);
    header.push(0);
    header.push(ttl);
    header.push(protocol);
    header.push(0);
    header.push(0);
    let s = crate::bytes::u32_to_be_bytes(src);
    push_bytes(&mut header, &s);
    let d = crate::bytes::u32_to_be_bytes(dst);
    push_bytes(&mut header, &d);
    assert(header@ =~= ipv4_header_zero_csum(src, dst, protocol, ttl, total));
    let csum = checksum(header.as_slice());
    let c = crate::bytes::u16_to_be_bytes(csum);
    let ghost h0 = header@;
    header.set(10, c[0]);
    header.set(11, c[1]);
    assert(header@ =~= h0.subrange(0, 10) + be16_bytes(csum) + h0.subrange(12, 20));
    push_bytes(&mut header, payload);
    skb_from_bytes(header.as_slice())
}

/// The fields of the IPv4 packet in `skb`; EINVAL when it is not one.
pub fn parse_ipv4_packet(skb: &SkBuff) -> (r: Result<Ipv4Packet, i32>)
    requires
        skb.wf(),
    ensures
        match parse_ipv4_spec(skb@) {
            None => r == Err::<Ipv4Packet, i32>(EINVAL),
            Some(f) => r matches Ok(p) && (p.src, p.dst, p.protocol, p.ttl, p.payload@) == f,
        },
{
    let b = skb.data();
    if b.len() < 20 || b[0] / 16 != 4 || b[0] % 16 < 5 {
        return Err(EINVAL);
    }
    let ihl = (b[0] % 16) as usize * 4;
    let total = crate::bytes::read_be16(b, 2) as usize;
    if ihl > b.len() || total < ihl || total > b.len() {
        return Err(EINVAL);
    }
    let payload = copy_range(b, ihl, total);
    Ok(Ipv4Packet {
        src: crate::bytes::read_be32(b, 12),
        dst: crate::bytes::read_be32(b, 16),
        protocol: b[9],
        ttl: b[8],
        payload,
    })
}

/// A vector holding `b[from..to]`.
pub(crate) fn copy_range(b: &[u8], from: usize, to: usize) -> (r: Vec<u8>)
    requires
        from <= to <= b@.len(),
    ensures
        r@ == b@.subrange(from as int, to as int),
{
    let mut out: Vec<u8> = Vec::new();
    let mut i = from;
    while i < to
        invariant
            from <= i <= to,
            to <= b@.len(),
            out@ == b@.subrange(from as int, i as int),
        decreases to - i,
    {
        out.push(b[i]);
        i += 1;
        assert(out@ =~= b@.subrange(from as int, i as int));
    }
    out
}

/// An IPv6 packet from `src` to `dst` carrying `payload`.
pub fn build_ipv6_packet(src: [u8; 16], dst: [u8; 16], next_header: u8, payload: &[u8], hop_limit: u8) -> (r: Result<SkBuff, i32>)
    ensures
        payload@.len() > 65535 ==> r == Err::<SkBuff, i32>(EINVAL),
        payload@.len() <= 65535 ==> r is Ok || r == Err::<SkBuff, i32>(ENOMEM),
        r matches Ok(skb) ==> skb.wf() && skb@ == ipv6_packet_bytes(src@, dst@, next_header, payload@, hop_limit),
{
    if payload.len() > 65535 {
        return Err(EINVAL);
    }
    let plen = payload.len() as u16;
    let mut out: Vec<u8> = Vec::new();
    out.push(0x60);
    out.push(0);
    out.push(0);
    out.push(0);
    let pl = crate::bytes::u16_to_be_bytes(plen);
    push_bytes(&mut out, &pl);
    out.push(next_header);
    out.push(hop_limit);
    push_bytes(&mut out, &src);
    push_bytes(&mut out, &dst);
    push_bytes(&mut out, payload);
    assert(out@ =~= ipv6_packet_bytes(src@, dst@, next_header, payload@, hop_limit));
    skb_from_bytes(out.as_slice())
}

pub(crate) fn array16_from(b: &[u8], off: usize) -> (r: [u8; 16])
    requires
        off + 16 <= b@.len(),
    ensures
        r@ == b@.subrange(off as int, off + 16),
{
    let mut r = [0u8; 16];
    let n = b.len();
    let mut i: usize = 0;
    while i < 16
        invariant
            i <= 16,
            n == b@.len(),
            off + 16 <= b@.len(),
            r@.len() == 16,
            forall|j: int| 0 <= j < i ==> #[trigger] r@[j] == b@[off + j],
        decreases 16 - i,
    {
        r.set(i, b[off + i]);
        i += 1;
    }
    assert(r@ =~= b@.subrange(off as int, off + 16));
    r
}

/// The fields of the IPv6 packet in `skb`; EINVAL when it is not one.
pub fn parse_ipv6_packet(skb: &SkBuff) -> (r: Result<Ipv6Packet, i32>)
    requires
        skb.wf(),
    ensures
        match parse_ipv6_spec(skb@) {
            None => r == Err::<Ipv6Packet, i32>(EINVAL),
            Some(f) => r matches Ok(p) && (p.src@, p.dst@, p.next_header, p.hop_limit, p.payload@) == f,
        },
{
    let b = skb.data();
    if b.len() < 40 || b[0] / 16 != 6 {
        return Err(EINVAL);
    }
    let plen = crate::bytes::read_be16(b, 4) as usize;
    if plen > b.len() - 40 {
        return Err(EINVAL);
    }
    let payload = copy_range(b, 40, 40 + plen);
    Ok(Ipv6Packet {
        src: array16_from(b, 8),
        dst: array16_from(b, 24),
        next_header: b[6],
        hop_limit: b[7],
        payload,
    })
}

/// Parsing what `build_ipv6_packet` built gives back its fields.
pub proof fn lemma_ipv6_roundtrip(src: Seq<u8>, dst: Seq<u8>, next_header: u8, payload: Seq<u8>, hop_limit: u8)
    requires
        src.len() == 16,
        dst.len() == 16,
        payload.len() <= 65535,
    ensures
        parse_ipv6_spec(ipv6_packet_bytes(src, dst, next_header, payload, hop_limit))
            == Some((src, dst, next_header, hop_limit, payload)),
{
    let b = ipv6_packet_bytes(src, dst, next_header, payload, hop_limit);
    let plen = payload.len() as u16;
    crate::bytes::lemma_be16_roundtrip(plen);
    assert(be16_at(b, 4) == plen);
    assert(b.subrange(8, 24) =~= src);
    assert(b.subrange(24, 40) =~= dst);
    assert(b.subrange(40, 40 + be16_at(b, 4)) =~= payload);
}

/// Parsing what `build_ipv4_packet` built gives back its fields.
pub proof fn lemma_ipv4_roundtrip(src: u32, dst: u32, protocol: u8, payload: Seq<u8>, ttl: u8)
    requires
        payload.len() + 20 <= 65535,
    ensures
        parse_ipv4_spec(ipv4_packet_bytes(src, dst, protocol, payload, ttl)) == Some((src, dst, protocol, ttl, payload)),
{
    let total = (payload.len() + 20) as u16;
    let b = ipv4_packet_bytes(src, dst, protocol, payload, ttl);
    let h0 = ipv4_header_zero_csum(src, dst, protocol, ttl, total);
    crate::bytes::lemma_be16_roundtrip(total);
    crate::bytes::lemma_be32_roundtrip(src);
    crate::bytes::lemma_be32_roundtrip(dst);
    assert(b[0] == 0x45u8);
    assert(be16_at(b, 2) == total);
    assert(be32_at(b, 12) == src);
    assert(be32_at(b, 16) == dst);
    assert(b[9] == protocol);
    assert(b[8] == ttl);
    assert(b.subrange(20, total as int) =~= payload);
}


/// Plain integer sum of the first `k` words of `s`.
pub open spec fn word_sum(s: Seq<u8>, k: int) -> int
    decreases k,
{
    if k <= 0 {
        0
    } else {
        word_sum(s, k - 1) + csum_word(s, k - 1)
    }
}

/// The one's-complement value of the integer sum `t`: zero only for zero,
/// otherwise folded into `1..=65535`.
pub open spec fn fold1c(t: int) -> int {
    if t <= 0 {
        0
    } else {
        (t - 1) % 65535 + 1
    }
}

/// The one's-complement running sum is the folded integer sum.
proof fn lemma_ocsum_is_folded_sum(s: Seq<u8>, k: int)
    requires
        k >= 0,
    ensures
        word_sum(s, k) >= 0,
        ocsum_words(s, k) as int == fold1c(word_sum(s, k)),
    decreases k,
{
    if k > 0 {
        lemma_ocsum_is_folded_sum(s, k - 1);
        let t = word_sum(s, k - 1);
        let w = csum_word(s, k - 1) as int;
        if t > 0 {
            let f = (t - 1) % 65535 + 1;
            assert(1 <= f <= 65535);
            assert((t + w - 1) % 65535 == (f - 1 + w) % 65535) by {
                vstd::arithmetic::div_mod::lemma_add_mod_noop(t - 1, w, 65535);
                vstd::arithmetic::div_mod::lemma_add_mod_noop(f - 1, w, 65535);
                vstd::arithmetic::div_mod::lemma_mod_twice(t - 1, 65535);
            }
            if f - 1 + w >= 65535 {
                vstd::arithmetic::div_mod::lemma_mod_sub_multiples_vanish(f - 1 + w, 65535);
                vstd::arithmetic::div_mod::lemma_small_mod((f - 1 + w - 65535) as nat, 65535);
            } else {
                vstd::arithmetic::div_mod::lemma_small_mod((f - 1 + w) as nat, 65535);
            }
        } else if w > 0 {
            vstd::arithmetic::div_mod::lemma_small_mod((w - 1) as nat, 65535);
        }
    }
}

/// Two sequences that differ at most in the two bytes of word `j`, where
/// `s` holds zero, have word sums that differ by `t`'s word `j`.
proof fn lemma_word_sum_fill(s: Seq<u8>, t: Seq<u8>, j: int, k: int)
    requires
        s.len() == t.len(),
        0 <= j,
        2 * j + 1 < s.len(),
        s[2 * j] == 0,
        s[2 * j + 1] == 0,
        forall|i: int| 0 <= i < s.len() && i != 2 * j && i != 2 * j + 1 ==> s[i] == t[i],
        0 <= k <= csum_nwords(s),
    ensures
        word_sum(t, k) == word_sum(s, k) + (if k > j { csum_word(t, j) as int } else { 0 }),
    decreases k,
{
    if k > 0 {
        lemma_word_sum_fill(s, t, j, k - 1);
        let i = k - 1;
        if i != j {
            assert(s[2 * i] == t[2 * i]);
            if 2 * i + 1 < s.len() {
                assert(s[2 * i + 1] == t[2 * i + 1]);
            }
            assert(csum_word(s, i) == csum_word(t, i));
        } else {
            assert(csum_word(s, j) == 0);
        }
    }
}

/// Writing the Internet checksum of `s` into its zeroed word `j` gives
/// bytes whose Internet checksum is zero.
pub proof fn lemma_checksum_field_verifies(s: Seq<u8>, j: int)
    requires
        0 <= j,
        2 * j + 1 < s.len(),
        s[2 * j] == 0,
        s[2 * j + 1] == 0,
    ensures
        inet_checksum(s.subrange(0, 2 * j) + be16_bytes(inet_checksum(s)) + s.subrange(2 * j + 2, s.len() as int))
            == 0,
{
    let c = inet_checksum(s);
    let t = s.subrange(0, 2 * j) + be16_bytes(c) + s.subrange(2 * j + 2, s.len() as int);
    let n = csum_nwords(s);
    assert(t.len() == s.len());
    assert(csum_nwords(t) == n);
    assert forall|i: int| 0 <= i < s.len() && i != 2 * j && i != 2 * j + 1 implies s[i] == t[i] by {
        if i < 2 * j {
            assert(t[i] == s.subrange(0, 2 * j)[i]);
        } else {
            assert(t[i] == s.subrange(2 * j + 2, s.len() as int)[i - 2 * j - 2]);
        }
    }
    lemma_word_sum_fill(s, t, j, n);
    crate::bytes::lemma_be16_roundtrip(c);
    assert(t[2 * j] == be16_bytes(c)[0]);
    assert(t[2 * j + 1] == be16_bytes(c)[1]);
    assert(csum_word(t, j) == c);
    lemma_ocsum_is_folded_sum(s, n);
    lemma_ocsum_is_folded_sum(t, n);
    let tot = word_sum(s, n);
    assert(word_sum(t, n) == tot + c);
    if tot > 0 {
        let r = (tot - 1) % 65535;
        let q = (tot - 1) / 65535;
        vstd::arithmetic::div_mod::lemma_fundamental_div_mod(tot - 1, 65535);
        assert(c == 65535 - (r + 1));
        assert(tot + c - 1 == 65535 * q + 65534);
        vstd::arithmetic::div_mod::lemma_mod_multiples_vanish(q, 65534, 65535);
        vstd::arithmetic::div_mod::lemma_small_mod(65534, 65535);
        assert((tot + c - 1) % 65535 == 65534);
    }
}


/// The header `build_ipv4_packet` writes carries a checksum that verifies:
/// the Internet checksum of the whole header is zero.
pub proof fn lemma_ipv4_header_checksum_verifies(src: u32, dst: u32, protocol: u8, ttl: u8, total_len: u16)
    ensures
        inet_checksum(ipv4_header(src, dst, protocol, ttl, total_len)) == 0,
{
    let h = ipv4_header_zero_csum(src, dst, protocol, ttl, total_len);
    assert(h.len() == 20);
    assert(h[10] == 0 && h[11] == 0);
    lemma_checksum_field_verifies(h, 5);
    assert(ipv4_header(src, dst, protocol, ttl, total_len) =~= h.subrange(0, 10) + be16_bytes(inet_checksum(h))
        + h.subrange(12, h.len() as int));
}

} // verus!
