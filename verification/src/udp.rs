//! UDP datagrams over IPv4, and the UDP GSO segmentation plan.
use vstd::prelude::*;

use crate::bytes::{be16_at, be16_bytes, be32_bytes};
use crate::errno::{EINVAL, ENOMEM};
use crate::ip::{build_ipv4_packet, inet_checksum, ipv4_packet_bytes, parse_ipv4_packet, parse_ipv4_spec, IPPROTO_UDP};
use crate::skbuff::SkBuff;

verus! {

pub const UDP_SEGMENT: u32 = 103;
pub const UDP_MAX_SEGMENTS: usize = 128;
pub const ETH_MAX_MTU: usize = 0xffff;
pub const CONST_MTU_TEST: usize = 1500;
pub const CONST_HDRLEN_V4: usize = 28;
pub const CONST_HDRLEN_V6: usize = 48;
pub const CONST_MSS_V4: usize = 1472;
pub const CONST_MSS_V6: usize = 1452;
pub const CONST_MAX_SEGS_V4: usize = 44;
pub const CONST_MAX_SEGS_V6: usize = 45;
pub const IP6_MAX_MTU: usize = 65575;

/// A received datagram.
#[derive(Clone, Debug, PartialEq, Eq)]
pub struct UdpPacket {
    pub src_addr: u32,
    pub dst_addr: u32,
    pub src_port: u16,
    pub dst_port: u16,
    pub payload: Vec<u8>,
}

/// How a GSO send splits: `full_segments` segments of the GSO size and a
/// last one of `last_len` bytes (none when zero).
#[derive(Clone, Copy, Debug, PartialEq, Eq)]
pub struct UdpGsoPlan {
    pub full_segments: usize,
    pub last_len: usize,
}

/// The segmentation outcome the kernel gives for a send of `payload_len`
/// bytes with the given GSO size (0: none).
pub open spec fn udp_gso_plan_spec(payload_len: int, gso_len: int, ipv6: bool) -> Option<(int, int)> {
    let mss: int = if ipv6 { CONST_MSS_V6 as int } else { CONST_MSS_V4 as int };
    let max_payload: int = if ipv6 { IP6_MAX_MTU - CONST_HDRLEN_V6 } else { ETH_MAX_MTU - CONST_HDRLEN_V4 };
    if payload_len == 0 || payload_len > max_payload {
        None
    } else if gso_len == 0 {
        if payload_len > mss {
            None
        } else if payload_len == mss {
            Some((1, 0))
        } else {
            Some((0, payload_len))
        }
    } else if gso_len > mss {
        if payload_len <= mss { Some((0, payload_len)) } else { None }
    } else {
        let full = payload_len / gso_len;
        let last = payload_len % gso_len;
        if full + (if last != 0 { 1int } else { 0int }) > UDP_MAX_SEGMENTS {
            None
        } else {
            Some((full, last))
        }
    }
}

/// The segmentation of a GSO send, or EINVAL when the kernel refuses it.
pub fn udp_gso_plan(payload_len: usize, gso_len: Option<usize>, ipv6: bool) -> (r: Result<UdpGsoPlan, i32>)
    ensures
        match udp_gso_plan_spec(payload_len as int, (match gso_len { Some(g) => g, None => 0usize }) as int, ipv6) {
            None => r == Err::<UdpGsoPlan, i32>(EINVAL),
            Some((full, last)) => r matches Ok(p) && p.full_segments == full && p.last_len == last,
        },
{
    let mss = if ipv6 {
        CONST_MSS_V6
    } else {
        CONST_MSS_V4
    };
    let max_payload = if ipv6 {
        IP6_MAX_MTU - CONST_HDRLEN_V6
    } else {
        ETH_MAX_MTU - CONST_HDRLEN_V4
    };
    if payload_len == 0 || payload_len > max_payload {
        return Err(EINVAL);
    }
    let len = match gso_len {
        Some(g) => g,
        None => 0,
    };
    if len == 0 {
        if payload_len > mss {
            return Err(EINVAL);
        }
        if payload_len == mss {
            Ok(UdpGsoPlan { full_segments: 1, last_len: 0 })
        } else {
            Ok(UdpGsoPlan { full_segments: 0, last_len: payload_len })
        }
    } else if len > mss {
        if payload_len <= mss {
            Ok(UdpGsoPlan { full_segments: 0, last_len: payload_len })
        } else {
            Err(EINVAL)
        }
    } else {
        let full_segments = payload_len / len;
        let last_len = payload_len % len;
        let segment_count = full_segments + if last_len != 0 {
            1
        } else {
            0
        };
        if segment_count > UDP_MAX_SEGMENTS {
            return Err(EINVAL);
        }
        Ok(UdpGsoPlan { full_segments, last_len })
    }
}

/// The UDP header and payload with the given checksum field.
pub open spec fn udp_datagram(src_port: u16, dst_port: u16, payload: Seq<u8>, csum: u16) -> Seq<u8> {
    be16_bytes(src_port) + be16_bytes(dst_port) + be16_bytes((payload.len() + 8) as u16) + be16_bytes(csum) + payload
}

/// The IPv4 pseudo-header that the UDP checksum covers.
pub open spec fn udp_pseudo_header(src_addr: u32, dst_addr: u32, udp_len: u16) -> Seq<u8> {
    be32_bytes(src_addr) + be32_bytes(dst_addr) + seq![0u8, IPPROTO_UDP] + be16_bytes(udp_len)
}

/// The RFC 768 checksum of a datagram: zero is sent as 0xffff.
pub open spec fn udp_checksum_spec(src_addr: u32, dst_addr: u32, udp: Seq<u8>) -> u16 {
    let c = inet_checksum(udp_pseudo_header(src_addr, dst_addr, udp.len() as u16) + udp);
    if c == 0 {
        0xffff
    } else {
        c
    }
}

/// The UDP header (checksum zero) followed by the payload.
pub fn build_udp_payload(src_port: u16, dst_port: u16, payload: &[u8]) -> (r: Result<Vec<u8>, i32>)
    ensures
        payload@.len() + 8 > 65535 ==> r == Err::<Vec<u8>, i32>(EINVAL),
        payload@.len() + 8 <= 65535 ==> (r matches Ok(v) && v@ == udp_datagram(src_port, dst_port, payload@, 0)),
{
    if payload.len() > 65535 - 8 {
        return Err(EINVAL);
    }
    let len = (payload.len() + 8) as u16;
    let mut out: Vec<u8> = Vec::new();
    let a = crate::bytes::u16_to_be_bytes(src_port);
    let b = crate::bytes::u16_to_be_bytes(dst_port);
    let c = crate::bytes::u16_to_be_bytes(len);
    let z = crate::bytes::u16_to_be_bytes(0);
    append(&mut out, &a);
    append(&mut out, &b);
    append(&mut out, &c);
    append(&mut out, &z);
    append(&mut out, payload);
    assert(out@ =~= udp_datagram(src_port, dst_port, payload@, 0));
    Ok(out)
}

fn append(out: &mut Vec<u8>, src: &[u8])
    ensures
        final(out)@ == old(out)@ + src@,
{
    let mut i: usize = 0;
    while i < src.len()
        invariant
            i <= src@.len(),
            out@ == old(out)@ + src@.subrange(0, i as int),
        decreases src@.len() - i,
    {
        out.push(src[i]);
        i += 1;
        assert(out@ =~= old(out)@ + src@.subrange(0, i as int));
    }
    assert(src@.subrange(0, src@.len() as int) =~= src@);
}

/// The RFC 768 UDP checksum over the IPv4 pseudo-header and the datagram.
fn udp_checksum(src_addr: u32, dst_addr: u32, udp_bytes: &[u8]) -> (r: u16)
    requires
        udp_bytes@.len() <= 65535,
    ensures
        r == udp_checksum_spec(src_addr, dst_addr, udp_bytes@),
{
    let udp_len = udp_bytes.len() as u16;
    let mut pseudo: Vec<u8> = Vec::new();
    let s = crate::bytes::u32_to_be_bytes(src_addr);
    let d = crate::bytes::u32_to_be_bytes(dst_addr);
    let l = crate::bytes::u16_to_be_bytes(udp_len);
    append(&mut pseudo, &s);
    append(&mut pseudo, &d);
    pseudo.push(0);
    pseudo.push(IPPROTO_UDP);
    append(&mut pseudo, &l);
    append(&mut pseudo, udp_bytes);
    assert(pseudo@ =~= udp_pseudo_header(src_addr, dst_addr, udp_len) + udp_bytes@);
    let c = crate::ip::checksum(pseudo.as_slice());
    if c == 0 {
        0xffff
    } else {
        c
    }
}

/// An IPv4 packet (TTL 64) carrying a UDP datagram with its checksum.
pub fn udp_sendmsg(src_addr: u32, dst_addr: u32, src_port: u16, dst_port: u16, payload: &[u8]) -> (r: Result<SkBuff, i32>)
    ensures
        payload@.len() + 28 > 65535 ==> r == Err::<SkBuff, i32>(EINVAL),
        payload@.len() + 28 <= 65535 ==> r is Ok || r == Err::<SkBuff, i32>(ENOMEM),
        r matches Ok(skb) ==> skb.wf() && skb@ == ipv4_packet_bytes(
            src_addr,
            dst_addr,
            IPPROTO_UDP,
            udp_datagram(src_port, dst_port, payload@, udp_checksum_spec(src_addr, dst_addr, udp_datagram(src_port, dst_port, payload@, 0))),
            64,
        ),
{
    if payload.len() > 65535 - 28 {
        return Err(EINVAL);
    }
    let mut udp = match build_udp_payload(src_port, dst_port, payload) {
        Ok(u) => u,
        Err(e) => return Err(e),
    };
    let csum = udp_checksum(src_addr, dst_addr, udp.as_slice());
    let cb = crate::bytes::u16_to_be_bytes(csum);
    let ghost u0 = udp@;
    udp.set(6, cb[0]);
    udp.set(7, cb[1]);
    assert(udp@ =~= udp_datagram(src_port, dst_port, payload@, csum));
    build_ipv4_packet(src_addr, dst_addr, IPPROTO_UDP, udp.as_slice(), 64)
}

/// The datagram carried by an IPv4 packet: `None` when it is not a
/// well-formed UDP one.
pub open spec fn parse_udp_spec(b: Seq<u8>) -> Option<(u32, u32, u16, u16, Seq<u8>)> {
    match parse_ipv4_spec(b) {
        None => None,
        Some((src, dst, proto, ttl, p)) => {
            if proto != IPPROTO_UDP || p.len() < 8 {
                None
            } else if be16_at(p, 4) < 8 || be16_at(p, 4) > p.len() {
                None
            } else {
                Some((src, dst, be16_at(p, 0), be16_at(p, 2), p.subrange(8, be16_at(p, 4) as int)))
            }
        },
    }
}

/// The datagram in `skb`; EINVAL when it is not a well-formed UDP one.
pub fn udp_recvmsg(skb: &SkBuff) -> (r: Result<UdpPacket, i32>)
    requires
        skb.wf(),
    ensures
        match parse_udp_spec(skb@) {
            None => r == Err::<UdpPacket, i32>(EINVAL),
            Some(f) => r matches Ok(p) && (p.src_addr, p.dst_addr, p.src_port, p.dst_port, p.payload@) == f,
        },
{
    let ip = match parse_ipv4_packet(skb) {
        Ok(p) => p,
        Err(e) => return Err(e),
    };
    if ip.protocol != IPPROTO_UDP || ip.payload.len() < 8 {
        return Err(EINVAL);
    }
    let p = ip.payload.as_slice();
    let udp_len = crate::bytes::read_be16(p, 4) as usize;
    if udp_len < 8 || udp_len > p.len() {
        return Err(EINVAL);
    }
    Ok(UdpPacket {
        src_addr: ip.src,
        dst_addr: ip.dst,
        src_port: crate::bytes::read_be16(p, 0),
        dst_port: crate::bytes::read_be16(p, 2),
        payload: crate::ip::copy_range(p, 8, udp_len),
    })
}

/// Receiving what `udp_sendmsg` sent gives back the addresses, ports and
/// payload, whatever the checksum.
#[verifier::spinoff_prover]
#[verifier::rlimit(40)]
pub proof fn lemma_udp_send_recv_roundtrip(
    src_addr: u32,
    dst_addr: u32,
    src_port: u16,
    dst_port: u16,
    payload: Seq<u8>,
    csum: u16,
)
    requires
        payload.len() + 28 <= 65535,
    ensures
        parse_udp_spec(ipv4_packet_bytes(src_addr, dst_addr, IPPROTO_UDP, udp_datagram(src_port, dst_port, payload, csum), 64))
            == Some((src_addr, dst_addr, src_port, dst_port, payload)),
{
    let d = udp_datagram(src_port, dst_port, payload, csum);
    let l = (payload.len() + 8) as u16;
    crate::ip::lemma_ipv4_roundtrip(src_addr, dst_addr, IPPROTO_UDP, d, 64);
    assert(parse_ipv4_spec(ipv4_packet_bytes(src_addr, dst_addr, IPPROTO_UDP, d, 64)) == Some((src_addr, dst_addr, IPPROTO_UDP, 64u8, d)));
    assert(d.len() == payload.len() + 8);
    assert(d[0] == be16_bytes(src_port)[0] && d[1] == be16_bytes(src_port)[1]);
    assert(d[2] == be16_bytes(dst_port)[0] && d[3] == be16_bytes(dst_port)[1]);
    assert(d[4] == be16_bytes(l)[0] && d[5] == be16_bytes(l)[1]);
    crate::bytes::lemma_be16_roundtrip(src_port);
    crate::bytes::lemma_be16_roundtrip(dst_port);
    crate::bytes::lemma_be16_roundtrip(l);
    assert(be16_at(d, 0) == src_port);
    assert(be16_at(d, 2) == dst_port);
    assert(be16_at(d, 4) == l);
    assert(d.subrange(8, l as int) =~= payload);
}

} // verus!
