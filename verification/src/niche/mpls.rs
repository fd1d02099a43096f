//! MPLS GSO: an MPLS frame with a large inner payload is cut into segments
//! of at most `gso_size` payload bytes, each carrying the MAC and MPLS
//! headers again.
use vstd::prelude::*;

use crate::errno::{EINVAL, ENOMEM};
use crate::ip::{copy_range, push_bytes, skb_from_bytes};
use crate::niche::{ETH_P_IP, ETH_P_IPV6, ETH_P_MPLS_MC, ETH_P_MPLS_UC};
use crate::skbuff::SkBuff;

verus! {

pub const MPLS_HLEN: usize = 4;
pub const MPLS_GSO_MAX_SEGMENTS: usize = 128;

/// A frame handed to MPLS GSO, split into its parts.
#[derive(Clone, Debug, PartialEq, Eq)]
pub struct MplsGsoPacket {
    pub ethertype: u16,
    pub inner_protocol: Option<u16>,
    pub mac_header: Vec<u8>,
    pub mpls_header: Vec<u8>,
    pub inner_payload: Vec<u8>,
    pub gso_size: usize,
    pub requested_features: u64,
    pub device_mpls_features: u64,
}

/// One output segment and the header offsets recorded for it.
#[derive(Clone, Debug, PartialEq, Eq)]
pub struct MplsGsoSegment {
    pub ethertype: u16,
    pub inner_protocol: u16,
    pub mac_len: usize,
    pub mpls_hlen: usize,
    pub mac_header_offset: usize,
    pub network_header_offset: usize,
    pub inner_network_header_offset: usize,
    pub payload_offset: usize,
    pub payload_len: usize,
    pub gso_features: u64,
    pub frame: Vec<u8>,
}

/// The metadata a packet buffer carries for MPLS GSO.
#[derive(Clone, Copy, Debug, PartialEq, Eq)]
pub struct MplsGsoSkbContext {
    pub ethertype: u16,
    pub inner_protocol: Option<u16>,
    pub mac_len: usize,
    pub mpls_hlen: usize,
    pub gso_size: usize,
    pub requested_features: u64,
    pub device_mpls_features: u64,
}

/// The number of segments `n` payload bytes make at `g` bytes each
/// (`n / g` rounded up).
pub open spec fn mpls_seg_count(n: nat, g: nat) -> nat {
    if n == 0 || g == 0 {
        0
    } else {
        ((n - 1) as nat / g + 1) as nat
    }
}

/// The `k`-th segment's share of `payload` at `g` bytes per segment.
pub open spec fn mpls_chunk(payload: Seq<u8>, g: nat, k: nat) -> Seq<u8> {
    let start = k * g;
    let end: int = if (k + 1) * g < payload.len() { ((k + 1) * g) as int } else { payload.len() as int };
    payload.subrange(start as int, end)
}

/// The first `k` segment shares, one after another.
pub open spec fn mpls_concat(payload: Seq<u8>, g: nat, k: nat) -> Seq<u8>
    decreases k,
{
    if k == 0 {
        Seq::empty()
    } else {
        mpls_concat(payload, g, (k - 1) as nat) + mpls_chunk(payload, g, (k - 1) as nat)
    }
}

proof fn lemma_chunk_start(n: nat, g: nat, k: nat)
    requires
        g > 0,
        k < mpls_seg_count(n, g),
    ensures
        k * g < n,
{
    let q = (n - 1) as nat / g;
    assert(k <= q);
    assert(k * g <= q * g) by (nonlinear_arith)
        requires
            k <= q,
    ;
    assert(q * g <= (n - 1) as nat) by (nonlinear_arith)
        requires
            g > 0,
            q == (n - 1) as nat / g,
    ;
}

proof fn lemma_count_covers(n: nat, g: nat)
    requires
        g > 0,
        n > 0,
    ensures
        mpls_seg_count(n, g) * g >= n,
{
    let m = (n - 1) as nat;
    let q = m / g;
    assert((q + 1) * g >= m + 1) by (nonlinear_arith)
        requires
            g > 0,
            q == m / g,
    ;
}

/// The segment shares of `payload` put back together are `payload`.
pub proof fn lemma_mpls_chunks_reassemble(payload: Seq<u8>, g: nat)
    requires
        g > 0,
    ensures
        mpls_concat(payload, g, mpls_seg_count(payload.len(), g)) == payload,
{
    let n = payload.len();
    let c = mpls_seg_count(n, g);
    if n == 0 {
        assert(payload =~= Seq::<u8>::empty());
        return;
    }
    lemma_concat_prefix(payload, g, c);
    lemma_count_covers(n, g);
    assert(payload.subrange(0, n as int) =~= payload);
}

proof fn lemma_concat_prefix(payload: Seq<u8>, g: nat, k: nat)
    requires
        g > 0,
        k <= mpls_seg_count(payload.len(), g),
    ensures
        mpls_concat(payload, g, k) == payload.subrange(0, if k * g < payload.len() { (k * g) as int } else { payload.len() as int }),
    decreases k,
{
    if k == 0 {
        assert(payload.subrange(0, 0) =~= Seq::<u8>::empty());
    } else {
        let j = (k - 1) as nat;
        lemma_concat_prefix(payload, g, j);
        lemma_chunk_start(payload.len(), g, j);
        assert(j * g + g == k * g) by (nonlinear_arith)
            requires
                j + 1 == k,
        ;
        let end: int = if k * g < payload.len() { (k * g) as int } else { payload.len() as int };
        assert(payload.subrange(0, (j * g) as int) + payload.subrange((j * g) as int, end) =~= payload.subrange(0, end));
    }
}

/// The frame types MPLS GSO accepts.
pub open spec fn mpls_ethertype_ok(ethertype: u16) -> bool {
    ethertype == ETH_P_MPLS_UC || ethertype == ETH_P_MPLS_MC
}

/// The packets MPLS GSO segments; every other one gets EINVAL.
pub open spec fn mpls_gso_packet_ok(p: MplsGsoPacket) -> bool {
    &&& mpls_ethertype_ok(p.ethertype)
    &&& p.inner_protocol is Some
    &&& p.mpls_header@.len() > 0
    &&& p.mpls_header@.len() % 4 == 0
    &&& p.inner_payload@.len() > 0
    &&& p.gso_size > 0
    &&& mpls_seg_count(p.inner_payload@.len(), p.gso_size as nat) <= MPLS_GSO_MAX_SEGMENTS
    &&& p.mac_header@.len() + p.mpls_header@.len() <= usize::MAX
}

/// Segment `k` of `p`: the MAC and MPLS headers followed by the `k`-th share
/// of the payload, with the offsets of each header part.
pub open spec fn mpls_segment_ok(p: MplsGsoPacket, k: nat, s: MplsGsoSegment) -> bool {
    let mac_len = p.mac_header@.len();
    let hlen = p.mpls_header@.len();
    let chunk = mpls_chunk(p.inner_payload@, p.gso_size as nat, k);
    &&& s.ethertype == p.ethertype
    &&& p.inner_protocol == Some(s.inner_protocol)
    &&& s.mac_len == mac_len
    &&& s.mpls_hlen == hlen
    &&& s.mac_header_offset == 0
    &&& s.network_header_offset == mac_len
    &&& s.inner_network_header_offset == mac_len + hlen
    &&& s.payload_offset == mac_len + hlen
    &&& s.payload_len == chunk.len()
    &&& s.gso_features == p.requested_features & p.device_mpls_features
    &&& s.frame@ == p.mac_header@ + p.mpls_header@ + chunk
}

/// Segments an MPLS frame: one segment per `gso_size` bytes of inner
/// payload (the last one shorter), each with the headers restored; EINVAL
/// for a non-MPLS frame, no inner protocol, an MPLS header span that is
/// empty or not a whole number of labels, an empty payload, a zero
/// segment size, or more than 128 segments.
pub fn mpls_gso_segment(packet: &MplsGsoPacket) -> (r: Result<Vec<MplsGsoSegment>, i32>)
    ensures
        !mpls_gso_packet_ok(*packet) ==> r == Err::<Vec<MplsGsoSegment>, i32>(EINVAL),
        mpls_gso_packet_ok(*packet) ==> (r matches Ok(segs)
            && segs@.len() == mpls_seg_count(packet.inner_payload@.len(), packet.gso_size as nat)
            && forall|k: int| 0 <= k < segs@.len() ==> #[trigger] mpls_segment_ok(*packet, k as nat, segs@[k])),
{
    if packet.ethertype != ETH_P_MPLS_UC && packet.ethertype != ETH_P_MPLS_MC {
        return Err(EINVAL);
    }
    let inner = match packet.inner_protocol {
        Some(p) => p,
        None => return Err(EINVAL),
    };
    let hlen = packet.mpls_header.len();
    if hlen == 0 || hlen % MPLS_HLEN != 0 {
        return Err(EINVAL);
    }
    let n = packet.inner_payload.len();
    let g = packet.gso_size;
    if n == 0 || g == 0 {
        return Err(EINVAL);
    }
    let count = (n - 1) / g + 1;
    if count > MPLS_GSO_MAX_SEGMENTS {
        return Err(EINVAL);
    }
    let mac_len = packet.mac_header.len();
    if mac_len > usize::MAX - hlen {
        return Err(EINVAL);
    }
    let payload_offset = mac_len + hlen;
    let features = packet.requested_features & packet.device_mpls_features;
    let mut segs: Vec<MplsGsoSegment> = Vec::new();
    let mut k: usize = 0;
    while k < count
        invariant
            mpls_gso_packet_ok(*packet),
            packet.inner_protocol == Some(inner),
            n == packet.inner_payload@.len(),
            g == packet.gso_size,
            hlen == packet.mpls_header@.len(),
            mac_len == packet.mac_header@.len(),
            payload_offset == mac_len + hlen,
            features == packet.requested_features & packet.device_mpls_features,
            count == mpls_seg_count(n as nat, g as nat),
            count <= 128,
            k <= count,
            segs@.len() == k,
            forall|j: int| 0 <= j < k ==> #[trigger] mpls_segment_ok(*packet, j as nat, segs@[j]),
        decreases count - k,
    {
        proof {
            lemma_chunk_start(n as nat, g as nat, k as nat);
        }
        let start = k * g;
        let end = if n - start > g { start + g } else { n };
        proof {
            assert((k + 1) * g == k * g + g) by (nonlinear_arith);
        }
        let chunk = copy_range(packet.inner_payload.as_slice(), start, end);
        assert(chunk@ == mpls_chunk(packet.inner_payload@, g as nat, k as nat));
        let mut frame: Vec<u8> = Vec::new();
        push_bytes(&mut frame, packet.mac_header.as_slice());
        push_bytes(&mut frame, packet.mpls_header.as_slice());
        push_bytes(&mut frame, chunk.as_slice());
        let seg = MplsGsoSegment {
            ethertype: packet.ethertype,
            inner_protocol: inner,
            mac_len,
            mpls_hlen: hlen,
            mac_header_offset: 0,
            network_header_offset: mac_len,
            inner_network_header_offset: payload_offset,
            payload_offset,
            payload_len: end - start,
            gso_features: features,
            frame,
        };
        assert(mpls_segment_ok(*packet, k as nat, seg));
        segs.push(seg);
        k += 1;
    }
    Ok(segs)
}

/// The packet buffers MPLS GSO segments; every other one gets EINVAL.
pub open spec fn mpls_gso_skb_ok(data: Seq<u8>, ctx: MplsGsoSkbContext) -> bool {
    &&& mpls_ethertype_ok(ctx.ethertype)
    &&& ctx.inner_protocol matches Some(p) && (p == ETH_P_IP || p == ETH_P_IPV6)
    &&& ctx.mpls_hlen > 0
    &&& ctx.mpls_hlen % 4 == 0
    &&& ctx.gso_size > 0
    &&& ctx.gso_size <= 65535
    &&& ctx.mac_len + ctx.mpls_hlen <= usize::MAX
    &&& data.len() > ctx.mac_len + ctx.mpls_hlen
    &&& mpls_seg_count((data.len() - (ctx.mac_len + ctx.mpls_hlen)) as nat, ctx.gso_size as nat) <= MPLS_GSO_MAX_SEGMENTS
}

/// Segments the frame in `skb` (MAC header of `mac_len` bytes, then
/// `mpls_hlen` bytes of labels, then the inner packet): each output buffer
/// holds the headers followed by the next `gso_size` payload bytes and
/// records the segment size and frame type. EINVAL for the invalid
/// contexts above; ENOMEM when a buffer cannot be allocated.
pub fn mpls_gso_segment_skb(skb: &SkBuff, ctx: MplsGsoSkbContext) -> (r: Result<Vec<SkBuff>, i32>)
    requires
        skb.wf(),
    ensures
        !mpls_gso_skb_ok(skb@, ctx) ==> r == Err::<Vec<SkBuff>, i32>(EINVAL),
        mpls_gso_skb_ok(skb@, ctx) ==> (r is Ok || r == Err::<Vec<SkBuff>, i32>(ENOMEM)),
        r matches Ok(segs) ==> {
            let po = ctx.mac_len + ctx.mpls_hlen;
            let payload = skb@.subrange(po as int, skb@.len() as int);
            &&& segs@.len() == mpls_seg_count(payload.len(), ctx.gso_size as nat)
            &&& forall|k: int| 0 <= k < segs@.len() ==> {
                &&& (#[trigger] segs@[k]).wf()
                &&& segs@[k]@ == skb@.subrange(0, po as int) + mpls_chunk(payload, ctx.gso_size as nat, k as nat)
                &&& segs@[k].shared_info.gso_size == ctx.gso_size
                &&& segs@[k].shared_info.gso_type == ctx.ethertype
            }
        },
{
    if ctx.ethertype != ETH_P_MPLS_UC && ctx.ethertype != ETH_P_MPLS_MC {
        return Err(EINVAL);
    }
    let inner = match ctx.inner_protocol {
        Some(p) => p,
        None => return Err(EINVAL),
    };
    if inner != ETH_P_IP && inner != ETH_P_IPV6 {
        return Err(EINVAL);
    }
    if ctx.mpls_hlen == 0 || ctx.mpls_hlen % MPLS_HLEN != 0 || ctx.gso_size == 0 || ctx.gso_size > 65535 {
        return Err(EINVAL);
    }
    let data = skb.data();
    if ctx.mac_len > usize::MAX - ctx.mpls_hlen {
        return Err(EINVAL);
    }
    let po = ctx.mac_len + ctx.mpls_hlen;
    if data.len() <= po {
        return Err(EINVAL);
    }
    let n = data.len() - po;
    let g = ctx.gso_size;
    let count = (n - 1) / g + 1;
    if count > MPLS_GSO_MAX_SEGMENTS {
        return Err(EINVAL);
    }
    let ghost payload = data@.subrange(po as int, data@.len() as int);
    let headers = copy_range(data, 0, po);
    let mut segs: Vec<SkBuff> = Vec::new();
    let mut k: usize = 0;
    while k < count
        invariant
            data@ == skb@,
            mpls_gso_skb_ok(skb@, ctx),
            po == ctx.mac_len + ctx.mpls_hlen,
            po + n == data@.len(),
            po + n <= usize::MAX,
            payload == data@.subrange(po as int, data@.len() as int),
            headers@ == data@.subrange(0, po as int),
            g == ctx.gso_size,
            0 < g <= 65535,
            count == mpls_seg_count(n as nat, g as nat),
            k <= count,
            segs@.len() == k,
            forall|j: int| 0 <= j < k ==> {
                &&& (#[trigger] segs@[j]).wf()
                &&& segs@[j]@ == data@.subrange(0, po as int) + mpls_chunk(payload, g as nat, j as nat)
                &&& segs@[j].shared_info.gso_size == g
                &&& segs@[j].shared_info.gso_type == ctx.ethertype
            },
        decreases count - k,
    {
        proof {
            lemma_chunk_start(n as nat, g as nat, k as nat);
            assert((k + 1) * g == k * g + g) by (nonlinear_arith);
        }
        let start = k * g;
        let end = if n - start > g { start + g } else { n };
        let chunk = copy_range(data, po + start, po + end);
        assert(chunk@ =~= mpls_chunk(payload, g as nat, k as nat));
        let mut frame: Vec<u8> = Vec::new();
        push_bytes(&mut frame, headers.as_slice());
        push_bytes(&mut frame, chunk.as_slice());
        let mut out = match skb_from_bytes(frame.as_slice()) {
            Ok(s) => s,
            Err(_) => return Err(ENOMEM),
        };
        out.shared_info.gso_size = g as u16;
        out.shared_info.gso_type = ctx.ethertype;
        segs.push(out);
        k += 1;
    }
    Ok(segs)
}

} // verus!
