//! Mobile IPv6: the destination-option and type-2 routing-header xfrm
//! handlers, and the raw mobility-header filter with its ICMPv6 Parameter
//! Problem reports.
use vstd::prelude::*;

use crate::bytes::{be16_bytes, be32_bytes};
use crate::errno::{EINVAL, ENOENT};
use crate::ip::{build_ipv6_packet, checksum, inet_checksum, ipv6_packet_bytes, parse_ipv6_packet, parse_ipv6_spec, push_bytes};
use crate::niche::{
    addr_eq, addr_is_any, addr_any, append_padn, low_u32, saturating_usize, sum_saturating, usize_to_u32, padn_bytes, AF_INET6, IPPROTO_DSTOPTS, IPPROTO_ICMPV6,
    IPPROTO_MH, IPPROTO_NONE, IPPROTO_ROUTING, IPV6_HEADER_LEN, IPV6_TLV_PADN,
};
use crate::skbuff::SkBuff;

verus! {

pub const ICMPV6_PARAMPROB: u8 = 4;
pub const ICMPV6_HDR_FIELD: u8 = 0;
pub const IPV6_TLV_HAO: u8 = 201;
pub const IPV6_SRCRT_TYPE_2: u8 = 2;
pub const MIP6_DESTOPT_HEADER_LEN: usize = 24;
pub const MIP6_RTHDR_HEADER_LEN: usize = 24;
pub const MIP6_MH_BASE_LEN: usize = 6;
pub const MIP6_MH_PROTO_OFFSET: usize = 0;
pub const MIP6_MH_HDRLEN_OFFSET: usize = 1;
pub const IP6_MH_TYPE_BRR: u8 = 0;
pub const IP6_MH_TYPE_HOTI: u8 = 1;
pub const IP6_MH_TYPE_COTI: u8 = 2;
pub const IP6_MH_TYPE_HOT: u8 = 3;
pub const IP6_MH_TYPE_COT: u8 = 4;
pub const IP6_MH_TYPE_BU: u8 = 5;
pub const IP6_MH_TYPE_BACK: u8 = 6;
pub const IP6_MH_TYPE_BERROR: u8 = 7;

/// An IPv6 packet before the Mobile IPv6 transform.
#[derive(Clone, Debug, PartialEq, Eq)]
pub struct Mip6Packet {
    pub next_header: u8,
    pub src: [u8; 16],
    pub dst: [u8; 16],
    pub payload: Vec<u8>,
}

/// What the xfrm output handler produced: the rewritten addresses and the
/// extension header placed in front of the payload.
#[derive(Clone, Debug, PartialEq, Eq)]
pub struct Mip6XfrmOutput {
    pub proto: u8,
    pub next_header: u8,
    pub src: [u8; 16],
    pub dst: [u8; 16],
    pub home_address: [u8; 16],
    pub extension_header: Vec<u8>,
    pub payload_offset: usize,
    pub frame: Vec<u8>,
}

/// The first three fields of a mobility header.
#[derive(Clone, Copy, Debug, PartialEq, Eq)]
pub struct Mip6MobilityHeader {
    pub payload_proto: u8,
    pub hdrlen: u8,
    pub mh_type: u8,
}

/// An ICMPv6 Parameter Problem report: type, code and the offending offset.
#[derive(Clone, Copy, Debug, PartialEq, Eq)]
pub struct Mip6Icmpv6ParameterProblem {
    pub icmp_type: u8,
    pub code: u8,
    pub pointer: usize,
}

/// Why the mobility-header filter dropped a packet.
#[derive(Clone, Copy, Debug, PartialEq, Eq)]
pub enum Mip6MhRejectReason {
    HeaderUnavailable,
    HeaderLengthExceedsPacket,
    MessageTooShort,
    InvalidPayloadProtocol,
}

/// A drop decision, with the Parameter Problem to report when there is one.
#[derive(Clone, Copy, Debug, PartialEq, Eq)]
pub struct Mip6MhFilterDrop {
    pub reason: Mip6MhRejectReason,
    pub parameter_problem: Option<Mip6Icmpv6ParameterProblem>,
}

/// The mobility-header filter's verdict.
#[derive(Clone, Copy, Debug, PartialEq, Eq)]
pub enum Mip6MhFilterOutcome {
    Accept,
    Drop(Mip6MhFilterDrop),
}

/// The xfrm output as a built IPv6 packet, with the transform's details.
pub struct Mip6XfrmSkbOutput {
    pub skb: SkBuff,
    pub xfrm: Mip6XfrmOutput,
}

/// A drop by the packet-level filter, with the ICMPv6 error packet to send.
pub struct Mip6MhSkbDrop {
    pub drop: Mip6MhFilterDrop,
    pub icmpv6: Option<SkBuff>,
}

/// The packet-level filter's verdict.
pub enum Mip6MhSkbFilterOutcome {
    Accept,
    Drop(Mip6MhSkbDrop),
}

/// The family/protocol pairs Mobile IPv6 registers xfrm types for.
pub open spec fn mip6_xfrm_type_valid(family: u16, proto: u8) -> bool {
    family == AF_INET6 && (proto == IPPROTO_DSTOPTS || proto == IPPROTO_ROUTING)
}

/// EINVAL unless `proto` is one of the two registered AF_INET6 xfrm types.
pub fn validate_mip6_xfrm_type(family: u16, proto: u8) -> (r: Result<(), i32>)
    ensures
        r == (if mip6_xfrm_type_valid(family, proto) { Ok::<(), i32>(()) } else { Err(EINVAL) }),
{
    if family != AF_INET6 {
        return Err(EINVAL);
    }
    if proto == IPPROTO_DSTOPTS || proto == IPPROTO_ROUTING {
        Ok(())
    } else {
        Err(EINVAL)
    }
}

/// Destination options header carrying the Home Address option (PadN 4 first).
pub open spec fn mip6_destopt_header(next_header: u8, home: Seq<u8>) -> Seq<u8> {
    seq![next_header, 2u8] + padn_bytes(4) + seq![IPV6_TLV_HAO, 16u8] + home
}

/// Type-2 routing header carrying the home address.
pub open spec fn mip6_rthdr_header(next_header: u8, home: Seq<u8>) -> Seq<u8> {
    seq![next_header, 2u8, IPV6_SRCRT_TYPE_2, 1u8, 0u8, 0u8, 0u8, 0u8] + home
}

/// What the xfrm output handler produces for `packet` and care-of address
/// `coa` under transform `proto`.
pub open spec fn mip6_xfrm_output_fields(packet: Mip6Packet, proto: u8, coa: [u8; 16], o: Mip6XfrmOutput) -> bool {
    &&& o.proto == proto
    &&& o.next_header == packet.next_header
    &&& o.payload_offset == 24
    &&& o.frame@ == o.extension_header@ + packet.payload@
    &&& proto == IPPROTO_DSTOPTS ==> {
        &&& o.src@ == coa@
        &&& o.dst@ == packet.dst@
        &&& o.home_address@ == packet.src@
        &&& o.extension_header@ == mip6_destopt_header(packet.next_header, packet.src@)
    }
    &&& proto == IPPROTO_ROUTING ==> {
        &&& o.src@ == packet.src@
        &&& o.dst@ == coa@
        &&& o.home_address@ == packet.dst@
        &&& o.extension_header@ == mip6_rthdr_header(packet.next_header, packet.dst@)
    }
}

fn copy_addr(a: &[u8; 16]) -> (r: [u8; 16])
    ensures
        r@ == a@,
{
    let mut r = [0u8; 16];
    let mut i: usize = 0;
    while i < 16
        invariant
            i <= 16,
            a@.len() == 16,
            r@.len() == 16,
            forall|j: int| 0 <= j < i ==> r@[j] == a@[j],
        decreases 16 - i,
    {
        r.set(i, a[i]);
        i += 1;
    }
    assert(r@ =~= a@);
    r
}

/// The Mobile IPv6 xfrm output handler: with destination options the source
/// becomes the care-of address and the home address moves into a Home
/// Address option; with the type-2 routing header the destination becomes
/// the care-of address and the home address moves into the routing header.
pub fn mip6_xfrm_output(family: u16, proto: u8, packet: &Mip6Packet, care_of_addr: [u8; 16]) -> (r: Result<Mip6XfrmOutput, i32>)
    ensures
        !mip6_xfrm_type_valid(family, proto) || packet.payload@.len() == 0 ==> r == Err::<Mip6XfrmOutput, i32>(EINVAL),
        mip6_xfrm_type_valid(family, proto) && packet.payload@.len() > 0 ==> (r matches Ok(o)
            && mip6_xfrm_output_fields(*packet, proto, care_of_addr, o)),
{
    match validate_mip6_xfrm_type(family, proto) {
        Ok(()) => {},
        Err(e) => return Err(e),
    }
    if packet.payload.len() == 0 {
        return Err(EINVAL);
    }
    let mut ext: Vec<u8> = Vec::new();
    let src;
    let dst;
    let home;
    if proto == IPPROTO_DSTOPTS {
        ext.push(packet.next_header);
        ext.push(2);
        append_padn(&mut ext, 4);
        ext.push(IPV6_TLV_HAO);
        ext.push(16);
        push_bytes(&mut ext, &packet.src);
        assert(ext@ =~= mip6_destopt_header(packet.next_header, packet.src@));
        src = care_of_addr;
        dst = copy_addr(&packet.dst);
        home = copy_addr(&packet.src);
    } else {
        ext.push(packet.next_header);
        ext.push(2);
        ext.push(IPV6_SRCRT_TYPE_2);
        ext.push(1);
        ext.push(0);
        ext.push(0);
        ext.push(0);
        ext.push(0);
        push_bytes(&mut ext, &packet.dst);
        assert(ext@ =~= mip6_rthdr_header(packet.next_header, packet.dst@));
        src = copy_addr(&packet.src);
        dst = care_of_addr;
        home = copy_addr(&packet.dst);
    }
    let mut frame: Vec<u8> = Vec::new();
    push_bytes(&mut frame, ext.as_slice());
    push_bytes(&mut frame, packet.payload.as_slice());
    assert(frame@ =~= ext@ + packet.payload@);
    Ok(Mip6XfrmOutput {
        proto,
        next_header: packet.next_header,
        src,
        dst,
        home_address: home,
        extension_header: ext,
        payload_offset: 24,
        frame,
    })
}

/// The Mobile IPv6 packet carried in `skb`; `None` when it holds no IPv6 packet.
pub open spec fn mip6_packet_of(b: Seq<u8>, p: Mip6Packet) -> bool {
    match parse_ipv6_spec(b) {
        None => false,
        Some(f) => p.src@ == f.0 && p.dst@ == f.1 && p.next_header == f.2 && p.payload@ == f.4,
    }
}

/// The xfrm output applied to the IPv6 packet in `skb`, rebuilt as a packet
/// whose next header is the transform's protocol and hop limit 64.
pub fn mip6_xfrm_output_skb(family: u16, proto: u8, skb: &SkBuff, care_of_addr: [u8; 16]) -> (r: Result<Mip6XfrmSkbOutput, i32>)
    requires
        skb.wf(),
    ensures
        parse_ipv6_spec(skb@) is None ==> r == Err::<Mip6XfrmSkbOutput, i32>(EINVAL),
        parse_ipv6_spec(skb@) matches Some(f) ==> {
            &&& !mip6_xfrm_type_valid(family, proto) || f.4.len() == 0 || f.4.len() + 24 > 65535
                ==> (r matches Err(e) && e == EINVAL)
            &&& r matches Ok(o) ==> {
                &&& mip6_xfrm_type_valid(family, proto)
                &&& exists|p: Mip6Packet| mip6_packet_of(skb@, p) && #[trigger] mip6_xfrm_output_fields(p, proto, care_of_addr, o.xfrm)
                &&& o.skb.wf()
                &&& o.skb@ == ipv6_packet_bytes(o.xfrm.src@, o.xfrm.dst@, proto, o.xfrm.frame@, 64)
            }
            &&& mip6_xfrm_type_valid(family, proto) && f.4.len() > 0 && f.4.len() + 24 <= 65535
                ==> (r is Ok || r == Err::<Mip6XfrmSkbOutput, i32>(crate::errno::ENOMEM))
        },
{
    let ipv6 = match parse_ipv6_packet(skb) {
        Ok(p) => p,
        Err(_) => return Err(EINVAL),
    };
    let packet = Mip6Packet {
        next_header: ipv6.next_header,
        src: ipv6.src,
        dst: ipv6.dst,
        payload: ipv6.payload,
    };
    assert(mip6_packet_of(skb@, packet));
    let xfrm = match mip6_xfrm_output(family, proto, &packet, care_of_addr) {
        Ok(x) => x,
        Err(e) => return Err(e),
    };
    let out = match build_ipv6_packet(xfrm.src, xfrm.dst, proto, xfrm.frame.as_slice(), 64) {
        Ok(s) => s,
        Err(e) => return Err(e),
    };
    Ok(Mip6XfrmSkbOutput { skb: out, xfrm })
}

/// The xfrm input check: the packet is accepted, returning its next header,
/// unless a non-zero care-of address is given and the rewritten address
/// (source for destination options, destination for the routing header)
/// is not it.
pub open spec fn mip6_xfrm_input_spec(family: u16, o: Mip6XfrmOutput, coa: [u8; 16]) -> Result<u8, i32> {
    if !mip6_xfrm_type_valid(family, o.proto) {
        Err(EINVAL)
    } else if o.proto == IPPROTO_DSTOPTS && coa@ != addr_any() && o.src@ != coa@ {
        Err(ENOENT)
    } else if o.proto == IPPROTO_ROUTING && coa@ != addr_any() && o.dst@ != coa@ {
        Err(ENOENT)
    } else {
        Ok(o.next_header)
    }
}

/// Accepts a transformed packet back; see `mip6_xfrm_input_spec`.
pub fn mip6_xfrm_input(family: u16, output: &Mip6XfrmOutput, care_of_addr: [u8; 16]) -> (r: Result<u8, i32>)
    ensures
        r == mip6_xfrm_input_spec(family, *output, care_of_addr),
{
    match validate_mip6_xfrm_type(family, output.proto) {
        Ok(()) => {},
        Err(e) => return Err(e),
    }
    let any = addr_is_any(&care_of_addr);
    if output.proto == IPPROTO_DSTOPTS {
        if !any && !addr_eq(&output.src, &care_of_addr) {
            return Err(ENOENT);
        }
    } else {
        if !any && !addr_eq(&output.dst, &care_of_addr) {
            return Err(ENOENT);
        }
    }
    Ok(output.next_header)
}

/// What one xfrm output handler writes, the matching input handler accepts
/// with the same care-of address, giving back the original next header.
pub proof fn lemma_mip6_xfrm_output_input(family: u16, proto: u8, packet: Mip6Packet, coa: [u8; 16], o: Mip6XfrmOutput)
    requires
        mip6_xfrm_type_valid(family, proto),
        mip6_xfrm_output_fields(packet, proto, coa, o),
    ensures
        mip6_xfrm_input_spec(family, o, coa) == Ok::<u8, i32>(packet.next_header),
{
}

/// The smallest `hdrlen` each mobility-header type allows.
pub open spec fn mip6_mh_min_hdrlen(mh_type: u8) -> u8 {
    if mh_type == IP6_MH_TYPE_HOTI || mh_type == IP6_MH_TYPE_COTI || mh_type == IP6_MH_TYPE_BU
        || mh_type == IP6_MH_TYPE_BACK {
        1
    } else if mh_type == IP6_MH_TYPE_HOT || mh_type == IP6_MH_TYPE_COT || mh_type == IP6_MH_TYPE_BERROR {
        2
    } else {
        0
    }
}

fn mh_min_hdrlen(mh_type: u8) -> (r: u8)
    ensures
        r == mip6_mh_min_hdrlen(mh_type),
{
    if mh_type == IP6_MH_TYPE_HOTI || mh_type == IP6_MH_TYPE_COTI || mh_type == IP6_MH_TYPE_BU
        || mh_type == IP6_MH_TYPE_BACK {
        1
    } else if mh_type == IP6_MH_TYPE_HOT || mh_type == IP6_MH_TYPE_COT || mh_type == IP6_MH_TYPE_BERROR {
        2
    } else {
        0
    }
}

/// A Parameter Problem pointing at `field_offset` past the network header
/// (the sum saturates at `usize::MAX`).
pub open spec fn mip6_param_problem(network_header_len: usize, field_offset: usize) -> Mip6Icmpv6ParameterProblem {
    Mip6Icmpv6ParameterProblem {
        icmp_type: ICMPV6_PARAMPROB,
        code: ICMPV6_HDR_FIELD,
        pointer: sum_saturating(network_header_len, field_offset),
    }
}

fn param_problem(network_header_len: usize, field_offset: usize) -> (r: Mip6Icmpv6ParameterProblem)
    ensures
        r == mip6_param_problem(network_header_len, field_offset),
{
    Mip6Icmpv6ParameterProblem {
        icmp_type: ICMPV6_PARAMPROB,
        code: ICMPV6_HDR_FIELD,
        pointer: network_header_len.saturating_add(field_offset),
    }
}

/// The mobility-header decision. Packets shorter than the base header, or
/// whose length field reaches past the packet, are dropped unreported; a
/// header shorter than its type needs is reported at the length field; a
/// payload protocol other than IPPROTO_NONE is reported at the protocol
/// field; everything else is accepted.
pub open spec fn mip6_mh_filter_report_spec(header: Mip6MobilityHeader, packet_len: usize, network_header_len: usize) -> Mip6MhFilterOutcome {
    if packet_len < MIP6_MH_BASE_LEN {
        Mip6MhFilterOutcome::Drop(Mip6MhFilterDrop { reason: Mip6MhRejectReason::HeaderUnavailable, parameter_problem: None })
    } else if (header.hdrlen + 1) * 8 > packet_len {
        Mip6MhFilterOutcome::Drop(Mip6MhFilterDrop { reason: Mip6MhRejectReason::HeaderLengthExceedsPacket, parameter_problem: None })
    } else if header.hdrlen < mip6_mh_min_hdrlen(header.mh_type) {
        Mip6MhFilterOutcome::Drop(Mip6MhFilterDrop {
            reason: Mip6MhRejectReason::MessageTooShort,
            parameter_problem: Some(mip6_param_problem(network_header_len, MIP6_MH_HDRLEN_OFFSET)),
        })
    } else if header.payload_proto != IPPROTO_NONE {
        Mip6MhFilterOutcome::Drop(Mip6MhFilterDrop {
            reason: Mip6MhRejectReason::InvalidPayloadProtocol,
            parameter_problem: Some(mip6_param_problem(network_header_len, MIP6_MH_PROTO_OFFSET)),
        })
    } else {
        Mip6MhFilterOutcome::Accept
    }
}

/// The raw mobility-header filter with its report; see `mip6_mh_filter_report_spec`.
pub fn mip6_mh_filter_report(header: Mip6MobilityHeader, packet_len: usize, network_header_len: usize) -> (r: Mip6MhFilterOutcome)
    ensures
        r == mip6_mh_filter_report_spec(header, packet_len, network_header_len),
{
    if packet_len < MIP6_MH_BASE_LEN {
        return Mip6MhFilterOutcome::Drop(Mip6MhFilterDrop {
            reason: Mip6MhRejectReason::HeaderUnavailable,
            parameter_problem: None,
        });
    }
    let header_len = (header.hdrlen as usize + 1) * 8;
    if header_len > packet_len {
        return Mip6MhFilterOutcome::Drop(Mip6MhFilterDrop {
            reason: Mip6MhRejectReason::HeaderLengthExceedsPacket,
            parameter_problem: None,
        });
    }
    if header.hdrlen < mh_min_hdrlen(header.mh_type) {
        return Mip6MhFilterOutcome::Drop(Mip6MhFilterDrop {
            reason: Mip6MhRejectReason::MessageTooShort,
            parameter_problem: Some(param_problem(network_header_len, MIP6_MH_HDRLEN_OFFSET)),
        });
    }
    if header.payload_proto != IPPROTO_NONE {
        return Mip6MhFilterOutcome::Drop(Mip6MhFilterDrop {
            reason: Mip6MhRejectReason::InvalidPayloadProtocol,
            parameter_problem: Some(param_problem(network_header_len, MIP6_MH_PROTO_OFFSET)),
        });
    }
    Mip6MhFilterOutcome::Accept
}

/// The filter as the raw socket runs it: EINVAL for every drop.
pub fn mip6_mh_filter(header: Mip6MobilityHeader, packet_len: usize) -> (r: Result<(), i32>)
    ensures
        r == (if mip6_mh_filter_report_spec(header, packet_len, IPV6_HEADER_LEN) is Accept {
            Ok::<(), i32>(())
        } else {
            Err(EINVAL)
        }),
{
    match mip6_mh_filter_report(header, packet_len, IPV6_HEADER_LEN) {
        Mip6MhFilterOutcome::Accept => Ok(()),
        Mip6MhFilterOutcome::Drop(_) => Err(EINVAL),
    }
}

/// The protocol the raw IPv6 socket filter hook is installed for.
pub fn rawv6_mh_filter_protocol() -> (r: u8)
    ensures
        r == IPPROTO_MH,
{
    IPPROTO_MH
}

/// The IPv6 pseudo-header followed by the upper-layer `payload`.
pub open spec fn ipv6_pseudo(src: Seq<u8>, dst: Seq<u8>, next_header: u8, payload: Seq<u8>) -> Seq<u8> {
    src + dst + be32_bytes(payload.len() as u32) + seq![0u8, 0u8, 0u8, next_header] + payload
}

/// The upper-layer checksum of `payload` between `src` and `dst`.
pub(crate) fn ipv6_upper_layer_checksum(src: &[u8; 16], dst: &[u8; 16], next_header: u8, payload: &[u8]) -> (r: Result<u16, i32>)
    ensures
        payload@.len() > u32::MAX ==> r == Err::<u16, i32>(EINVAL),
        payload@.len() <= u32::MAX ==> r == Ok::<u16, i32>(inet_checksum(ipv6_pseudo(src@, dst@, next_header, payload@))),
{
    if payload.len() > 0xffff_ffff {
        return Err(EINVAL);
    }
    let mut pseudo: Vec<u8> = Vec::new();
    push_bytes(&mut pseudo, src);
    push_bytes(&mut pseudo, dst);
    let l = crate::bytes::u32_to_be_bytes(payload.len() as u32);
    push_bytes(&mut pseudo, &l);
    pseudo.push(0);
    pseudo.push(0);
    pseudo.push(0);
    pseudo.push(next_header);
    push_bytes(&mut pseudo, payload);
    assert(pseudo@ =~= ipv6_pseudo(src@, dst@, next_header, payload@));
    Ok(checksum(pseudo.as_slice()))
}

/// The ICMPv6 Parameter Problem message body before its checksum is set.
pub open spec fn param_problem_body(pointer: u32, invoking: Seq<u8>, csum: u16) -> Seq<u8> {
    seq![ICMPV6_PARAMPROB, ICMPV6_HDR_FIELD] + be16_bytes(csum) + be32_bytes(pointer) + invoking
}

/// The checksum a Parameter Problem sent from `src` to `dst` carries.
pub open spec fn param_problem_csum(src: Seq<u8>, dst: Seq<u8>, pointer: u32, invoking: Seq<u8>) -> u16 {
    inet_checksum(ipv6_pseudo(src, dst, IPPROTO_ICMPV6, param_problem_body(pointer, invoking, 0)))
}

/// An ICMPv6 Parameter Problem (header field) answering the packet sent
/// from `src` to `dst`: it goes back from `dst` to `src` with hop limit 64
/// and quotes `invoking_packet`.
pub fn build_icmpv6_parameter_problem_skb(src: [u8; 16], dst: [u8; 16], pointer: usize, invoking_packet: &[u8]) -> (r: Result<SkBuff, i32>)
    ensures
        pointer > u32::MAX || invoking_packet@.len() + 8 > 65535 ==> r == Err::<SkBuff, i32>(EINVAL),
        r matches Ok(skb) ==> skb.wf() && pointer <= u32::MAX && skb@ == ipv6_packet_bytes(
            dst@,
            src@,
            IPPROTO_ICMPV6,
            param_problem_body(
                low_u32(pointer),
                invoking_packet@,
                param_problem_csum(dst@, src@, low_u32(pointer), invoking_packet@),
            ),
            64,
        ),
        r matches Ok(skb) ==> icmpv6_checksum_valid_spec(skb@),
        pointer <= u32::MAX && invoking_packet@.len() + 8 <= 65535 ==> r is Ok || r == Err::<SkBuff, i32>(
            crate::errno::ENOMEM,
        ),
{
    if pointer > 0xffff_ffff {
        return Err(EINVAL);
    }
    if invoking_packet.len() > 65535 - 8 {
        return Err(EINVAL);
    }
    let p = usize_to_u32(pointer);
    let mut payload: Vec<u8> = Vec::new();
    payload.push(ICMPV6_PARAMPROB);
    payload.push(ICMPV6_HDR_FIELD);
    payload.push(0);
    payload.push(0);
    let pb = crate::bytes::u32_to_be_bytes(p);
    push_bytes(&mut payload, &pb);
    push_bytes(&mut payload, invoking_packet);
    assert(payload@ =~= param_problem_body(p, invoking_packet@, 0));
    let csum = match ipv6_upper_layer_checksum(&dst, &src, IPPROTO_ICMPV6, payload.as_slice()) {
        Ok(c) => c,
        Err(e) => return Err(e),
    };
    let cb = crate::bytes::u16_to_be_bytes(csum);
    payload.set(2, cb[0]);
    payload.set(3, cb[1]);
    assert(payload@ =~= param_problem_body(p, invoking_packet@, csum));
    proof {
        lemma_parameter_problem_checksum_verifies(dst@, src@, p, invoking_packet@);
    }
    build_ipv6_packet(dst, src, IPPROTO_ICMPV6, payload.as_slice(), 64)
}

/// Whether `skb` is an ICMPv6 packet whose checksum verifies.
pub open spec fn icmpv6_checksum_valid_spec(b: Seq<u8>) -> bool {
    match parse_ipv6_spec(b) {
        None => false,
        Some(f) => f.2 == IPPROTO_ICMPV6 && f.4.len() <= u32::MAX
            && inet_checksum(ipv6_pseudo(f.0, f.1, IPPROTO_ICMPV6, f.4)) == 0,
    }
}

/// A Parameter Problem from `src` to `dst` carries a checksum that
/// verifies: the packet passes `icmpv6_checksum_valid`.
pub proof fn lemma_parameter_problem_checksum_verifies(src: Seq<u8>, dst: Seq<u8>, pointer: u32, invoking: Seq<u8>)
    requires
        src.len() == 16,
        dst.len() == 16,
        invoking.len() + 8 <= 65535,
    ensures
        icmpv6_checksum_valid_spec(
            ipv6_packet_bytes(
                src,
                dst,
                IPPROTO_ICMPV6,
                param_problem_body(pointer, invoking, param_problem_csum(src, dst, pointer, invoking)),
                64,
            ),
        ),
{
    let c = param_problem_csum(src, dst, pointer, invoking);
    let body = param_problem_body(pointer, invoking, c);
    let zero = ipv6_pseudo(src, dst, IPPROTO_ICMPV6, param_problem_body(pointer, invoking, 0));
    let filled = ipv6_pseudo(src, dst, IPPROTO_ICMPV6, body);
    assert(filled =~= zero.subrange(0, 42) + be16_bytes(c) + zero.skip(44));
    crate::ip::lemma_checksum_field_verifies(zero, 21);
    crate::ip::lemma_ipv6_roundtrip(src, dst, IPPROTO_ICMPV6, body, 64);
}

/// Whether `skb` holds an ICMPv6 packet with a valid checksum.
pub fn icmpv6_checksum_valid(skb: &SkBuff) -> (r: bool)
    requires
        skb.wf(),
    ensures
        r == icmpv6_checksum_valid_spec(skb@),
{
    let ipv6 = match parse_ipv6_packet(skb) {
        Ok(p) => p,
        Err(_) => return false,
    };
    if ipv6.next_header != IPPROTO_ICMPV6 {
        return false;
    }
    match ipv6_upper_layer_checksum(&ipv6.src, &ipv6.dst, IPPROTO_ICMPV6, ipv6.payload.as_slice()) {
        Ok(c) => c == 0,
        Err(_) => false,
    }
}

/// The mobility header at the front of `payload`.
pub open spec fn mh_header_of(payload: Seq<u8>) -> Mip6MobilityHeader {
    Mip6MobilityHeader { payload_proto: payload[0], hdrlen: payload[1], mh_type: payload[2] }
}

/// The packet-level filter: packets that are not mobility headers or too
/// short are dropped unreported; otherwise the header is filtered and each
/// reported drop carries the ICMPv6 Parameter Problem answering `skb`.
pub fn mip6_mh_filter_skb(skb: &SkBuff) -> (r: Result<Mip6MhSkbFilterOutcome, i32>)
    requires
        skb.wf(),
    ensures
        parse_ipv6_spec(skb@) is None ==> (r matches Err(e) && e == EINVAL),
        parse_ipv6_spec(skb@) matches Some(f) ==> {
            let report = mip6_mh_filter_report_spec(mh_header_of(f.4), saturating_usize(f.4.len()), IPV6_HEADER_LEN);
            if f.2 != IPPROTO_MH || f.4.len() < MIP6_MH_BASE_LEN {
                r matches Ok(Mip6MhSkbFilterOutcome::Drop(d)) && d.drop == (Mip6MhFilterDrop {
                    reason: Mip6MhRejectReason::HeaderUnavailable,
                    parameter_problem: None,
                }) && d.icmpv6 is None
            } else {
                match report {
                    Mip6MhFilterOutcome::Accept => r matches Ok(Mip6MhSkbFilterOutcome::Accept),
                    Mip6MhFilterOutcome::Drop(drop) => match drop.parameter_problem {
                        None => r matches Ok(Mip6MhSkbFilterOutcome::Drop(d)) && d.drop == drop && d.icmpv6 is None,
                        Some(pp) => {
                            &&& skb@.len() + 8 > 65535 ==> (r matches Err(e) && e == EINVAL)
                            &&& r matches Ok(out) ==> (out matches Mip6MhSkbFilterOutcome::Drop(d) && d.drop == drop
                                && (d.icmpv6 matches Some(icmp) && icmp.wf() && icmp@ == ipv6_packet_bytes(
                                    f.1,
                                    f.0,
                                    IPPROTO_ICMPV6,
                                    param_problem_body(
                                        low_u32(pp.pointer),
                                        skb@,
                                        param_problem_csum(f.1, f.0, low_u32(pp.pointer), skb@),
                                    ),
                                    64,
                                ) && icmpv6_checksum_valid_spec(icmp@)))
                            &&& skb@.len() + 8 <= 65535 ==> (r is Ok || r == Err::<Mip6MhSkbFilterOutcome, i32>(
                                crate::errno::ENOMEM,
                            ))
                        },
                    },
                }
            }
        },
{
    let ipv6 = match parse_ipv6_packet(skb) {
        Ok(p) => p,
        Err(_) => return Err(EINVAL),
    };
    if ipv6.next_header != IPPROTO_MH || ipv6.payload.len() < MIP6_MH_BASE_LEN {
        let drop = Mip6MhFilterDrop { reason: Mip6MhRejectReason::HeaderUnavailable, parameter_problem: None };
        return Ok(Mip6MhSkbFilterOutcome::Drop(Mip6MhSkbDrop { drop, icmpv6: None }));
    }
    let header = Mip6MobilityHeader {
        payload_proto: ipv6.payload[0],
        hdrlen: ipv6.payload[1],
        mh_type: ipv6.payload[2],
    };
    assert(header == mh_header_of(ipv6.payload@));
    match mip6_mh_filter_report(header, ipv6.payload.len(), IPV6_HEADER_LEN) {
        Mip6MhFilterOutcome::Accept => Ok(Mip6MhSkbFilterOutcome::Accept),
        Mip6MhFilterOutcome::Drop(drop) => {
            match drop.parameter_problem {
                None => Ok(Mip6MhSkbFilterOutcome::Drop(Mip6MhSkbDrop { drop, icmpv6: None })),
                Some(problem) => {
                    let icmp = match build_icmpv6_parameter_problem_skb(ipv6.src, ipv6.dst, problem.pointer, skb.data()) {
                        Ok(s) => s,
                        Err(e) => return Err(e),
                    };
                    Ok(Mip6MhSkbFilterOutcome::Drop(Mip6MhSkbDrop { drop, icmpv6: Some(icmp) }))
                },
            }
        },
    }
}

} // verus!
