//! The bring-up acceptance run: each niche packet path is driven once over
//! a fixed packet through packet buffers, and what the run expects of the
//! results is proved here rather than checked at run time.
use vstd::prelude::*;

use crate::errno::{EINVAL, ENOMEM};
use crate::ip::{build_ipv6_packet, lemma_ipv6_roundtrip, parse_ipv6_packet};
use crate::niche::ioam6::{
    ioam6_add_namespace, ioam6_clear_state, ioam6_set_event_listener_present, new_namespace, ns_get, ns_has,
    Ioam6State,
};
use crate::niche::ioam6_tunnel::{
    ioam6_build_lwtunnel_state, ioam6_hopopt, linked_schema, ioam6_lwtunnel_output_skb, ioam6_output_fits, ioam6_trace_data,
    Ioam6LwtunnelConfig, Ioam6TraceHeader, IOAM6_TRACE_FORBIDDEN_LWT_BITS,
};
use crate::niche::mip6::{
    icmpv6_checksum_valid, mip6_mh_filter_skb, mip6_packet_of, mip6_xfrm_output_fields, mip6_xfrm_output_skb,
    Mip6MhSkbFilterOutcome, Mip6Packet, IP6_MH_TYPE_BU,
};
use crate::niche::mpls::{mpls_gso_segment_skb, mpls_seg_count, MplsGsoSkbContext};
use crate::niche::{AF_INET6, ETH_P_IP, ETH_P_MPLS_UC, IPPROTO_DSTOPTS, IPPROTO_HOPOPTS, IPPROTO_MH, LWTUNNEL_ENCAP_IOAM6};
use crate::skbuff::{alloc_skb, copy_into, skb_put};

verus! {

/// The frame the MPLS run segments: a six-byte MAC header ("macmac" in
/// ASCII), two
/// labels, and sixteen payload bytes.
pub open spec fn acceptance_mpls_frame() -> Seq<u8> {
    seq![
        109u8, 97u8, 99u8, 109u8, 97u8, 99u8, 0u8, 0u8, 1u8, 0xffu8, 0u8, 0u8, 2u8, 0xffu8, 0u8, 1u8,
        2u8, 3u8, 4u8, 5u8, 6u8, 7u8, 8u8, 9u8, 10u8, 11u8, 12u8, 13u8, 14u8, 15u8,
    ]
}

/// MPLS GSO splits the frame's sixteen payload bytes into four segments,
/// each carrying the frame's headers; only an allocation can fail.
fn acceptance_mpls() -> (r: Result<(), i32>)
    ensures
        r is Ok || r == Err::<(), i32>(ENOMEM),
{
    let mut mpls = match alloc_skb(30) {
        Ok(s) => s,
        Err(e) => return Err(e),
    };
    let frame: [u8; 30] = [
        109, 97, 99, 109, 97, 99, 0, 0, 1, 0xff, 0, 0, 2, 0xff, 0, 1, 2, 3, 4, 5, 6, 7, 8, 9, 10, 11, 12, 13, 14, 15,
    ];
    assert(frame@ =~= acceptance_mpls_frame());
    let area = match skb_put(&mut mpls, 30) {
        Ok(a) => a,
        Err(_) => return Err(EINVAL),
    };
    copy_into(area, &frame);
    assert(mpls@ =~= acceptance_mpls_frame());
    let ctx = MplsGsoSkbContext {
        ethertype: ETH_P_MPLS_UC,
        inner_protocol: Some(ETH_P_IP),
        mac_len: 6,
        mpls_hlen: 8,
        gso_size: 4,
        requested_features: 0b1110,
        device_mpls_features: 0b1010,
    };
    assert(mpls_seg_count(16, 4) == 4);
    let segments = match mpls_gso_segment_skb(&mpls, ctx) {
        Ok(s) => s,
        Err(e) => return Err(e),
    };
    assert(segments@.len() == 4);
    assert forall|k: int| 0 <= k < segments@.len() implies (#[trigger] segments@[k])@.subrange(0, 6)
        == acceptance_mpls_frame().subrange(0, 6) by {
        assert(segments@[k]@.subrange(0, 6) =~= mpls@.subrange(0, 14).subrange(0, 6));
    }
    Ok(())
}

/// The IOAM tables are reset to namespace 7 alone with a listener
/// subscribed, and a trace is inserted into a small UDP packet: the packet
/// gets a Hop-by-Hop header in front of the old next header, and the one
/// event of namespace 7 is recorded. Only an allocation can fail.
fn acceptance_ioam(state: &mut Ioam6State) -> (r: Result<(), i32>)
    requires
        old(state).wf(),
    ensures
        final(state).wf(),
        r is Ok || r == Err::<(), i32>(ENOMEM),
        r is Ok ==> final(state).event_listener_present && final(state).namespaces@ == seq![
            new_namespace(7, Some(0x11223344), None),
        ] && final(state).schemas@.len() == 0 && final(state).events@.len() == 1,
{
    ioam6_clear_state(state);
    ioam6_set_event_listener_present(state, true);
    match ioam6_add_namespace(state, 7, Some(0x11223344), None) {
        Ok(()) => {},
        Err(_) => return Err(EINVAL),
    }
    let ghost ns7 = new_namespace(7, Some(0x11223344), None);
    assert(state.namespaces@ =~= seq![ns7]);
    let trace = Ioam6TraceHeader { namespace_id: 7, nodelen: 0, remlen: 2, type_be32: 0x8000_0000 };
    assert(0x8000_0000u32 & IOAM6_TRACE_FORBIDDEN_LWT_BITS == 0) by (bit_vector);
    let config = Ioam6LwtunnelConfig {
        freq_k: None,
        freq_n: None,
        mode: None,
        tunsrc: None,
        tundst: None,
        trace: Some(trace),
    };
    let lw = match ioam6_build_lwtunnel_state(AF_INET6, config) {
        Ok(s) => s,
        Err(_) => return Err(EINVAL),
    };
    let src: [u8; 16] = [1; 16];
    let dst: [u8; 16] = [2; 16];
    let payload: [u8; 7] = [112, 97, 121, 108, 111, 97, 100];
    let ipv6 = match build_ipv6_packet(src, dst, 17, &payload, 64) {
        Ok(s) => s,
        Err(e) => return Err(e),
    };
    proof {
        lemma_ipv6_roundtrip(src@, dst@, 17, payload@, 64);
        assert(state.namespaces@[0].id == 7);
        assert(ns_has(state.namespaces@, 7));
        assert(ns_get(state.namespaces@, 7) == ns7);
        let td = ioam6_trace_data(ns7, linked_schema(state.schemas@, ns7));
        assert(td.len() == 6);
        assert(lw.trace_padding@.len() == 0);
        assert(ioam6_hopopt(17, lw, td).len() == 24);
        assert(ioam6_output_fits(*state, 7, lw, 17, payload@));
    }
    let ghost st0 = *state;
    let ioam = match ioam6_lwtunnel_output_skb(state, AF_INET6, LWTUNNEL_ENCAP_IOAM6, &lw, 7, &ipv6) {
        Ok(o) => o,
        Err(e) => return Err(e),
    };
    let ioam_ipv6 = match parse_ipv6_packet(&ioam.skb) {
        Ok(p) => p,
        Err(_) => return Err(EINVAL),
    };
    assert(ioam_ipv6.next_header == IPPROTO_HOPOPTS);
    assert(ioam.old_next_header == 17);
    assert(ioam.event.namespace_id == 7);
    assert(state.events@ =~= seq![ioam.event]);
    Ok(())
}

/// The destination-option transform of a mobility-header packet adds a
/// destination-options header carrying the home address; the filter drops
/// a mobility header with the wrong payload protocol and answers with a
/// Parameter Problem whose checksum verifies. Only an allocation can fail.
fn acceptance_mip6() -> (r: Result<(), i32>)
    ensures
        r is Ok || r == Err::<(), i32>(ENOMEM),
{
    let home: [u8; 16] = [0x11; 16];
    let peer: [u8; 16] = [0x22; 16];
    let mh_payload: [u8; 10] = [109, 104, 45, 112, 97, 121, 108, 111, 97, 100];
    let packet = match build_ipv6_packet(home, peer, IPPROTO_MH, &mh_payload, 64) {
        Ok(s) => s,
        Err(e) => return Err(e),
    };
    proof {
        lemma_ipv6_roundtrip(home@, peer@, IPPROTO_MH, mh_payload@, 64);
    }
    let care_of: [u8; 16] = [0x33; 16];
    let xfrm = match mip6_xfrm_output_skb(AF_INET6, IPPROTO_DSTOPTS, &packet, care_of) {
        Ok(o) => o,
        Err(e) => return Err(e),
    };
    proof {
        let p = choose|p: Mip6Packet| mip6_packet_of(packet@, p) && #[trigger] mip6_xfrm_output_fields(
            p,
            IPPROTO_DSTOPTS,
            care_of,
            xfrm.xfrm,
        );
        assert(xfrm.xfrm.frame@.len() == 34);
        lemma_ipv6_roundtrip(xfrm.xfrm.src@, xfrm.xfrm.dst@, IPPROTO_DSTOPTS, xfrm.xfrm.frame@, 64);
        assert(xfrm.xfrm.home_address@ == home@);
    }
    let xfrm_ipv6 = match parse_ipv6_packet(&xfrm.skb) {
        Ok(p) => p,
        Err(_) => return Err(EINVAL),
    };
    assert(xfrm_ipv6.next_header == IPPROTO_DSTOPTS);

    let bad_src: [u8; 16] = [0x44; 16];
    let bad_dst: [u8; 16] = [0x55; 16];
    let bad_payload: [u8; 16] = [IPPROTO_MH, 1, IP6_MH_TYPE_BU, 0, 0, 0, 0, 0, 0, 0, 0, 0, 0, 0, 0, 0];
    let bad_mh = match build_ipv6_packet(bad_src, bad_dst, IPPROTO_MH, &bad_payload, 64) {
        Ok(s) => s,
        Err(e) => return Err(e),
    };
    proof {
        lemma_ipv6_roundtrip(bad_src@, bad_dst@, IPPROTO_MH, bad_payload@, 64);
    }
    match mip6_mh_filter_skb(&bad_mh) {
        Ok(Mip6MhSkbFilterOutcome::Drop(drop)) => {
            let icmp = match drop.icmpv6 {
                Some(i) => i,
                None => return Err(EINVAL),
            };
            let valid = icmpv6_checksum_valid(&icmp);
            assert(valid);
            Ok(())
        },
        Ok(Mip6MhSkbFilterOutcome::Accept) => Err(EINVAL),
        Err(e) => Err(e),
    }
}

/// Runs MPLS GSO, IOAM trace insertion, the Mobile IPv6 destination-option
/// transform and the mobility-header filter once each on fixed packets.
///
/// The IOAM tables are reset, a listener is subscribed, and namespace 7 is
/// added; the only failure is a refused allocation. On success the tables
/// hold that namespace alone, no schema, and the one trace event the run
/// emitted. What the run expects of each path (see `acceptance_mpls`,
/// `acceptance_ioam` and `acceptance_mip6`) is proved, not checked.
pub fn run_niche_acceptance(state: &mut Ioam6State) -> (r: Result<(), i32>)
    requires
        old(state).wf(),
    ensures
        final(state).wf(),
        r is Ok || r == Err::<(), i32>(ENOMEM),
        r is Ok ==> final(state).event_listener_present && final(state).namespaces@ == seq![
            new_namespace(7, Some(0x11223344), None),
        ] && final(state).schemas@.len() == 0 && final(state).events@.len() == 1,
{
    match acceptance_mpls() {
        Ok(()) => {},
        Err(e) => return Err(e),
    }
    match acceptance_ioam(state) {
        Ok(()) => {},
        Err(e) => return Err(e),
    }
    acceptance_mip6()
}

} // verus!
