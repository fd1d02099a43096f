use lupos_net::errno::{EINVAL, ENOMEM};
use lupos_net::sched::act_meta_mark::{
    ifemark_init_module, skbmark_check, skbmark_decode, skbmark_encode, SkBuffMark, TcfMetaInfo as MarkInfo, IFE_META_SKBMARK,
    NLA_U32 as MARK_NLA_U32,
};
use lupos_net::sched::act_meta_skbprio::{
    ifeprio_init_module, skbprio_check, skbprio_decode, skbprio_encode, SkBuffPriority, TcfMetaInfo as PrioInfo, IFE_META_PRIO,
    NLA_U32 as PRIO_NLA_U32,
};
use lupos_net::sched::act_meta_skbtcindex::{
    ifetc_index_init_module, skbtcindex_check, skbtcindex_decode, skbtcindex_encode, SkBuffTcIndex, TcfMetaInfo as TcInfo,
    IFE_META_TCINDEX, NLA_U16,
};
use lupos_net::sched::em_cmp::{
    cmp_needs_transformation, em_cmp_match, init_em_cmp, TcfEmCmp, TCF_EM_ALIGN_U16, TCF_EM_ALIGN_U32, TCF_EM_ALIGN_U8,
    TCF_EM_CMP, TCF_EM_CMP_TRANS, TCF_EM_OPND_EQ, TCF_EM_OPND_GT, TCF_EM_OPND_LT,
};
use lupos_net::sched::em_nbyte::{
    em_nbyte_change, em_nbyte_match, init_em_nbyte, PacketLayers, TcfEmNbyte, TCF_EM_NBYTE, TCF_EM_NBYTE_HDR_LEN,
    TCF_LAYER_NETWORK, TCF_LAYER_TRANSPORT,
};
use lupos_net::sched::em_u32::{em_u32_match, init_em_u32, TcU32Key, TcfPktInfo, TCF_EM_U32};
use lupos_net::sched::sch_blackhole::{blackhole_dequeue, blackhole_enqueue, blackhole_init_registers_qdisc, NET_XMIT_BYPASS};

#[test]
fn act_meta_mark_matches_linux_source() {
    let ops = ifemark_init_module();
    assert_eq!(ops.metaid, IFE_META_SKBMARK);
    assert_eq!(ops.metatype, MARK_NLA_U32);
    assert_eq!(ops.name, "skbmark");
    assert_eq!(ops.synopsis, "skb mark 32 bit metadata");
}

#[test]
fn skbmark_encode_decode_uses_network_order() {
    let info = MarkInfo { present: true };
    let skb = SkBuffMark { mark: 0x1234_5678 };
    assert_eq!(skbmark_encode(&skb, &info), [0x12, 0x34, 0x56, 0x78]);
    assert!(skbmark_check(&skb, &info));

    let mut decoded = SkBuffMark::default();
    assert_eq!(skbmark_decode(&mut decoded, &[0xab, 0xcd, 0xef, 0x01]), Ok(()));
    assert_eq!(decoded.mark, 0xabcd_ef01);
    assert_eq!(skbmark_decode(&mut decoded, &[1, 2]), Err(-EINVAL));
    assert_eq!(ifemark_init_module().metaid, IFE_META_SKBMARK);
}

#[test]
fn act_meta_skbprio_matches_linux_source() {
    let ops = ifeprio_init_module();
    assert_eq!(ops.metaid, IFE_META_PRIO);
    assert_eq!(ops.metatype, PRIO_NLA_U32);
    assert_eq!(ops.name, "skbprio");
}

#[test]
fn skbprio_encode_decode_uses_network_order() {
    let info = PrioInfo { present: true };
    let skb = SkBuffPriority { priority: 0x0102_0304 };
    assert_eq!(skbprio_encode(&skb, &info), [1, 2, 3, 4]);
    assert!(skbprio_check(&skb, &info));

    let mut decoded = SkBuffPriority::default();
    assert_eq!(skbprio_decode(&mut decoded, &[0xaa, 0xbb, 0xcc, 0xdd]), Ok(()));
    assert_eq!(decoded.priority, 0xaabb_ccdd);
    assert_eq!(skbprio_decode(&mut decoded, &[1, 2]), Err(-EINVAL));
    assert_eq!(ifeprio_init_module().metaid, IFE_META_PRIO);
}

#[test]
fn act_meta_skbtcindex_matches_linux_source() {
    let ops = ifetc_index_init_module();
    assert_eq!(ops.metaid, IFE_META_TCINDEX);
    assert_eq!(ops.metatype, NLA_U16);
    assert_eq!(ops.name, "tc_index");
}

#[test]
fn skbtcindex_encode_decode_uses_network_order() {
    let info = TcInfo { present: true };
    let skb = SkBuffTcIndex { tc_index: 0x1234 };
    assert_eq!(skbtcindex_encode(&skb, &info), [0x12, 0x34]);
    assert!(skbtcindex_check(&skb, &info));

    let mut decoded = SkBuffTcIndex::default();
    assert_eq!(skbtcindex_decode(&mut decoded, &[0xab, 0xcd]), Ok(()));
    assert_eq!(decoded.tc_index, 0xabcd);
    assert_eq!(skbtcindex_decode(&mut decoded, &[1]), Err(-EINVAL));
    assert_eq!(ifetc_index_init_module().metaid, IFE_META_TCINDEX);
}

#[test]
fn meta_decode_round_trips_encode_and_zero_is_not_sent() {
    let info = MarkInfo { present: false };
    let skb = SkBuffMark { mark: 0xfeed_beef };
    let mut back = SkBuffMark::default();
    skbmark_decode(&mut back, &skbmark_encode(&skb, &info)).unwrap();
    assert_eq!(back, skb);
    assert!(!skbmark_check(&SkBuffMark { mark: 0 }, &info));
    let mut long = SkBuffTcIndex::default();
    assert_eq!(skbtcindex_decode(&mut long, &[0, 7, 9, 9]), Ok(()));
    assert_eq!(long.tc_index, 7);
}

fn base_cmp() -> TcfEmCmp {
    TcfEmCmp { val: 0, mask: 0, off: 0, align: TCF_EM_ALIGN_U32, flags: 0, layer: 0, opnd: TCF_EM_OPND_EQ }
}

#[test]
fn em_cmp_matches_linux_source() {
    assert!(cmp_needs_transformation(TcfEmCmp { flags: TCF_EM_CMP_TRANS, ..base_cmp() }));
    assert!(!cmp_needs_transformation(base_cmp()));
    let skb = [9u8, 8];
    assert!(em_cmp_match(&skb, TcfEmCmp { val: 8, align: TCF_EM_ALIGN_U8, off: 1, ..base_cmp() }));
    assert!(em_cmp_match(&skb, TcfEmCmp { val: 0x0908, align: TCF_EM_ALIGN_U16, ..base_cmp() }));
    assert!(!em_cmp_match(&skb, TcfEmCmp { align: TCF_EM_ALIGN_U32, ..base_cmp() }));
    assert_eq!(init_em_cmp().kind, TCF_EM_CMP);
    assert_eq!(init_em_cmp().datalen, core::mem::size_of::<TcfEmCmp>());
}

#[test]
fn em_cmp_reads_aligned_values_masks_and_compares() {
    let skb = [0, 0x12, 0x34, 0x56, 0x78];
    assert!(em_cmp_match(
        &skb,
        TcfEmCmp { val: 0x1234, mask: 0, off: 1, align: TCF_EM_ALIGN_U16, flags: 0, layer: 0, opnd: TCF_EM_OPND_EQ }
    ));
    assert!(em_cmp_match(
        &skb,
        TcfEmCmp { val: 0x34, mask: 0xff, off: 1, align: TCF_EM_ALIGN_U16, flags: 0, layer: 0, opnd: TCF_EM_OPND_EQ }
    ));
    assert!(em_cmp_match(
        &skb,
        TcfEmCmp { val: 0x80, mask: 0, off: 1, align: TCF_EM_ALIGN_U8, flags: 0, layer: 0, opnd: TCF_EM_OPND_LT }
    ));
    assert!(!em_cmp_match(
        &skb,
        TcfEmCmp {
            off: 99,
            ..TcfEmCmp { val: 0, mask: 0, off: 0, align: TCF_EM_ALIGN_U32, flags: 0, layer: 0, opnd: TCF_EM_OPND_EQ }
        }
    ));
    assert_eq!(init_em_cmp().kind, TCF_EM_CMP);
}

#[test]
fn em_cmp_greater_layer_offset_and_unknown_operator() {
    let skb = [1u8, 2, 3, 4, 5, 6];
    assert!(em_cmp_match(&skb, TcfEmCmp { val: 0x0304_0500, opnd: TCF_EM_OPND_GT, layer: 2, off: 0, ..base_cmp() }));
    assert!(!em_cmp_match(&skb, TcfEmCmp { opnd: 7, align: TCF_EM_ALIGN_U8, ..base_cmp() }));
    assert!(!em_cmp_match(&skb, TcfEmCmp { layer: usize::MAX, off: 1, align: TCF_EM_ALIGN_U8, ..base_cmp() }));
}

#[test]
fn em_nbyte_matches_linux_source() {
    assert_eq!(init_em_nbyte().kind, TCF_EM_NBYTE);
    assert_eq!(TCF_EM_NBYTE_HDR_LEN, 4);
}

#[test]
fn nbyte_change_validates_length_and_match_uses_selected_layer() {
    let hdr = TcfEmNbyte { off: 2, len: 3, layer: TCF_LAYER_NETWORK };
    assert_eq!(em_nbyte_change(hdr, b"abc", TCF_EM_NBYTE_HDR_LEN + 2, true), Err(-EINVAL));
    assert_eq!(em_nbyte_change(hdr, b"abc", TCF_EM_NBYTE_HDR_LEN + 3, false), Err(-ENOMEM));

    let em = em_nbyte_change(hdr, b"abcx", TCF_EM_NBYTE_HDR_LEN + 3, true).unwrap();
    let packet = [0, 1, 0xaa, 0xbb, b'a', b'b', b'c', 9];
    assert!(em_nbyte_match(&packet, &em, PacketLayers { link: Some(0), network: Some(2), transport: None }));
    assert!(!em_nbyte_match(&packet[..6], &em, PacketLayers { link: Some(0), network: Some(2), transport: None }));
    assert_eq!(init_em_nbyte().kind, TCF_EM_NBYTE);
}

#[test]
fn nbyte_match_needs_known_layer_and_short_pattern_is_refused() {
    let hdr = TcfEmNbyte { off: 0, len: 2, layer: TCF_LAYER_TRANSPORT };
    let em = em_nbyte_change(hdr, b"hi", 6, true).unwrap();
    assert_eq!(em.datalen, 6);
    assert_eq!(em.data.pattern, b"hi");
    assert!(!em_nbyte_match(b"hi", &em, PacketLayers { link: Some(0), network: Some(0), transport: None }));
    assert!(em_nbyte_match(b"xhi", &em, PacketLayers { link: None, network: None, transport: Some(1) }));
    assert_eq!(em_nbyte_change(TcfEmNbyte { off: 0, len: 5, layer: 0 }, b"hi", 9, true), Err(-EINVAL));
    assert_eq!(em_nbyte_change(hdr, b"hi", 3, true), Err(-EINVAL));
}

#[test]
fn em_u32_matches_linux_source() {
    let packet = [0, 1, 2, 3, 0xde, 0xad, 0xbe, 0xef, 9, 10];
    let key = TcU32Key { val: 0xdead_beef, mask: 0xffff_ffff, off: 4, offmask: 0 };
    assert!(em_u32_match(&packet, 0, key, None));
    assert!(!em_u32_match(&packet, 0, TcU32Key { val: 0, ..key }, None));
    assert!(em_u32_match(&packet, 0, TcU32Key { off: 0, offmask: 0x0f, ..key }, Some(TcfPktInfo { ptr: Some(0), nexthdr: 4 })));
    assert!(!em_u32_match(&packet[..6], 0, key, None));
    assert_eq!(init_em_u32().kind, TCF_EM_U32);
    assert_eq!(init_em_u32().datalen, core::mem::size_of::<TcU32Key>());
}

#[test]
fn em_u32_uses_network_header_when_no_previous_position() {
    let packet = [0xff, 0, 0, 0, 0x11];
    let key = TcU32Key { val: 0x0000_0011, mask: 0x0000_00ff, off: 1, offmask: 0 };
    assert!(em_u32_match(&packet, 0, key, Some(TcfPktInfo { ptr: None, nexthdr: 0 })));
    assert!(!em_u32_match(&packet, usize::MAX, key, None));
}

#[test]
fn blackhole_qdisc_matches_linux_source() {
    assert_eq!(blackhole_enqueue(), NET_XMIT_BYPASS);
    assert_eq!(blackhole_dequeue(), None);
    let ops = blackhole_init_registers_qdisc();
    assert_eq!(ops.id, "blackhole");
    assert_eq!(ops.priv_size, 0);
    assert_eq!(ops.enqueue, "blackhole_enqueue");
    assert_eq!(ops.dequeue, "blackhole_dequeue");
    assert_eq!(ops.peek, "blackhole_dequeue");
}
