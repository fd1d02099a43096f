use lupos_net::errno::{EINVAL, ENOSPC};
use lupos_net::ip::{build_ipv4_packet, build_ipv6_packet, checksum, ipv4, parse_ipv4_packet, parse_ipv6_packet, IPPROTO_UDP};
use lupos_net::skbuff::{alloc_skb, pskb_expand_head, skb_clone, skb_copy, skb_pad, skb_pull, skb_push, skb_put, skb_reserve, skb_share_check, skb_trim};
use lupos_net::udp::{
    build_udp_payload, udp_gso_plan, udp_recvmsg, udp_sendmsg, UdpGsoPlan, CONST_MSS_V4, CONST_MSS_V6, UDP_MAX_SEGMENTS,
};

#[test]
fn skb_clone_share_check_preserves_original_on_mutation() {
    let mut skb = alloc_skb(64).unwrap();
    skb_reserve(&mut skb, 16).unwrap();
    skb_put(&mut skb, 4).unwrap().copy_from_slice(&[1, 2, 3, 4]);

    let clone = skb_clone(&skb);
    assert!(skb.cloned());

    let mut writable = skb_share_check(clone).unwrap();
    writable.data_mut()[0] = 9;

    assert_eq!(skb.data(), &[1, 2, 3, 4]);
    assert_eq!(writable.data(), &[9, 2, 3, 4]);
}

#[test]
fn pskb_expand_head_preserves_packet_bytes() {
    let mut skb = alloc_skb(8).unwrap();
    skb_put(&mut skb, 3)
        .unwrap()
        .copy_from_slice(&[0xaa, 0xbb, 0xcc]);
    pskb_expand_head(&mut skb, 8, 8).unwrap();

    assert_eq!(skb.headroom(), 8);
    assert_eq!(skb.tailroom(), 8);
    assert_eq!(skb.data(), &[0xaa, 0xbb, 0xcc]);
}

#[test]
fn skb_head_and_tail_operations_respect_room() {
    let mut skb = alloc_skb(16).unwrap();
    assert_eq!(skb_reserve(&mut skb, 17), Err(EINVAL));
    skb_reserve(&mut skb, 4).unwrap();
    assert_eq!(skb_push(&mut skb, 5), Err(ENOSPC));
    assert_eq!(skb_put(&mut skb, 13), Err(ENOSPC));
    skb_put(&mut skb, 3).unwrap().copy_from_slice(&[7, 8, 9]);
    assert_eq!(skb_reserve(&mut skb, 1), Err(EINVAL));
    skb_push(&mut skb, 2).unwrap().copy_from_slice(&[5, 6]);
    assert_eq!(skb.data(), &[5, 6, 7, 8, 9]);
    assert_eq!(skb_pull(&mut skb, 6), Err(EINVAL));
    assert_eq!(skb_pull(&mut skb, 1).unwrap(), &[6, 7, 8, 9]);
    assert_eq!(skb_trim(&mut skb, 5), Err(EINVAL));
    skb_trim(&mut skb, 2).unwrap();
    assert_eq!(skb.data(), &[6, 7]);
    assert_eq!(skb.len, 2);
    // The tailroom (11 bytes) is too small and not empty: the buffer grows
    // by the missing 9 bytes, which still cannot hold 20.
    assert_eq!(skb_pad(&mut skb, 20), Err(ENOSPC));
    assert_eq!(skb.data(), &[6, 7]);
    assert_eq!(skb.tailroom(), 9);
    skb_pad(&mut skb, 9).unwrap();
    assert_eq!(skb.len, 11);
    assert_eq!(skb.tailroom(), 0);
    // With no tailroom at all the grown buffer holds exactly the padding.
    skb_pad(&mut skb, 3).unwrap();
    assert_eq!(skb.len, 14);
    assert_eq!(&skb.data()[..2], &[6, 7]);
    assert!(skb.data()[2..].iter().all(|b| *b == 0));
    let copy = skb_copy(&skb).unwrap();
    assert!(!copy.cloned());
    assert_eq!(copy.data(), skb.data());
}

#[test]
fn ip_packets_round_trip_and_checksum_verifies() {
    let skb = build_ipv4_packet(ipv4(10, 0, 0, 1), ipv4(10, 0, 0, 2), IPPROTO_UDP, b"abc", 64).unwrap();
    // A header with its checksum sums to zero.
    assert_eq!(checksum(&skb.data()[..20]), 0);
    let p = parse_ipv4_packet(&skb).unwrap();
    assert_eq!((p.src, p.dst, p.protocol, p.ttl), (0x0a00_0001, 0x0a00_0002, IPPROTO_UDP, 64));
    assert_eq!(p.payload, b"abc");
    let six = build_ipv6_packet([1; 16], [2; 16], 59, b"xyz", 9).unwrap();
    let q = parse_ipv6_packet(&six).unwrap();
    assert_eq!((q.src, q.dst, q.next_header, q.hop_limit), ([1; 16], [2; 16], 59, 9));
    assert_eq!(q.payload, b"xyz");
    assert_eq!(parse_ipv6_packet(&skb).err(), Some(EINVAL));
    assert_eq!(checksum(&[0x45, 0x00, 0x00, 0x1c]), !(0x4500u16 + 0x001c));
}

#[test]
fn udp_send_recv_round_trip() {
    let skb = udp_sendmsg(ipv4(10, 0, 0, 1), ipv4(10, 0, 0, 2), 1000, 2000, b"hello").unwrap();
    let pkt = udp_recvmsg(&skb).unwrap();
    assert_eq!(pkt.src_port, 1000);
    assert_eq!(pkt.dst_port, 2000);
    assert_eq!(pkt.payload, b"hello");
}

#[test]
fn udp_recv_rejects_non_udp_and_bad_lengths() {
    let tcp = build_ipv4_packet(1, 2, 6, &[0; 8], 64).unwrap();
    assert_eq!(udp_recvmsg(&tcp).err(), Some(EINVAL));
    let mut bad = build_udp_payload(1, 2, b"xy").unwrap();
    bad[4] = 0;
    bad[5] = 7;
    let skb = build_ipv4_packet(1, 2, IPPROTO_UDP, &bad, 64).unwrap();
    assert_eq!(udp_recvmsg(&skb).err(), Some(EINVAL));
    assert_eq!(build_udp_payload(1, 2, b"xy").unwrap(), vec![0, 1, 0, 2, 0, 10, 0, 0, b'x', b'y']);
    assert_eq!(build_udp_payload(1, 2, &vec![0u8; 65528]).err(), Some(EINVAL));
}

#[test]
fn udp_gso_plan_matches_linux_udpgso_boundaries() {
    assert_eq!(
        udp_gso_plan(CONST_MSS_V4 + 1, Some(CONST_MSS_V4), false).unwrap(),
        UdpGsoPlan { full_segments: 1, last_len: 1 }
    );
    assert_eq!(udp_gso_plan(CONST_MSS_V4 + 1, None, false).err(), Some(EINVAL));
    assert_eq!(udp_gso_plan(UDP_MAX_SEGMENTS, Some(1), false).unwrap().full_segments, UDP_MAX_SEGMENTS);
    assert_eq!(udp_gso_plan(UDP_MAX_SEGMENTS + 1, Some(1), false).err(), Some(EINVAL));
    assert_eq!(
        udp_gso_plan(CONST_MSS_V6, Some(CONST_MSS_V6 + 1), true).unwrap(),
        UdpGsoPlan { full_segments: 0, last_len: CONST_MSS_V6 }
    );
    assert_eq!(udp_gso_plan(CONST_MSS_V4, None, false).unwrap(), UdpGsoPlan { full_segments: 1, last_len: 0 });
    assert_eq!(udp_gso_plan(0, None, false).err(), Some(EINVAL));
}

#[test]
fn empty_buffers_need_no_allocation() {
    let skb = alloc_skb(0).unwrap();
    assert_eq!(skb.end, 0);
    assert_eq!(skb.truesize, core::mem::size_of::<lupos_net::skbuff::SkBuff>());
    let copy = skb_copy(&skb).unwrap();
    assert_eq!(copy.end, 0);
    let mut grown = alloc_skb(0).unwrap();
    pskb_expand_head(&mut grown, 0, 0).unwrap();
    assert_eq!(grown.end, 0);
    pskb_expand_head(&mut grown, 4, 8).unwrap();
    assert_eq!(grown.data, 4);
    assert_eq!(grown.end, 12);
    assert_eq!(grown.truesize, core::mem::size_of::<lupos_net::skbuff::SkBuff>() + 12);
    assert!(alloc_skb(usize::MAX).is_err());
}

#[test]
fn put_and_push_unshare_before_handing_out_bytes() {
    let mut skb = alloc_skb(16).unwrap();
    skb_reserve(&mut skb, 4).unwrap();
    skb_put(&mut skb, 2).unwrap().copy_from_slice(&[1, 2]);
    let clone = skb_clone(&skb);
    assert!(skb.cloned());
    let area = skb_put(&mut skb, 2).unwrap();
    assert_eq!(area.len(), 2);
    area.copy_from_slice(&[3, 4]);
    assert!(!skb.cloned());
    assert_eq!(skb.data(), &[1, 2, 3, 4]);
    assert_eq!(clone.data(), &[1, 2]);
    let mut other = skb_clone(&skb);
    skb_push(&mut other, 1).unwrap()[0] = 0;
    assert_eq!(other.data(), &[0, 1, 2, 3, 4]);
    assert_eq!(skb.data(), &[1, 2, 3, 4]);
}
