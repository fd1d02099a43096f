use lupos_net::errno::{EFAULT, EINVAL, ENOPROTOOPT};
use lupos_net::socket::{
    AF_INET, AF_NETLINK, AF_PACKET, IP_TTL, SOL_IP, SO_RCVTIMEO_NEW, SO_RCVTIMEO_OLD, SO_REUSEADDR,
};
use lupos_net::sockopt::{
    copy_netlink_getsockopt, getsockopt_request, netlink_membership_len, parse_ifname_optval, require_family,
    setsockopt_request, timespec_timeout_ns, timeval_timeout_ns, GetsockoptRequest, SockoptRequest, IPV6_UNICAST_IF, IP_MTU, IP_RECVTTL,
    IP_UNICAST_IF, NETLINK_ADD_MEMBERSHIP, NETLINK_LIST_MEMBERSHIPS, NETLINK_PKTINFO, SOL_IPV6,
    SOL_NETLINK, SOL_PACKET, SO_BINDTODEVICE, SO_PEERCRED, SO_PEERSEC,
};

fn head(bytes: &[u8]) -> &[u8] {
    &bytes[..bytes.len().min(16)]
}

#[test]
fn setsockopt_requests_follow_level_and_option() {
    let one = 1u32.to_ne_bytes();
    assert_eq!(setsockopt_request(SOL_PACKET, 1, None, 0), Ok(SockoptRequest::RequireFamily(AF_PACKET)));
    assert_eq!(setsockopt_request(SOL_IP, IP_RECVTTL, Some(&one), 4), Ok(SockoptRequest::RecvTtl(1)));
    assert_eq!(setsockopt_request(SOL_IP, IP_RECVTTL, Some(&one[..2]), 2), Err(EINVAL));
    assert_eq!(setsockopt_request(SOL_IP, IP_RECVTTL, None, 4), Err(EFAULT));
    assert_eq!(setsockopt_request(SOL_IP, IP_TTL, None, 0), Ok(SockoptRequest::RequireFamily(AF_INET)));
    let idx = 7u32.to_be_bytes();
    assert_eq!(setsockopt_request(SOL_IP, IP_UNICAST_IF, Some(&idx), 4), Ok(SockoptRequest::UnicastIf(7)));
    assert_eq!(setsockopt_request(SOL_IPV6, IPV6_UNICAST_IF, Some(&idx), 4), Ok(SockoptRequest::UnicastIf(7)));
    let group = 3u32.to_ne_bytes();
    assert_eq!(
        setsockopt_request(SOL_NETLINK, NETLINK_ADD_MEMBERSHIP, Some(&group), 4),
        Ok(SockoptRequest::Membership { group: 3, add: true })
    );
    assert_eq!(setsockopt_request(SOL_NETLINK, NETLINK_PKTINFO, Some(&one), 4), Ok(SockoptRequest::RecvPktinfo(1)));
    assert_eq!(
        setsockopt_request(1, SO_REUSEADDR as i32, Some(&one), 4),
        Ok(SockoptRequest::Generic { opt: SO_REUSEADDR, value: 1 })
    );
    assert_eq!(
        setsockopt_request(1, SO_REUSEADDR as i32, None, 0),
        Ok(SockoptRequest::Generic { opt: SO_REUSEADDR, value: 0 })
    );
}

#[test]
fn socket_timeouts_are_read_from_time_structures() {
    let mut tv = [0u8; 16];
    tv[..8].copy_from_slice(&2i64.to_ne_bytes());
    tv[8..].copy_from_slice(&250_000i64.to_ne_bytes());
    assert_eq!(
        setsockopt_request(1, SO_RCVTIMEO_OLD as i32, Some(&tv), 16),
        Ok(SockoptRequest::Timeout { opt: SO_RCVTIMEO_OLD, ns: 2_250_000_000 })
    );
    assert_eq!(setsockopt_request(1, SO_RCVTIMEO_OLD as i32, Some(&tv[..8]), 8), Err(EINVAL));
    assert_eq!(setsockopt_request(1, SO_RCVTIMEO_OLD as i32, None, 0), Err(EFAULT));
    assert_eq!(
        setsockopt_request(1, SO_RCVTIMEO_NEW as i32, Some(&tv), 16),
        Ok(SockoptRequest::Timeout { opt: SO_RCVTIMEO_NEW, ns: 2_000_250_000 })
    );
    assert_eq!(timespec_timeout_ns(1, 5), Ok(1_000_000_005));
    assert_eq!(timespec_timeout_ns(0, 1_000_000_000), Err(EINVAL));
    assert_eq!(timespec_timeout_ns(i64::MAX, 0), Ok(i64::MAX as u64));
    assert_eq!(timeval_timeout_ns(0, 250_000), Ok(250_000_000));
    assert_eq!(timeval_timeout_ns(-1, 0), Err(EINVAL));
    assert_eq!(timeval_timeout_ns(0, 1_000_000), Err(EINVAL));
    assert_eq!(timeval_timeout_ns(i64::MAX, 0), Ok(u64::MAX));
}

#[test]
fn interface_names_stop_at_the_first_nul() {
    let mut name = [0u8; 20];
    name[..4].copy_from_slice(b"eth0");
    assert_eq!(parse_ifname_optval(Some(head(&name)), 20), Ok(Some(String::from("eth0"))));
    assert_eq!(parse_ifname_optval(None, 0), Ok(None));
    assert_eq!(parse_ifname_optval(None, 4), Err(EFAULT));
    assert_eq!(parse_ifname_optval(Some(&[0, 1, 2]), 3), Ok(None));
    assert_eq!(parse_ifname_optval(Some(&[0xff, 0xfe]), 2), Err(EINVAL));
    let long = [b'a'; 20];
    assert_eq!(parse_ifname_optval(Some(head(&long)), 20), Ok(Some(String::from("aaaaaaaaaaaaaaaa"))));
    assert_eq!(
        setsockopt_request(1, SO_BINDTODEVICE, Some(head(&name)), 20),
        Ok(SockoptRequest::BindToDevice(Some(String::from("eth0"))))
    );
    assert_eq!(require_family(AF_PACKET, AF_PACKET), Ok(()));
    assert_eq!(require_family(AF_PACKET, AF_INET), Err(EINVAL));
}

#[test]
fn getsockopt_requests_follow_level_and_option() {
    assert_eq!(getsockopt_request(SOL_PACKET, 0), GetsockoptRequest::PacketZero);
    assert_eq!(getsockopt_request(SOL_IP, IP_MTU), GetsockoptRequest::Mtu);
    assert_eq!(getsockopt_request(SOL_IPV6, IPV6_UNICAST_IF), GetsockoptRequest::UnicastIf);
    assert_eq!(getsockopt_request(SOL_NETLINK, 99), GetsockoptRequest::Netlink);
    assert_eq!(getsockopt_request(1, SO_PEERSEC), GetsockoptRequest::PeerSec);
    assert_eq!(getsockopt_request(1, SO_PEERCRED), GetsockoptRequest::PeerCred);
    assert_eq!(getsockopt_request(1, 2), GetsockoptRequest::Generic);
}

#[test]
fn netlink_getsockopt_reports_memberships_and_flags() {
    assert_eq!(netlink_membership_len(0), 8);
    assert_eq!(netlink_membership_len(15), 4);
    let r = copy_netlink_getsockopt(AF_NETLINK, 0, 0b101, 0, NETLINK_LIST_MEMBERSHIPS, 16, true);
    assert_eq!(r.result, Ok(()));
    assert_eq!(r.value, vec![5, 0, 0, 0, 0, 0, 0, 0]);
    assert_eq!(r.len, Some(8));
    let cut = copy_netlink_getsockopt(AF_NETLINK, 0, 0b101, 0, NETLINK_LIST_MEMBERSHIPS, 2, true);
    assert_eq!(cut.value, vec![0, 0]);
    assert_eq!(cut.len, Some(8));
    let none = copy_netlink_getsockopt(AF_NETLINK, 0, 0, 0, NETLINK_LIST_MEMBERSHIPS, 16, true);
    assert_eq!((none.value.len(), none.len), (0, Some(0)));
    let missing = copy_netlink_getsockopt(AF_NETLINK, 0, 1, 0, NETLINK_LIST_MEMBERSHIPS, 4, false);
    assert_eq!(missing.result, Err(EFAULT));
    let pkt = copy_netlink_getsockopt(AF_NETLINK, 0, 0, 1, NETLINK_PKTINFO, 4, true);
    assert_eq!((pkt.result, pkt.value, pkt.len), (Ok(()), vec![1, 0, 0, 0], Some(4)));
    let short = copy_netlink_getsockopt(AF_NETLINK, 0, 0, 0, 5, 2, true);
    assert_eq!((short.result, short.len), (Err(EINVAL), Some(4)));
    assert_eq!(copy_netlink_getsockopt(AF_INET, 0, 0, 0, 5, 4, true).result, Err(ENOPROTOOPT));
    assert_eq!(copy_netlink_getsockopt(AF_NETLINK, 0, 0, 0, 99, 4, true).result, Err(ENOPROTOOPT));
    assert_eq!(copy_netlink_getsockopt(AF_NETLINK, 0, 0, 0, 5, u32::MAX, true).result, Err(EINVAL));
}
