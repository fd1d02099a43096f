use lupos_net::errno::{EADDRINUSE, EAFNOSUPPORT, EAGAIN, ECONNREFUSED, EFAULT, EINVAL, EOPNOTSUPP, EPROTONOSUPPORT};
use std::collections::VecDeque;
use lupos_net::ip::{checksum, ipv4};
use lupos_net::rtnetlink::{NetDevice, NETLINK_AUDIT, RTM_NEWLINK, RTM_SETLINK};
use lupos_net::sockaddr_layout::{LinuxSockAddrIn, SOCKADDR_IN_LEN};
use lupos_net::socket::audit_record_listener;
use lupos_net::socket::{
    audit_features_to_bytes, audit_status_from_payload, audit_status_to_bytes, AuditStatus,
    ipv4_pktinfo_payload, place_cmsg, scm_rights_payload, socket_poll_mask, ucred_payload, PollState, POLLERR,
    POLLHUP, POLLIN, POLLOUT, POLLRDHUP, POLLRDNORM, POLLWRNORM, RCV_SHUTDOWN, SHUTDOWN_MASK,
    accept4, accepted_local_addr, bind_conflict, connect_action, copy_iov_bytes, get_recv_ttl, getsockopt,
    iov_total_bytes, recvmsg_full, scatter_iov_bytes, sendto_fds, set_recv_ttl, setsockopt, socketpair_check,
    stream_hangup_locked, wildcard_listener_addr, BoundSocket, ConnectAction, PeerStatus, QueuedPacket, SocketCred,
    SocketOptions, MSG_PEEK, MSG_TRUNC, SO_PASSCRED, SO_PASSRIGHTS, SO_PASSSEC, SO_RCVBUFFORCE, SO_REUSEADDR,
    SO_SNDBUFFORCE, SO_TIMESTAMP_NEW, SO_TIMESTAMP_OLD, SO_ACCEPTCONN, SO_DOMAIN, SO_TYPE, UIO_MAXIOV, MAX_RW,
    audit_netlink_readlog_addr_requires_cap, audit_netlink_readlog_subscribed, audit_netlink_required_cap,
    audit_readlog_group_mask, build_dns_a_response, build_icmp_echo_reply, build_rtnl_link_message, cmsg_align,
    copy_sockaddr_with_kernel_len, ephemeral_port, inet_loopback_dest, initial_local_addr, kobject_uevent_subscribed,
    listen_state, netlink_ack_message, netlink_done_message, netlink_payload_message, nlmsg_align,
    parse_accept_flags, parse_sendmsg_control, parse_socket_type, parse_sockaddr, push_rta_bytes,
    recvmsg_is_nonblocking, sockaddr_bytes, socket_file_is_nonblocking, unbound_sockaddr, validate_socket,
    validate_unix_socket, write_sockaddr_with_kernel_len, NetlinkHeader, PacketMeta, ScmCredentials, SockAddr,
    SocketState, SocketTypeSpec, AF_INET, AF_INET6, AF_MAX, AF_NETLINK, AF_PACKET, AF_UNIX, AUDIT_GET, AUDIT_SET,
    AUDIT_USER, CAP_AUDIT_CONTROL, CAP_AUDIT_WRITE, CMSG_HDR_LEN, IFLA_CARRIER, IFLA_IFNAME, IFLA_MTU,
    IFLA_OPERSTATE, IF_OPER_UP, IP_PKTINFO, IP_TTL, MSG_DONTWAIT, NLMSG_DONE, NLMSG_ERROR, NLM_F_MULTI,
    O_NONBLOCK, O_RDWR, PROTO_PING, PROTO_TCP, PROTO_UDP, SCM_CREDENTIALS, SCM_MAX_CONTROL_LEN, SCM_MAX_FD,
    SCM_RIGHTS, SOCK_CLOEXEC, SOCK_DGRAM, SOCK_NONBLOCK, SOCK_RAW, SOCK_SEQPACKET, SOCK_STREAM, SOL_IP,
    SOL_SOCKET,
};

fn sockaddr_in(port: u16, addr: u32) -> [u8; 16] {
    let mut raw = [0u8; 16];
    raw[0..2].copy_from_slice(&AF_INET.to_ne_bytes());
    raw[2..4].copy_from_slice(&port.to_be_bytes());
    raw[4..8].copy_from_slice(&addr.to_be_bytes());
    raw
}

fn build_scm_rights_control(fd_count: usize) -> Vec<u8> {
    let cmsg_len = CMSG_HDR_LEN + fd_count * 4;
    let mut control = vec![0u8; cmsg_align(cmsg_len)];
    control[..8].copy_from_slice(&(cmsg_len as u64).to_ne_bytes());
    control[8..12].copy_from_slice(&SOL_SOCKET.to_ne_bytes());
    control[12..16].copy_from_slice(&SCM_RIGHTS.to_ne_bytes());
    for i in 0..fd_count {
        let start = CMSG_HDR_LEN + i * 4;
        control[start..start + 4].copy_from_slice(&(i as i32).to_ne_bytes());
    }
    control
}

fn pktinfo_cmsg(ifindex: u32, spec_dst_net: [u8; 4]) -> Vec<u8> {
    let len = CMSG_HDR_LEN + 12;
    let mut c = vec![0u8; cmsg_align(len)];
    c[..8].copy_from_slice(&(len as u64).to_ne_bytes());
    c[8..12].copy_from_slice(&SOL_IP.to_ne_bytes());
    c[12..16].copy_from_slice(&IP_PKTINFO.to_ne_bytes());
    c[16..20].copy_from_slice(&ifindex.to_ne_bytes());
    c[20..24].copy_from_slice(&spec_dst_net);
    c
}

#[test]
fn recvmsg_sockaddr_write_uses_kernel_local_namelen() {
    let peer = SockAddr::Inet { addr: ipv4(127, 0, 0, 1), port: 8080 };
    let mut out = [0u8; 16];
    let mut kernel_namelen = out.len() as u32;

    assert_eq!(write_sockaddr_with_kernel_len(&peer, &mut out, &mut kernel_namelen), Ok(()));
    assert_eq!(kernel_namelen, 16);
    assert_eq!(u16::from_ne_bytes([out[0], out[1]]), AF_INET);
}

#[test]
fn getsockname_unbound_inet_reports_wildcard_address() {
    assert_eq!(unbound_sockaddr(AF_INET), Some(SockAddr::Inet { addr: 0, port: 0 }));
    assert_eq!(unbound_sockaddr(AF_INET6), Some(SockAddr::Inet6 { addr: [0; 16], port: 0 }));
}

#[test]
fn recvmsg_blocking_mode_honors_msg_dontwait_and_file_flags() {
    let flags = O_RDWR;
    assert!(!recvmsg_is_nonblocking(flags, 0));
    assert!(recvmsg_is_nonblocking(flags, MSG_DONTWAIT));

    let flags = O_RDWR | O_NONBLOCK;
    assert!(recvmsg_is_nonblocking(flags, 0));
}

#[test]
fn accept4_empty_backlog_blocks_from_listener_file_flags() {
    let listener_flags = O_RDWR;
    let (accepted_file_flags, cloexec) = parse_accept_flags((SOCK_CLOEXEC | SOCK_NONBLOCK) as i32).unwrap();

    assert!(!socket_file_is_nonblocking(listener_flags));
    assert_eq!(accepted_file_flags & O_NONBLOCK, O_NONBLOCK);
    assert!(cloexec);

    let listener_flags = O_RDWR | O_NONBLOCK;
    assert!(socket_file_is_nonblocking(listener_flags));
}

#[test]
fn linux_socket_selftest_protocol_matrix() {
    assert_eq!(validate_socket(AF_MAX, 0, 0).err(), Some(EAFNOSUPPORT));
    assert!(validate_socket(AF_INET, SOCK_STREAM, PROTO_TCP).is_ok());
    assert_eq!(validate_socket(AF_INET, SOCK_DGRAM, PROTO_TCP).err(), Some(EPROTONOSUPPORT));
    assert!(validate_socket(AF_INET, SOCK_DGRAM, PROTO_UDP).is_ok());
    assert_eq!(validate_socket(AF_INET, SOCK_STREAM, PROTO_UDP).err(), Some(EPROTONOSUPPORT));
}

#[test]
fn socket_validation_covers_every_family() {
    assert!(validate_socket(AF_INET6, SOCK_DGRAM, PROTO_PING).is_ok());
    assert!(validate_socket(AF_INET, SOCK_RAW, PROTO_PING).is_ok());
    assert_eq!(validate_socket(AF_INET, SOCK_RAW, PROTO_UDP), Err(EPROTONOSUPPORT));
    assert_eq!(validate_socket(AF_INET, SOCK_SEQPACKET, 0), Err(EINVAL));
    assert!(validate_socket(AF_UNIX, SOCK_SEQPACKET, 0).is_ok());
    assert_eq!(validate_unix_socket(SOCK_STREAM, 1), Err(EPROTONOSUPPORT));
    assert_eq!(validate_unix_socket(SOCK_RAW, 0), Err(EINVAL));
    assert!(validate_socket(AF_PACKET, 99, 7).is_ok());
    assert!(validate_socket(AF_NETLINK, SOCK_RAW, 9).is_ok());
    assert_eq!(initial_local_addr(AF_NETLINK), Some(SockAddr::Netlink { pid: 0, groups: 0 }));
    assert_eq!(initial_local_addr(AF_INET), None);
}

#[test]
fn listen_requires_a_bound_connection_socket() {
    assert_eq!(listen_state(AF_INET, SOCK_STREAM, SocketState::Bound), Ok(SocketState::Listening));
    assert_eq!(listen_state(AF_INET, SOCK_STREAM, SocketState::Created), Err(EINVAL));
    assert_eq!(listen_state(AF_INET, SOCK_DGRAM, SocketState::Bound), Err(EINVAL));
    assert_eq!(listen_state(AF_NETLINK, SOCK_DGRAM, SocketState::Created), Ok(SocketState::Listening));
}

#[test]
fn socket_and_accept_flags_split_type_and_file_bits() {
    let spec = parse_socket_type((SOCK_STREAM as u32 | SOCK_NONBLOCK | SOCK_CLOEXEC) as i32).unwrap();
    assert_eq!(spec, SocketTypeSpec { kind: SOCK_STREAM, file_flags: O_RDWR | O_NONBLOCK, cloexec: true });
    let plain = parse_socket_type(SOCK_DGRAM as i32).unwrap();
    assert_eq!(plain, SocketTypeSpec { kind: SOCK_DGRAM, file_flags: O_RDWR, cloexec: false });
    assert_eq!(parse_socket_type(SOCK_STREAM as i32 | 0x100), Err(EINVAL));
    assert_eq!(parse_accept_flags(0), Ok((O_RDWR, false)));
    assert_eq!(parse_accept_flags(0x10), Err(EINVAL));
}

#[test]
fn ephemeral_ports_wrap_inside_their_range() {
    assert_eq!(ephemeral_port(0), 32768);
    assert_eq!(ephemeral_port(28231), 60999);
    assert_eq!(ephemeral_port(28232), 32768);
}

#[test]
fn loopback_destinations_are_recognised() {
    assert!(inet_loopback_dest(&SockAddr::Inet { addr: ipv4(127, 1, 2, 3), port: 1 }));
    assert!(!inet_loopback_dest(&SockAddr::Inet { addr: ipv4(10, 0, 2, 15), port: 1 }));
    let mut one = [0u8; 16];
    one[15] = 1;
    assert!(inet_loopback_dest(&SockAddr::Inet6 { addr: one, port: 0 }));
    one[0] = 1;
    assert!(!inet_loopback_dest(&SockAddr::Inet6 { addr: one, port: 0 }));
    assert!(!inet_loopback_dest(&SockAddr::Unix(String::from("/tmp/x"))));
}

#[test]
fn sockaddr_in_round_trip_uses_network_byte_order() {
    let raw = LinuxSockAddrIn {
        family: AF_INET,
        port: 8080u16.to_be(),
        addr: u32::from_ne_bytes(ipv4(127, 0, 0, 1).to_be_bytes()),
        zero: [0; 8],
    };
    let bytes = raw.to_bytes();
    assert_eq!(bytes, sockaddr_in(8080, ipv4(127, 0, 0, 1)).to_vec());
    let parsed = parse_sockaddr(&bytes).unwrap();
    assert_eq!(parsed, SockAddr::Inet { addr: ipv4(127, 0, 0, 1), port: 8080 });
    assert_eq!(sockaddr_bytes(&parsed).unwrap(), bytes);
}

#[test]
fn sockaddr_in_read_accepts_unaligned_user_buffer() {
    let raw = LinuxSockAddrIn {
        family: AF_INET,
        port: 53u16.to_be(),
        addr: u32::from_ne_bytes(ipv4(10, 0, 2, 3).to_be_bytes()),
        zero: [0; 8],
    };
    let mut bytes = [0u8; SOCKADDR_IN_LEN + 1];
    bytes[1..].copy_from_slice(&raw.to_bytes());
    let parsed = parse_sockaddr(&bytes[1..]).unwrap();
    assert_eq!(parsed, SockAddr::Inet { addr: ipv4(10, 0, 2, 3), port: 53 });
}

#[test]
fn sockaddr_forms_of_every_family_round_trip() {
    let six = SockAddr::Inet6 { addr: [7; 16], port: 443 };
    let raw6 = sockaddr_bytes(&six).unwrap();
    assert_eq!(raw6.len(), 28);
    assert_eq!(&raw6[2..4], &[0x01, 0xbb]);
    assert_eq!(parse_sockaddr(&raw6), Ok(six));
    assert_eq!(parse_sockaddr(&raw6[..27]), Err(EINVAL));

    let nl = SockAddr::Netlink { pid: 0x1234, groups: 1 };
    let raw_nl = sockaddr_bytes(&nl).unwrap();
    assert_eq!(raw_nl.len(), 12);
    assert_eq!(parse_sockaddr(&raw_nl), Ok(nl));

    let path = SockAddr::Unix(String::from("/run/sock"));
    let raw_unix = sockaddr_bytes(&path).unwrap();
    assert_eq!(raw_unix.len(), 2 + 9 + 1);
    assert_eq!(*raw_unix.last().unwrap(), 0);
    assert_eq!(parse_sockaddr(&raw_unix), Ok(path));

    let abstract_name = SockAddr::Unix(String::from("\0hidden"));
    let raw_abs = sockaddr_bytes(&abstract_name).unwrap();
    assert_eq!(raw_abs.len(), 2 + 7);
    assert_eq!(parse_sockaddr(&raw_abs), Ok(abstract_name));

    let unnamed = sockaddr_bytes(&SockAddr::Unix(String::new())).unwrap();
    assert_eq!(unnamed, AF_UNIX.to_ne_bytes().to_vec());
    assert_eq!(parse_sockaddr(&unnamed), Err(EINVAL));

    let mut pkt = [0u8; 16];
    pkt[0..2].copy_from_slice(&AF_PACKET.to_ne_bytes());
    pkt[2..4].copy_from_slice(&0x0800u16.to_be_bytes());
    pkt[4..8].copy_from_slice(&3u32.to_ne_bytes());
    assert_eq!(parse_sockaddr(&pkt), Ok(SockAddr::Packet { ifindex: 3, protocol: 0x0800 }));
    assert_eq!(sockaddr_bytes(&SockAddr::Packet { ifindex: 3, protocol: 0x0800 }), Err(EINVAL));

    let mut bad_utf8 = vec![0u8; 4];
    bad_utf8[0..2].copy_from_slice(&AF_UNIX.to_ne_bytes());
    bad_utf8[2] = 0xff;
    assert_eq!(parse_sockaddr(&bad_utf8), Err(EINVAL));
    assert_eq!(parse_sockaddr(&[2]), Err(EINVAL));
    assert_eq!(parse_sockaddr(&[99, 0, 0, 0]), Err(EINVAL));
}

#[test]
fn sockaddr_copy_truncates_but_reports_full_length() {
    let raw = [1u8, 2, 3, 4, 5];
    let mut out = [9u8; 8];
    let mut len = 3u32;
    assert_eq!(copy_sockaddr_with_kernel_len(&raw, &mut out, &mut len), Ok(()));
    assert_eq!(len, 5);
    assert_eq!(out, [1, 2, 3, 9, 9, 9, 9, 9]);

    let mut neg = u32::MAX;
    assert_eq!(copy_sockaddr_with_kernel_len(&raw, &mut out, &mut neg), Err(EINVAL));
    assert_eq!(neg, u32::MAX);

    let mut small = [0u8; 2];
    let mut want = 5u32;
    assert_eq!(copy_sockaddr_with_kernel_len(&raw, &mut small, &mut want), Err(EFAULT));
    assert_eq!(want, 5);
    assert_eq!(small, [0, 0]);
}

#[test]
fn netlink_header_parse_checks_the_length_field() {
    let msg = netlink_payload_message(RTM_NEWLINK, 9, 4, b"abcde", NLM_F_MULTI);
    assert_eq!(msg.len(), 24);
    assert_eq!(u32::from_ne_bytes(msg[0..4].try_into().unwrap()), 21);
    let h = NetlinkHeader::parse(&msg).unwrap();
    assert_eq!(h, NetlinkHeader { len: 21, msg_type: RTM_NEWLINK, flags: NLM_F_MULTI, seq: 9, pid: 4 });
    assert_eq!(&msg[16..21], b"abcde");
    assert_eq!(&msg[21..], &[0, 0, 0]);
    assert_eq!(NetlinkHeader::parse(&msg[..15]), None);
    let mut short = msg.clone();
    short[0..4].copy_from_slice(&8u32.to_ne_bytes());
    assert_eq!(NetlinkHeader::parse(&short), None);
    short[0..4].copy_from_slice(&100u32.to_ne_bytes());
    assert_eq!(NetlinkHeader::parse(&short), None);
    assert_eq!(nlmsg_align(5), 8);
    assert_eq!(nlmsg_align(8), 8);
}

#[test]
fn rtnetlink_ack_layout_matches_linux_netlink_ack() {
    let mut req = vec![0u8; 32];
    req[0..4].copy_from_slice(&32u32.to_ne_bytes());
    req[4..6].copy_from_slice(&RTM_SETLINK.to_ne_bytes());
    req[6..8].copy_from_slice(&0x0005u16.to_ne_bytes());
    req[8..12].copy_from_slice(&0xCAFEu32.to_ne_bytes());

    let out = netlink_ack_message(&req, 0, 0);
    assert_eq!(out.len(), 36);
    let len = u32::from_ne_bytes(out[0..4].try_into().unwrap());
    let ty = u16::from_ne_bytes(out[4..6].try_into().unwrap());
    let seq = u32::from_ne_bytes(out[8..12].try_into().unwrap());
    let err = i32::from_ne_bytes(out[16..20].try_into().unwrap());
    assert_eq!(len, 36);
    assert_eq!(ty, NLMSG_ERROR);
    assert_eq!(seq, 0xCAFE);
    assert_eq!(err, 0);
    assert_eq!(&out[20..36], &req[..16]);
}

#[test]
fn netlink_error_and_done_messages_address_the_requester() {
    let mut req = vec![0u8; 16];
    req[8..12].copy_from_slice(&7u32.to_ne_bytes());
    let ack = netlink_ack_message(&req, -95, 0x4c55);
    assert_eq!(u32::from_ne_bytes(ack[12..16].try_into().unwrap()), 0x4c55);
    assert_eq!(i32::from_ne_bytes(ack[16..20].try_into().unwrap()), -95);
    let short = netlink_ack_message(&[1, 2, 3], -22, 5);
    assert_eq!(&short[8..16], &[0; 8]);
    assert_eq!(&short[20..36], &[0; 16]);
    let done = netlink_done_message(77, 3);
    assert_eq!(done.len(), 16);
    assert_eq!(u16::from_ne_bytes(done[4..6].try_into().unwrap()), NLMSG_DONE);
    assert_eq!(u16::from_ne_bytes(done[6..8].try_into().unwrap()), NLM_F_MULTI);
    assert_eq!(u32::from_ne_bytes(done[8..12].try_into().unwrap()), 77);
    assert_eq!(u32::from_ne_bytes(done[12..16].try_into().unwrap()), 3);
}

fn attr(packet: &[u8], kind: u16) -> Option<&[u8]> {
    let mut off = 32;
    while off + 4 <= packet.len() {
        let len = u16::from_ne_bytes([packet[off], packet[off + 1]]) as usize;
        let t = u16::from_ne_bytes([packet[off + 2], packet[off + 3]]);
        if t == kind {
            return Some(&packet[off + 4..off + len]);
        }
        off += (len + 3) & !3;
    }
    None
}

#[test]
fn link_messages_describe_the_device() {
    let lo = NetDevice { ifindex: 1, flags: 0x9, mtu: 65536, name: String::from("lo"), dev_addr: [0; 6] };
    let msg = build_rtnl_link_message(0x77, &lo, true, 0x4c55_504f);
    assert_eq!(u32::from_ne_bytes(msg[0..4].try_into().unwrap()) as usize, msg.len());
    assert_eq!(u16::from_ne_bytes(msg[4..6].try_into().unwrap()), RTM_NEWLINK);
    assert_eq!(u32::from_ne_bytes(msg[12..16].try_into().unwrap()), 0x4c55_504f);
    assert_eq!(u16::from_ne_bytes(msg[18..20].try_into().unwrap()), 772);
    assert_eq!(attr(&msg, IFLA_IFNAME), Some(&b"lo\0"[..]));
    assert_eq!(attr(&msg, IFLA_MTU), Some(&65536u32.to_ne_bytes()[..]));
    assert_eq!(attr(&msg, IFLA_CARRIER), Some(&[1u8][..]));
    assert_eq!(attr(&msg, IFLA_OPERSTATE), Some(&[IF_OPER_UP][..]));
    let eth = NetDevice { ifindex: 2, flags: 0x1, mtu: 1500, name: String::from("eth0"), dev_addr: [2, 0, 0, 0, 0, 9] };
    let msg = build_rtnl_link_message(1, &eth, false, 0);
    assert_eq!(u16::from_ne_bytes(msg[18..20].try_into().unwrap()), 1);
    assert_eq!(attr(&msg, IFLA_CARRIER), Some(&[0u8][..]));
    assert_eq!(attr(&msg, 50), Some(&68u32.to_ne_bytes()[..]));
    assert_eq!(attr(&msg, 51), Some(&0xffffu32.to_ne_bytes()[..]));
    let mut v = Vec::new();
    push_rta_bytes(&mut v, 3, b"abc", false);
    assert_eq!(v, vec![7, 0, 3, 0, b'a', b'b', b'c', 0]);
}

#[test]
fn audit_permissions_follow_message_types_and_groups() {
    assert_eq!(audit_netlink_required_cap(AUDIT_SET), Some(CAP_AUDIT_CONTROL));
    assert_eq!(audit_netlink_required_cap(AUDIT_USER), Some(CAP_AUDIT_WRITE));
    assert_eq!(audit_netlink_required_cap(1150), Some(CAP_AUDIT_WRITE));
    assert_eq!(audit_netlink_required_cap(2500), Some(CAP_AUDIT_WRITE));
    assert_eq!(audit_netlink_required_cap(AUDIT_GET), None);
    assert_eq!(audit_readlog_group_mask(), 1);
    let readlog = SockAddr::Netlink { pid: 0, groups: 1 };
    assert!(audit_netlink_readlog_addr_requires_cap(AF_NETLINK, 9, &readlog));
    assert!(!audit_netlink_readlog_addr_requires_cap(AF_NETLINK, 0, &readlog));
    assert!(audit_netlink_readlog_subscribed(AF_NETLINK, 9, &Some(readlog.clone())));
    assert!(!audit_netlink_readlog_subscribed(AF_NETLINK, 9, &Some(SockAddr::Netlink { pid: 0, groups: 2 })));
    assert!(kobject_uevent_subscribed(AF_NETLINK, 15, &Some(SockAddr::Netlink { pid: 0, groups: 2 })));
    assert!(!kobject_uevent_subscribed(AF_NETLINK, 15, &Some(SockAddr::Netlink { pid: 0, groups: 0 })));
    assert!(!kobject_uevent_subscribed(AF_NETLINK, 15, &None));
}

#[test]
fn qemu_dns_query_synthesizes_a_record() {
    let query = [
        0x12, 0x34, 0x01, 0x00, 0x00, 0x01, 0x00, 0x00, 0x00, 0x00, 0x00, 0x00, 7, b'e', b'x', b'a', b'm', b'p', b'l',
        b'e', 3, b'c', b'o', b'm', 0, 0x00, 0x01, 0x00, 0x01,
    ];
    let buf = build_dns_a_response(&query).unwrap();
    assert_eq!(&buf[0..2], &[0x12, 0x34]);
    assert_eq!(&buf[6..8], &[0x00, 0x01]);
    assert!(buf.ends_with(&[93, 184, 216, 34]));
}

#[test]
fn dns_answers_only_well_formed_single_questions() {
    let mut query = vec![0xab, 0xcd, 0x01, 0x00, 0x00, 0x01, 0, 0, 0, 0, 0, 0, 1, b'a', 0, 0x00, 0x1c, 0x00, 0x01];
    let aaaa = build_dns_a_response(&query).unwrap();
    assert_eq!(&aaaa[2..4], &[0x81, 0x80]);
    assert_eq!(&aaaa[6..8], &[0, 0]);
    assert_eq!(aaaa.len(), 12 + 7);
    query[5] = 2;
    assert_eq!(build_dns_a_response(&query), None);
    query[5] = 1;
    query[12] = 0xc0;
    assert_eq!(build_dns_a_response(&query), None);
    assert_eq!(build_dns_a_response(&query[..11]), None);
    let truncated = [0u8, 1, 1, 0, 0, 1, 0, 0, 0, 0, 0, 0, 0, 0, 1];
    assert_eq!(build_dns_a_response(&truncated), None);
}

#[test]
fn icmp_echo_to_external_peer_synthesizes_reply() {
    let mut echo = Vec::from([8, 0, 0, 0, 0x12, 0x34, 0x00, 0x01, b'p', b'i', b'n', b'g']);
    let csum = checksum(&echo);
    echo[2..4].copy_from_slice(&csum.to_be_bytes());

    let buf = build_icmp_echo_reply(&echo).unwrap();
    assert_eq!(buf[0], 0);
    assert_eq!(&buf[4..], &echo[4..]);
    // A packet that carries its own checksum sums to zero.
    assert_eq!(checksum(&buf), 0);
    assert_eq!(build_icmp_echo_reply(&[0, 0, 0, 0, 0, 0, 0, 0]), None);
    assert_eq!(build_icmp_echo_reply(&[8, 0, 0]), None);
}

#[test]
fn parse_scm_rights_accepts_scm_max_fd() {
    let control = build_scm_rights_control(SCM_MAX_FD);
    let parsed = parse_sendmsg_control(&control).unwrap();
    let fds = parsed.scm_fds;
    assert_eq!(fds.len(), SCM_MAX_FD);
    assert_eq!(fds[0], 0);
    assert_eq!(fds[SCM_MAX_FD - 1], (SCM_MAX_FD - 1) as i32);
}

#[test]
fn parse_scm_rights_rejects_more_than_scm_max_fd() {
    let control = build_scm_rights_control(SCM_MAX_FD + 1);
    assert!(matches!(parse_sendmsg_control(&control), Err(EINVAL)));
}

#[test]
fn parse_scm_rights_rejects_aggregate_fd_count_above_cap() {
    let first = build_scm_rights_control(SCM_MAX_FD - 1);
    let second = build_scm_rights_control(2);
    let mut control = vec![0u8; first.len() + second.len()];
    control[..first.len()].copy_from_slice(&first);
    control[first.len()..].copy_from_slice(&second);
    assert!(matches!(parse_sendmsg_control(&control), Err(EINVAL)));
}

#[test]
fn parse_scm_rights_rejects_excessive_control_len_before_allocating() {
    let first = build_scm_rights_control(1);
    let mut control = vec![0u8; SCM_MAX_CONTROL_LEN + 1];
    control[..first.len()].copy_from_slice(&first);
    assert!(matches!(parse_sendmsg_control(&control), Err(EINVAL)));
}

#[test]
fn parse_scm_rights_rejects_wrapping_cmsg_arithmetic() {
    let mut control = vec![0u8; CMSG_HDR_LEN];
    control[..8].copy_from_slice(&u64::MAX.to_ne_bytes());
    control[8..12].copy_from_slice(&SOL_SOCKET.to_ne_bytes());
    control[12..16].copy_from_slice(&SCM_RIGHTS.to_ne_bytes());
    assert!(matches!(parse_sendmsg_control(&control), Err(EINVAL)));
    assert_eq!(cmsg_align(usize::MAX), usize::MAX);
}

#[test]
fn parse_sendmsg_control_accepts_ipv4_pktinfo_and_ttl() {
    let mut control = pktinfo_cmsg(7, ipv4(10, 0, 2, 15).to_be_bytes());
    let ttl_len = CMSG_HDR_LEN + 4;
    let mut ttl = vec![0u8; cmsg_align(ttl_len)];
    ttl[..8].copy_from_slice(&(ttl_len as u64).to_ne_bytes());
    ttl[8..12].copy_from_slice(&SOL_IP.to_ne_bytes());
    ttl[12..16].copy_from_slice(&IP_TTL.to_ne_bytes());
    ttl[16..20].copy_from_slice(&61i32.to_ne_bytes());
    control.extend_from_slice(&ttl);

    let parsed = parse_sendmsg_control(&control).unwrap();
    assert!(parsed.scm_fds.is_empty());
    assert_eq!(
        parsed.inet_meta,
        Some(PacketMeta { ifindex: 7, local_inet_addr: Some(ipv4(10, 0, 2, 15)), ttl: Some(61), netlink_group: 0 })
    );
}

#[test]
fn parse_sendmsg_control_combines_scm_rights_and_pktinfo() {
    let mut control = build_scm_rights_control(2);
    control.extend_from_slice(&pktinfo_cmsg(3, [0; 4]));
    let parsed = parse_sendmsg_control(&control).unwrap();
    assert_eq!(parsed.scm_fds, vec![0, 1]);
    assert_eq!(parsed.inet_meta, Some(PacketMeta { ifindex: 3, ..PacketMeta::default() }));
}

#[test]
fn parse_sendmsg_control_reads_credentials_and_rejects_bad_sizes() {
    let len = CMSG_HDR_LEN + 12;
    let mut c = vec![0u8; cmsg_align(len)];
    c[..8].copy_from_slice(&(len as u64).to_ne_bytes());
    c[8..12].copy_from_slice(&SOL_SOCKET.to_ne_bytes());
    c[12..16].copy_from_slice(&SCM_CREDENTIALS.to_ne_bytes());
    c[16..20].copy_from_slice(&42i32.to_ne_bytes());
    c[20..24].copy_from_slice(&1000u32.to_ne_bytes());
    c[24..28].copy_from_slice(&100u32.to_ne_bytes());
    let parsed = parse_sendmsg_control(&c).unwrap();
    assert_eq!(parsed.scm_cred, Some(ScmCredentials { pid: 42, uid: 1000, gid: 100 }));
    c[..8].copy_from_slice(&((len - 4) as u64).to_ne_bytes());
    assert_eq!(parse_sendmsg_control(&c), Err(EINVAL));

    let mut bad_ttl = vec![0u8; 24];
    bad_ttl[..8].copy_from_slice(&20u64.to_ne_bytes());
    bad_ttl[8..12].copy_from_slice(&SOL_IP.to_ne_bytes());
    bad_ttl[12..16].copy_from_slice(&IP_TTL.to_ne_bytes());
    bad_ttl[16..20].copy_from_slice(&256i32.to_ne_bytes());
    assert_eq!(parse_sendmsg_control(&bad_ttl), Err(EINVAL));

    let mut odd_rights = build_scm_rights_control(1);
    odd_rights[..8].copy_from_slice(&18u64.to_ne_bytes());
    assert_eq!(parse_sendmsg_control(&odd_rights), Err(EINVAL));

    assert_eq!(parse_sendmsg_control(&[]), Ok(Default::default()));
    assert_eq!(parse_sendmsg_control(&[0u8; 15]), Ok(Default::default()));
}

fn packet(bytes: &[u8], fds: Vec<u32>) -> QueuedPacket<u32> {
    QueuedPacket {
        bytes: bytes.to_vec(),
        peer: Some(SockAddr::Netlink { pid: 0, groups: 0 }),
        fds,
        cred: SocketCred { pid: 1, uid: 2, gid: 3 },
    }
}

#[test]
fn recvmsg_peek_and_trunc_preserve_message_and_report_real_length() {
    let mut q: VecDeque<QueuedPacket<u32>> = VecDeque::new();
    q.push_back(packet(&[1u8; 40], vec![7]));
    q.push_back(packet(&[2u8; 16], vec![]));
    let mut empty: [u8; 0] = [];
    let (copied, _, fds, _, real_len) =
        recvmsg_full(&mut q, SOCK_RAW, SocketState::Created, PeerStatus::Unlinked, &mut empty, MSG_PEEK | MSG_TRUNC)
            .unwrap();
    assert_eq!(copied, 0);
    assert_eq!(real_len, 40);
    assert!(fds.is_empty());
    assert_eq!(q.len(), 2);

    let mut tiny = [0u8; 16];
    let (copied, peer, fds, cred, real_len_after) =
        recvmsg_full(&mut q, SOCK_RAW, SocketState::Created, PeerStatus::Unlinked, &mut tiny, 0).unwrap();
    assert_eq!(copied, tiny.len());
    assert_eq!(real_len_after, real_len);
    assert_eq!(fds, vec![7]);
    assert_eq!(peer, Some(SockAddr::Netlink { pid: 0, groups: 0 }));
    assert_eq!(cred, SocketCred { pid: 1, uid: 2, gid: 3 });

    let mut probe = [0u8; 256];
    let (_, _, _, _, next_len) =
        recvmsg_full(&mut q, SOCK_RAW, SocketState::Created, PeerStatus::Unlinked, &mut probe, MSG_PEEK | MSG_TRUNC)
            .unwrap();
    assert_ne!(next_len, real_len);
}

#[test]
fn stream_receives_keep_unread_bytes_and_end_at_hangup() {
    let mut q: VecDeque<QueuedPacket<u32>> = VecDeque::new();
    q.push_back(packet(b"abcdef", vec![9]));
    let mut out = [0u8; 4];
    let (n, _, fds, _, reported) =
        recvmsg_full(&mut q, SOCK_STREAM, SocketState::Connected, PeerStatus::Open(SocketState::Connected), &mut out, 0)
            .unwrap();
    assert_eq!((n, reported), (4, 4));
    assert_eq!(&out, b"abcd");
    assert_eq!(fds, vec![9]);
    assert_eq!(q.len(), 1);
    assert_eq!(q[0].bytes, b"ef".to_vec());
    assert!(q[0].fds.is_empty());
    let (n, ..) =
        recvmsg_full(&mut q, SOCK_STREAM, SocketState::Connected, PeerStatus::Open(SocketState::Connected), &mut out, 0)
            .unwrap();
    assert_eq!(n, 2);
    assert!(q.is_empty());
    assert_eq!(
        recvmsg_full(&mut q, SOCK_STREAM, SocketState::Connected, PeerStatus::Open(SocketState::Connected), &mut out, 0)
            .err(),
        Some(EAGAIN)
    );
    let (n, peer, _, cred, reported) =
        recvmsg_full(&mut q, SOCK_STREAM, SocketState::Connected, PeerStatus::Dropped, &mut out, 0).unwrap();
    assert_eq!((n, reported), (0, 0));
    assert_eq!(peer, None);
    assert_eq!(cred, SocketCred::default());
    assert!(stream_hangup_locked(SOCK_STREAM, SocketState::Closed, PeerStatus::Unlinked));
    assert!(stream_hangup_locked(SOCK_SEQPACKET, SocketState::Connected, PeerStatus::Open(SocketState::Closed)));
    assert!(!stream_hangup_locked(SOCK_STREAM, SocketState::Connected, PeerStatus::Busy));
    assert!(!stream_hangup_locked(SOCK_DGRAM, SocketState::Closed, PeerStatus::Dropped));
}

#[test]
fn inet_reuseaddr_requires_existing_socket_opt_in() {
    let victim = BoundSocket { id: 1, reuseaddr: false, family: AF_INET, sock_type: SOCK_DGRAM, protocol: 0 };
    let mut attacker_opts = SocketOptions::new(AF_INET, SOCK_DGRAM, 0);
    assert_eq!(setsockopt(&mut attacker_opts, SO_REUSEADDR, 1), Ok(()));
    let attacker =
        BoundSocket { id: 2, reuseaddr: attacker_opts.reuseaddr, family: AF_INET, sock_type: SOCK_DGRAM, protocol: 0 };
    assert_eq!(bind_conflict(attacker, &vec![victim]), Err(EADDRINUSE));
}

#[test]
fn address_sharing_needs_both_sides_to_agree() {
    let a = BoundSocket { id: 1, reuseaddr: true, family: AF_INET, sock_type: SOCK_DGRAM, protocol: 0 };
    let b = BoundSocket { id: 2, ..a };
    assert_eq!(bind_conflict(b, &vec![a]), Ok(()));
    assert_eq!(bind_conflict(a, &vec![a]), Ok(()));
    let c = BoundSocket { id: 3, sock_type: SOCK_STREAM, ..a };
    assert_eq!(bind_conflict(c, &vec![a, b]), Err(EADDRINUSE));
    assert_eq!(bind_conflict(c, &vec![]), Ok(()));
}

#[test]
fn unix_socket_plymouth_probe_shape() {
    let mut opts = SocketOptions::new(AF_UNIX, SOCK_STREAM, 0);
    assert_eq!(setsockopt(&mut opts, SO_PASSCRED, 1), Ok(()));
    assert_eq!(connect_action(AF_UNIX, SOCK_STREAM, &SockAddr::Unix(String::from("\0plymouth")), None), Err(ECONNREFUSED));
}

#[test]
fn connects_meet_listeners_or_are_refused() {
    let lo = SockAddr::Inet { addr: ipv4(127, 0, 0, 1), port: 22 };
    assert_eq!(connect_action(AF_INET, SOCK_STREAM, &lo, None), Err(ECONNREFUSED));
    assert_eq!(connect_action(AF_INET, SOCK_STREAM, &lo, Some(SocketState::Bound)), Err(ECONNREFUSED));
    assert_eq!(connect_action(AF_INET, SOCK_STREAM, &lo, Some(SocketState::Listening)), Ok(ConnectAction::Rendezvous));
    assert_eq!(connect_action(AF_INET, SOCK_DGRAM, &lo, None), Ok(ConnectAction::Direct));
    let far = SockAddr::Inet { addr: ipv4(93, 184, 216, 34), port: 80 };
    assert_eq!(connect_action(AF_INET, SOCK_STREAM, &far, None), Ok(ConnectAction::Direct));
    assert_eq!(wildcard_listener_addr(AF_INET, SOCK_STREAM, &lo), Some(SockAddr::Inet { addr: 0, port: 22 }));
    assert_eq!(wildcard_listener_addr(AF_INET, SOCK_DGRAM, &lo), None);
    assert_eq!(accepted_local_addr(AF_INET, &lo, &None), Some(lo.clone()));
    let path = Some(SockAddr::Unix(String::from("/run/l")));
    assert_eq!(accepted_local_addr(AF_UNIX, &lo, &path), path);
    let mut backlog: VecDeque<u32> = VecDeque::new();
    assert_eq!(accept4(SocketState::Bound, &mut backlog), Err(EINVAL));
    assert_eq!(accept4(SocketState::Listening, &mut backlog), Err(EAGAIN));
    backlog.push_back(5);
    backlog.push_back(6);
    assert_eq!(accept4(SocketState::Listening, &mut backlog), Ok(5));
    assert_eq!(backlog.len(), 1);
    assert_eq!(socketpair_check(AF_INET, SOCK_STREAM, 0), Err(EAFNOSUPPORT));
    assert_eq!(socketpair_check(AF_UNIX, SOCK_STREAM, 0), Ok(()));
    assert_eq!(sendto_fds(&SockAddr::Unix(String::from("/x")), vec![1, 2]), vec![1, 2]);
    assert!(sendto_fds(&lo, vec![1, 2]).is_empty());
}

#[test]
fn journald_unix_socket_options_match_linux_core_sockopt() {
    let mut sock = SocketOptions::new(AF_UNIX, SOCK_DGRAM, 0);

    assert_eq!(setsockopt(&mut sock, SO_PASSCRED, 1), Ok(()));
    assert_eq!(getsockopt(&sock, SO_PASSCRED), Ok(1));
    assert_eq!(setsockopt(&mut sock, SO_SNDBUFFORCE, 8 * 1024 * 1024), Ok(()));
    assert_eq!(getsockopt(&sock, SO_SNDBUFFORCE), Ok(212_992));
    assert_eq!(setsockopt(&mut sock, SO_RCVBUFFORCE, 8 * 1024 * 1024), Ok(()));
    assert_eq!(getsockopt(&sock, SO_RCVBUFFORCE), Ok(212_992));
    assert_eq!(setsockopt(&mut sock, SO_PASSRIGHTS, 0), Ok(()));
    assert_eq!(getsockopt(&sock, SO_PASSRIGHTS), Ok(0));
    assert_eq!(setsockopt(&mut sock, SO_TIMESTAMP_OLD, 1), Ok(()));
    assert_eq!(getsockopt(&sock, SO_TIMESTAMP_OLD), Ok(1));
    assert_eq!(setsockopt(&mut sock, SO_TIMESTAMP_NEW, 1), Ok(()));
    assert_eq!(getsockopt(&sock, SO_TIMESTAMP_NEW), Ok(1));

    let mut inet = SocketOptions::new(AF_INET, SOCK_DGRAM, PROTO_UDP);
    assert_eq!(get_recv_ttl(&inet), Ok(0));
    assert_eq!(set_recv_ttl(&mut inet, 1), Ok(()));
    assert_eq!(get_recv_ttl(&inet), Ok(1));
}

#[test]
fn passsec_reports_unsupported_without_security_network() {
    let mut sock = SocketOptions::new(AF_UNIX, SOCK_DGRAM, 0);
    assert_eq!(setsockopt(&mut sock, SO_PASSSEC, 1), Err(EOPNOTSUPP));
}

#[test]
fn socket_options_report_identity_and_reject_the_unknown() {
    let mut s = SocketOptions::new(AF_INET6, SOCK_STREAM, PROTO_TCP);
    assert_eq!(getsockopt(&s, SO_TYPE), Ok(SOCK_STREAM as u32));
    assert_eq!(getsockopt(&s, SO_DOMAIN), Ok(AF_INET6 as u32));
    assert_eq!(getsockopt(&s, SO_ACCEPTCONN), Ok(0));
    s.state = SocketState::Listening;
    assert_eq!(getsockopt(&s, SO_ACCEPTCONN), Ok(1));
    assert_eq!(getsockopt(&s, SO_PASSRIGHTS), Err(EOPNOTSUPP));
    assert_eq!(getsockopt(&s, 999), Err(EINVAL));
    assert_eq!(setsockopt(&mut s, 999, 1), Ok(()));
    assert_eq!(setsockopt(&mut s, SO_PASSRIGHTS, 1), Err(EOPNOTSUPP));
    assert_eq!(set_recv_ttl(&mut s, 1), Err(EINVAL));
    assert_eq!(get_recv_ttl(&s), Err(EINVAL));
    let mut u = SocketOptions::new(AF_UNIX, SOCK_STREAM, 0);
    assert_eq!(setsockopt(&mut u, 999, 1), Err(EINVAL));
    setsockopt(&mut u, SO_TIMESTAMP_OLD, 1).unwrap();
    setsockopt(&mut u, SO_TIMESTAMP_NEW, 1).unwrap();
    assert_eq!(getsockopt(&u, SO_TIMESTAMP_OLD), Ok(0));
}

#[test]
fn iovec_gather_scatter_round_trip() {
    let iov = vec![b"ab".to_vec(), b"cd".to_vec()];
    let bytes = copy_iov_bytes(&iov).unwrap();
    assert_eq!(&bytes, b"abcd");

    let mut oiov = vec![vec![0u8; 4]];
    assert_eq!(scatter_iov_bytes(&mut oiov, b"wxyz"), 4);
    assert_eq!(&oiov[0], b"wxyz");
}

#[test]
fn iov_total_bytes_rejects_oversized_iovlen() {
    let lens = vec![0usize; UIO_MAXIOV + 1];
    assert_eq!(iov_total_bytes(&lens), Err(EINVAL));
}

#[test]
fn iov_total_bytes_copies_bounded_iovec_metadata() {
    assert_eq!(iov_total_bytes(&[2, 3]), Ok(5));
    assert_eq!(iov_total_bytes(&[usize::MAX, 3]), Ok(usize::MAX));
}

#[test]
fn iovec_zero_length_segments_may_have_null_base() {
    let iov = vec![Vec::new(), b"ab".to_vec()];
    let bytes = copy_iov_bytes(&iov).unwrap();
    assert_eq!(&bytes, b"ab");

    let mut oiov = vec![Vec::new(), vec![0u8; 2]];
    assert_eq!(scatter_iov_bytes(&mut oiov, b"xy"), 2);
    assert_eq!(&oiov[1], b"xy");
}

#[test]
fn scatter_stops_when_the_bytes_run_out_and_gather_caps_the_total() {
    let mut oiov = vec![vec![9u8; 3], vec![9u8; 3], vec![9u8; 2]];
    assert_eq!(scatter_iov_bytes(&mut oiov, b"abcd"), 4);
    assert_eq!(oiov, vec![b"abc".to_vec(), vec![b'd', 9, 9], vec![9, 9]]);
    let big = vec![vec![0u8; MAX_RW], vec![1u8]];
    assert_eq!(copy_iov_bytes(&big), Err(EINVAL));
    let exact = vec![vec![0u8; MAX_RW - 1], vec![1u8]];
    assert_eq!(copy_iov_bytes(&exact).unwrap().len(), MAX_RW);
}

#[test]
fn control_messages_fit_whole_or_not_at_all() {
    let data = scm_rights_payload(&[3, 4]);
    assert_eq!(data, vec![3, 0, 0, 0, 4, 0, 0, 0]);
    let placed = place_cmsg(true, 64, 0, SOL_SOCKET, SCM_RIGHTS, &data);
    assert!(!placed.truncated);
    assert_eq!(placed.next, 24);
    assert_eq!(u64::from_ne_bytes(placed.bytes[0..8].try_into().unwrap()), 24);
    assert_eq!(i32::from_ne_bytes(placed.bytes[8..12].try_into().unwrap()), SOL_SOCKET);
    assert_eq!(i32::from_ne_bytes(placed.bytes[12..16].try_into().unwrap()), SCM_RIGHTS);
    assert_eq!(&placed.bytes[16..], &data[..]);
    let full = place_cmsg(true, 30, 10, SOL_SOCKET, SCM_RIGHTS, &data);
    assert!(full.truncated);
    assert_eq!((full.next, full.bytes.len()), (10, 0));
    let nobuf = place_cmsg(false, 64, 0, SOL_SOCKET, SCM_RIGHTS, &data);
    assert!(nobuf.truncated);
    let cred = ucred_payload(SocketCred { pid: 7, uid: 8, gid: 9 });
    assert_eq!(cred, vec![7, 0, 0, 0, 8, 0, 0, 0, 9, 0, 0, 0]);
    let info = ipv4_pktinfo_payload(PacketMeta { ifindex: 2, local_inet_addr: Some(ipv4(10, 0, 2, 15)), ..PacketMeta::default() });
    assert_eq!(info, vec![2, 0, 0, 0, 10, 0, 2, 15, 10, 0, 2, 15]);
    let none = ipv4_pktinfo_payload(PacketMeta::default());
    assert_eq!(none, vec![0; 12]);
}

#[test]
fn poll_masks_follow_socket_state() {
    let base = PollState {
        state: SocketState::Connected,
        sock_type: SOCK_STREAM,
        recvq_empty: true,
        backlog_empty: true,
        shutdown: 0,
        hung_up: false,
        pending_error: false,
    };
    assert_eq!(socket_poll_mask(base), POLLOUT | POLLWRNORM);
    assert_eq!(socket_poll_mask(PollState { recvq_empty: false, ..base }), POLLIN | POLLRDNORM | POLLOUT | POLLWRNORM);
    assert_eq!(
        socket_poll_mask(PollState { hung_up: true, ..base }),
        POLLIN | POLLRDNORM | POLLOUT | POLLWRNORM | POLLRDHUP | POLLHUP
    );
    let listener = PollState { state: SocketState::Listening, ..base };
    assert_eq!(socket_poll_mask(listener), 0);
    assert_eq!(socket_poll_mask(PollState { backlog_empty: false, ..listener }), POLLIN | POLLRDNORM);
    let dgram = PollState { state: SocketState::Bound, sock_type: SOCK_DGRAM, ..base };
    assert_eq!(socket_poll_mask(dgram), POLLOUT | POLLWRNORM);
    assert_eq!(
        socket_poll_mask(PollState { shutdown: SHUTDOWN_MASK, ..dgram }),
        POLLIN | POLLRDNORM | POLLOUT | POLLWRNORM | POLLRDHUP | POLLHUP
    );
    assert_eq!(
        socket_poll_mask(PollState { shutdown: RCV_SHUTDOWN, pending_error: true, ..base }),
        POLLIN | POLLRDNORM | POLLOUT | POLLWRNORM | POLLRDHUP | POLLERR
    );
}

#[test]
fn audit_status_records_read_back() {
    let status = AuditStatus { mask: 1, enabled: 1, failure: 2, pid: 77, rate_limit: 5, backlog: 9, ..AuditStatus::default() };
    let bytes = audit_status_to_bytes(status);
    assert_eq!(bytes.len(), 44);
    assert_eq!(audit_status_from_payload(&bytes, 1234), status);
    let ask_pid = AuditStatus { mask: 4, pid: 0, ..AuditStatus::default() };
    assert_eq!(audit_status_from_payload(&audit_status_to_bytes(ask_pid), 1234).pid, 1234);
    assert_eq!(audit_status_from_payload(&[3, 0, 0, 0], 9), AuditStatus { mask: 3, ..AuditStatus::default() });
    assert_eq!(audit_features_to_bytes(), vec![1, 0, 0, 0, 0, 0, 0, 0, 0, 0, 0, 0, 0, 0, 0, 0]);
}

#[test]
fn audit_records_go_to_log_readers_and_the_daemon() {
    let reader = Some(SockAddr::Netlink { pid: 40, groups: 1 });
    let daemon = Some(SockAddr::Netlink { pid: 77, groups: 0 });
    let other = Some(SockAddr::Netlink { pid: 78, groups: 2 });
    assert!(audit_record_listener(AF_NETLINK, NETLINK_AUDIT, &reader, 0));
    assert!(audit_record_listener(AF_NETLINK, NETLINK_AUDIT, &daemon, 77));
    assert!(!audit_record_listener(AF_NETLINK, NETLINK_AUDIT, &daemon, 0));
    assert!(!audit_record_listener(AF_NETLINK, NETLINK_AUDIT, &other, 77));
    assert!(!audit_record_listener(AF_NETLINK, 0, &reader, 40));
    assert!(!audit_record_listener(AF_NETLINK, NETLINK_AUDIT, &None, 77));
}
