use lupos_net::errno::{EINVAL, EOPNOTSUPP, EPERM};
use lupos_net::ip::ipv4;
use lupos_net::socket::{
    audit_netlink_reply, audit_user_text, netlink_autobind_plan, netlink_with_pid, parse_sendmsg_control,
    NetlinkAutobind, connect_autobinds, connect_ends, recvmsg_control_layout,
    recvmsg_control_plan, recvmsg_out_flags, AuditStep, CmsgItem, CmsgKind, ConnectAction, ConnectEnd,
    ConnectListener, NetlinkHeader, PacketMeta, SockAddr, SocketCred, SocketOptions, SocketState, AF_INET,
    AF_NETLINK, AF_UNIX, AUDIT_GET, AUDIT_LIST_RULES, AUDIT_SET, AUDIT_USER, MSG_CTRUNC, MSG_TRUNC, SCM_RIGHTS,
    SOCK_DGRAM, SOCK_STREAM, SOL_SOCKET,
};

fn audit_request(msg_type: u16, flags: u16, payload: &[u8]) -> Vec<u8> {
    let len = 16 + payload.len();
    let mut b = Vec::new();
    b.extend_from_slice(&(len as u32).to_ne_bytes());
    b.extend_from_slice(&msg_type.to_ne_bytes());
    b.extend_from_slice(&flags.to_ne_bytes());
    b.extend_from_slice(&7u32.to_ne_bytes());
    b.extend_from_slice(&0u32.to_ne_bytes());
    b.extend_from_slice(payload);
    b
}

#[test]
fn audit_reply_acks_queries_before_answering() {
    let get = audit_request(AUDIT_GET, 0x4, &[]);
    assert_eq!(audit_netlink_reply(&get, false, false, 9), vec![AuditStep::Reply(0), AuditStep::StatusReply]);
    let list = audit_request(AUDIT_LIST_RULES, 0, &[]);
    assert_eq!(audit_netlink_reply(&list, false, false, 9), vec![AuditStep::Done]);
}

#[test]
fn audit_reply_refuses_missing_capabilities_and_unknown_types() {
    let set = audit_request(AUDIT_SET, 0x4, &[0; 44]);
    assert_eq!(audit_netlink_reply(&set, false, true, 9), vec![AuditStep::Reply(-EPERM)]);
    let user = audit_request(AUDIT_USER, 0x4, b"hi\0");
    assert_eq!(audit_netlink_reply(&user, true, false, 9), vec![AuditStep::Reply(-EPERM)]);
    let odd = audit_request(1500, 0x4, &[]);
    assert_eq!(audit_netlink_reply(&odd, true, true, 9), vec![AuditStep::Reply(-EOPNOTSUPP)]);
    assert_eq!(audit_netlink_reply(&[1, 2, 3], false, true, 9), vec![AuditStep::LogPlaceholder, AuditStep::Reply(0)]);
    assert_eq!(audit_netlink_reply(&[1, 2, 3], false, false, 9), vec![AuditStep::Reply(-EPERM)]);
}

#[test]
fn audit_set_applies_status_naming_the_socket_as_daemon() {
    let mut payload = vec![0u8; 44];
    payload[0..4].copy_from_slice(&0x4u32.to_ne_bytes());
    let set = audit_request(AUDIT_SET, 0x4, &payload);
    let steps = audit_netlink_reply(&set, true, false, 9);
    assert_eq!(steps.len(), 2);
    match steps[0] {
        AuditStep::ApplyStatus(s) => {
            assert_eq!(s.mask, 4);
            assert_eq!(s.pid, 9);
        }
        _ => panic!("expected a status change"),
    }
    assert_eq!(steps[1], AuditStep::Reply(0));
}

#[test]
fn audit_user_text_stops_at_nul_and_falls_back_on_bad_utf8() {
    let user = audit_request(AUDIT_USER, 0, b"login ok\0junk");
    let h = NetlinkHeader::parse(&user).unwrap();
    assert_eq!(audit_user_text(&user, &h), "login ok");
    let bad = audit_request(AUDIT_USER, 0, &[0xff, 0xfe]);
    let h = NetlinkHeader::parse(&bad).unwrap();
    assert_eq!(audit_user_text(&bad, &h), "netlink-audit");
    let steps = audit_netlink_reply(&user, false, true, 1);
    assert_eq!(steps, vec![AuditStep::LogUserText]);
}

#[test]
fn recvmsg_plan_orders_control_messages() {
    let mut opts = SocketOptions::new(AF_INET, SOCK_DGRAM, 0);
    opts.passcred = true;
    opts.recv_ttl = true;
    let peer = Some(SockAddr::Inet { addr: ipv4(10, 0, 2, 2), port: 53 });
    let meta = PacketMeta { ifindex: 2, local_inet_addr: Some(ipv4(10, 0, 2, 15)), ttl: Some(64), netlink_group: 0 };
    assert_eq!(
        recvmsg_control_plan(&opts, true, true, &peer, &meta, 2),
        vec![CmsgKind::Credentials, CmsgKind::Ipv4Pktinfo, CmsgKind::Ttl, CmsgKind::Rights]
    );
    assert_eq!(recvmsg_control_plan(&opts, true, false, &peer, &meta, 0), vec![]);
    let nl = SocketOptions::new(AF_NETLINK, SOCK_DGRAM, 0);
    let nl_peer = Some(SockAddr::Netlink { pid: 0, groups: 1 });
    assert_eq!(recvmsg_control_plan(&nl, true, true, &nl_peer, &meta, 0), vec![CmsgKind::NetlinkPktinfo]);
}

#[test]
fn recvmsg_layout_drops_what_does_not_fit() {
    let items = vec![
        CmsgItem { level: SOL_SOCKET, kind: SCM_RIGHTS, data: vec![1, 0, 0, 0] },
        CmsgItem { level: SOL_SOCKET, kind: SCM_RIGHTS, data: vec![0; 40] },
        CmsgItem { level: SOL_SOCKET, kind: SCM_RIGHTS, data: vec![2, 0, 0, 0] },
    ];
    let layout = recvmsg_control_layout(true, 48, &items);
    assert!(layout.truncated);
    assert_eq!(layout.writes.len(), 2);
    assert_eq!(layout.writes[0].offset, 0);
    assert_eq!(layout.writes[0].bytes.len(), 20);
    assert_eq!(layout.writes[1].offset, 24);
    assert_eq!(layout.written, 48);
    let none = recvmsg_control_layout(false, 64, &items);
    assert!(none.truncated && none.writes.is_empty() && none.written == 0);
}

#[test]
fn recvmsg_flags_report_truncation() {
    assert_eq!(recvmsg_out_flags(10, 4, false), MSG_TRUNC);
    assert_eq!(recvmsg_out_flags(4, 4, true), MSG_CTRUNC);
    assert_eq!(recvmsg_out_flags(10, 4, true), MSG_TRUNC | MSG_CTRUNC);
    assert_eq!(recvmsg_out_flags(4, 10, false), 0);
}

#[test]
fn connect_rendezvous_builds_both_ends() {
    let opts = SocketOptions::new(AF_INET, SOCK_STREAM, 0);
    let end = ConnectEnd { opts, local: None, peer: None, peer_cred: None };
    let peer = SockAddr::Inet { addr: ipv4(127, 0, 0, 1), port: 80 };
    assert!(connect_autobinds(&end, &peer, ConnectAction::Rendezvous));
    let mut lopts = SocketOptions::new(AF_INET, SOCK_STREAM, 0);
    lopts.state = SocketState::Listening;
    lopts.passcred = true;
    let lcred = SocketCred { pid: 5, uid: 6, gid: 7 };
    let listener = ConnectListener { opts: lopts, local: Some(SockAddr::Inet { addr: 0, port: 80 }), cred: lcred };
    let eph = SockAddr::Inet { addr: ipv4(10, 0, 2, 15), port: 40000 };
    let ccred = SocketCred { pid: 1, uid: 2, gid: 3 };
    let (c, s) = connect_ends(
        end,
        &peer,
        ConnectAction::Rendezvous,
        Some(eph.clone()),
        Some(listener),
        SocketOptions::new(AF_INET, SOCK_STREAM, 0),
        ccred,
    )
    .unwrap();
    assert_eq!(c.opts.state, SocketState::Connected);
    assert_eq!(c.local, Some(eph.clone()));
    assert_eq!(c.peer, Some(peer.clone()));
    assert_eq!(c.peer_cred, Some(lcred));
    let s = s.unwrap();
    assert_eq!(s.opts.state, SocketState::Connected);
    assert!(s.opts.passcred);
    assert_eq!(s.local, Some(peer.clone()));
    assert_eq!(s.peer, Some(eph));
    assert_eq!(s.peer_cred, Some(ccred));
}

#[test]
fn connect_direct_and_missing_listener() {
    let opts = SocketOptions::new(AF_UNIX, SOCK_DGRAM, 0);
    let end = ConnectEnd { opts, local: None, peer: None, peer_cred: None };
    let peer = SockAddr::Unix(String::from("/run/log"));
    let lcred = SocketCred { pid: 9, uid: 0, gid: 0 };
    let listener = ConnectListener { opts, local: Some(peer.clone()), cred: lcred };
    let (c, s) = connect_ends(end, &peer, ConnectAction::Direct, None, Some(listener), opts, SocketCred::default()).unwrap();
    assert!(s.is_none());
    assert_eq!(c.local, None);
    assert_eq!(c.peer_cred, Some(lcred));
    let end = ConnectEnd { opts, local: None, peer: None, peer_cred: None };
    assert_eq!(
        connect_ends(end, &peer, ConnectAction::Rendezvous, None, None, opts, SocketCred::default()).err(),
        Some(EINVAL)
    );
}

#[test]
fn scm_rights_over_several_messages_keep_order() {
    let msg = |fds: &[i32]| {
        let len = 16 + 4 * fds.len();
        let mut m = Vec::new();
        m.extend_from_slice(&(len as u64).to_ne_bytes());
        m.extend_from_slice(&SOL_SOCKET.to_ne_bytes());
        m.extend_from_slice(&SCM_RIGHTS.to_ne_bytes());
        for fd in fds {
            m.extend_from_slice(&fd.to_ne_bytes());
        }
        while m.len() % 8 != 0 {
            m.push(0);
        }
        m
    };
    let mut control = msg(&[3, 4, 5]);
    control.extend(msg(&[9]));
    assert_eq!(parse_sendmsg_control(&control).unwrap().scm_fds, vec![3, 4, 5, 9]);
    let big: Vec<i32> = (0..200).collect();
    let mut over = msg(&big);
    over.extend(msg(&big[..54]));
    assert_eq!(parse_sendmsg_control(&over).err(), Some(EINVAL));
}

#[test]
fn netlink_autobind_prefers_the_process_id_when_free() {
    let any = SockAddr::Netlink { pid: 0, groups: 4 };
    assert_eq!(netlink_autobind_plan(AF_NETLINK, &any, 77, true), NetlinkAutobind::Preferred);
    assert_eq!(netlink_autobind_plan(AF_NETLINK, &any, 77, false), NetlinkAutobind::FromCounter);
    assert_eq!(netlink_autobind_plan(AF_NETLINK, &any, 0, true), NetlinkAutobind::FromCounter);
    assert_eq!(netlink_autobind_plan(AF_INET, &any, 77, true), NetlinkAutobind::Given);
    let fixed = SockAddr::Netlink { pid: 5, groups: 4 };
    assert_eq!(netlink_autobind_plan(AF_NETLINK, &fixed, 77, true), NetlinkAutobind::Given);
    assert_eq!(netlink_with_pid(&any, 77), SockAddr::Netlink { pid: 77, groups: 4 });
    let unix = SockAddr::Unix(String::from("/x"));
    assert_eq!(netlink_with_pid(&unix, 77), unix);
}

#[test]
fn audit_record_payload_names_the_sequence_number() {
    assert_eq!(lupos_net::socket::audit_record_payload(42, "type=USER msg=hi"), b"audit(42): type=USER msg=hi\0".to_vec());
    assert_eq!(lupos_net::socket::audit_record_payload(0, ""), b"audit(0): \0".to_vec());
}
