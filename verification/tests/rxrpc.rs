use lupos_net::errno::{EAFNOSUPPORT, EINVAL, EPROTO};
use lupos_net::ip::{build_ipv4_packet, build_ipv6_packet, ipv4, ETH_P_IP, ETH_P_IPV6, IPPROTO_UDP};
use lupos_net::rxrpc::call_state::{
    rxrpc_abort_call, rxrpc_call_completed, rxrpc_prefail_call, rxrpc_set_call_completion, RxrpcAbortReason, RxrpcCall,
    RxrpcCallCompletion, RxrpcCallState, RXRPC_CALL_EXPOSED, RXRPC_CALL_RELEASED, RX_CALL_DEAD,
};
use lupos_net::rxrpc::insecure::{
    none_alloc_txbuf, none_exit, none_init, none_init_connection_security, none_secure_packet,
    none_sendmsg_respond_to_challenge, none_validate_challenge, none_verify_packet, none_verify_response, rxrpc_no_security,
    RxrpcSecurity, RXRPC_JUMBO_DATALEN, RXRPC_SECURITY_NONE, RX_PROTOCOL_ERROR,
};
use lupos_net::rxrpc::local_event::{
    rxrpc_gen_version_string, rxrpc_send_version_request, RxrpcHostHeader, RxrpcSkbHeader, RXRPC_CLIENT_INITIATED,
    RXRPC_LAST_PACKET, RXRPC_PACKET_TYPE_VERSION, RXRPC_VERSION_STRING_SIZE,
};
use lupos_net::rxrpc::misc::{rxrpc_jumbo, rxrpc_tunable_defaults, RxrpcTunableDefaults};
use lupos_net::rxrpc::skbuff::{
    rxrpc_free_skb, rxrpc_get_skb, rxrpc_new_skb, rxrpc_purge_queue, rxrpc_see_skb, RxrpcSkBuff, RxrpcSkbAccounting,
    RxrpcSkbTrace,
};
use lupos_net::rxrpc::txbuf::{rxrpc_alloc_data_txbuf, rxrpc_put_txbuf, rxrpc_see_txbuf, RxrpcCall as TxCall};
use lupos_net::rxrpc::utils::{rxrpc_extract_addr_from_skb, RxrpcTransportAddr, SockaddrRxrpc, AF_INET, AF_INET6, SOCK_DGRAM};

#[test]
fn rxrpc_call_state_matches_linux_source() {
    let mut call = RxrpcCall::new(RxrpcCallState::ClientSendRequest);
    assert!(rxrpc_set_call_completion(&mut call, RxrpcCallCompletion::RemotelyAborted, 17, -103));
    assert_eq!(call.abort_code, 17);
    assert_eq!(call.error, -103);
    assert_eq!(call.completion, RxrpcCallCompletion::RemotelyAborted);
    assert_eq!(call.state, RxrpcCallState::Complete);
    assert_eq!(call.complete_traces, 1);
    assert_eq!(call.wakeups, 1);
    assert_eq!(call.socket_notifications, 1);
    assert_eq!(RX_CALL_DEAD, u32::MAX);
    assert_eq!(RXRPC_CALL_EXPOSED, 1 << 3);
    assert_eq!(RXRPC_CALL_RELEASED, 1);
}

#[test]
fn completion_sets_terminal_state_once_and_notifies() {
    let mut call = RxrpcCall::new(RxrpcCallState::ClientAwaitReply);
    assert!(rxrpc_call_completed(&mut call));
    assert_eq!(call.state, RxrpcCallState::Complete);
    assert_eq!(call.completion, RxrpcCallCompletion::Succeeded);
    assert_eq!(call.wakeups, 1);
    assert_eq!(call.socket_notifications, 1);
    assert!(!rxrpc_set_call_completion(&mut call, RxrpcCallCompletion::NetworkError, 9, -1));
    assert_eq!(call.abort_code, 0);
}

#[test]
fn abort_sends_packet_only_after_exposure_and_prefail_releases() {
    let mut hidden = RxrpcCall::new(RxrpcCallState::ServerRecvRequest);
    assert!(rxrpc_abort_call(&mut hidden, 10, 99, -5, RxrpcAbortReason::LocalAbort));
    assert_eq!(hidden.abort_packets_sent, 0);

    let mut exposed = RxrpcCall::new(RxrpcCallState::ServerRecvRequest);
    exposed.expose();
    assert!(exposed.is_exposed());
    assert!(rxrpc_abort_call(&mut exposed, 10, 99, -5, RxrpcAbortReason::UserAbort));
    assert_eq!(exposed.abort_packets_sent, 1);

    let mut failed = RxrpcCall::new(RxrpcCallState::Uninitialised);
    assert!(!rxrpc_prefail_call(&mut failed, RxrpcCallCompletion::LocalError, -12));
    assert_eq!(failed.abort_code, RX_CALL_DEAD);
    assert_eq!(failed.state, RxrpcCallState::Complete);
    assert!(failed.flags & RXRPC_CALL_RELEASED != 0);
    assert!(rxrpc_prefail_call(&mut failed, RxrpcCallCompletion::LocalError, -12));
}

#[test]
fn abort_of_completed_call_only_traces() {
    let mut call = RxrpcCall::new(RxrpcCallState::ClientRecvReply);
    call.expose();
    assert!(rxrpc_call_completed(&mut call));
    assert!(!rxrpc_abort_call(&mut call, 1, 2, -3, RxrpcAbortReason::Error));
    assert_eq!(call.abort_traces, 1);
    assert_eq!(call.abort_packets_sent, 0);
    assert_eq!(call.completion, RxrpcCallCompletion::Succeeded);
}

#[test]
fn rxrpc_insecure_matches_linux_source() {
    assert_eq!(none_init_connection_security(), 0);
    assert_eq!(none_alloc_txbuf(5000).len, RXRPC_JUMBO_DATALEN);
    assert_eq!(none_alloc_txbuf(5000).nr_subpackets, 1);
    let secured = none_secure_packet(none_alloc_txbuf(RXRPC_JUMBO_DATALEN)).unwrap();
    assert_eq!(secured.pkt_len, secured.len);
    assert!(secured.jumboable);
    assert_eq!(none_validate_challenge().1.why, "rxrpc_eproto_rxnull_challenge");
    assert_eq!(none_sendmsg_respond_to_challenge(), Err(-EINVAL));
    assert_eq!(none_verify_response().why, "rxrpc_eproto_rxnull_response");
    assert_eq!(rxrpc_no_security(), RxrpcSecurity { name: "none", security_index: RXRPC_SECURITY_NONE });
    assert_eq!(none_init(), 0);
    none_exit();
}

#[test]
fn null_security_allocates_plain_jumboable_txbufs_and_aborts_challenges() {
    assert_eq!(none_init_connection_security(), 0);
    assert_eq!(none_verify_packet(), 0);
    let small = none_secure_packet(none_alloc_txbuf(10)).unwrap();
    assert_eq!(small.len, 10);
    assert_eq!(small.pkt_len, 10);
    assert!(!small.jumboable);
    let jumbo = none_secure_packet(none_alloc_txbuf(usize::MAX)).unwrap();
    assert_eq!(jumbo.len, RXRPC_JUMBO_DATALEN);
    assert!(jumbo.jumboable);
    let (valid, abort) = none_validate_challenge();
    assert!(valid);
    assert_eq!(abort.error, -EPROTO);
    assert_eq!(abort.abort_code, RX_PROTOCOL_ERROR);
    assert_eq!(none_sendmsg_respond_to_challenge(), Err(-EINVAL));
    assert_eq!(none_verify_response().why, "rxrpc_eproto_rxnull_response");
    assert_eq!(rxrpc_no_security(), RxrpcSecurity { name: "none", security_index: RXRPC_SECURITY_NONE });
}

#[test]
fn rxrpc_local_event_matches_linux_source() {
    let version = rxrpc_gen_version_string("12345678901234567890123456789012345678901234567890-extra");
    assert_eq!(version.len(), RXRPC_VERSION_STRING_SIZE);
    assert_eq!(&version[..6], b"linux-");
    assert_eq!(&version[6..55], b"1234567890123456789012345678901234567890123456789");
    assert_eq!(&version[55..64], b" AF_RXRPC");
    assert_eq!(version[64], 0);

    let reply = rxrpc_send_version_request(
        RxrpcHostHeader { flags: RXRPC_CLIENT_INITIATED },
        RxrpcSkbHeader { epoch: 1, cid: 2, call_number: 3, flags: 0, service_id: 7000 },
        "test",
    );
    assert_eq!(reply.header.epoch, 1u32.to_be());
    assert_eq!(reply.header.flags, RXRPC_LAST_PACKET);
    assert_eq!(reply.header.packet_type, RXRPC_PACKET_TYPE_VERSION);
    assert_eq!(reply.header.service_id, 7000u16.to_be());
    assert_eq!(reply.iov_count, 2);
}

#[test]
fn version_reply_marks_server_initiated_requests_and_pads_short_releases() {
    let reply = rxrpc_send_version_request(
        RxrpcHostHeader { flags: 0 },
        RxrpcSkbHeader { epoch: 0x01020304, cid: 5, call_number: 6, flags: 0, service_id: 1 },
        "6.1",
    );
    assert_eq!(reply.header.flags, RXRPC_LAST_PACKET | RXRPC_CLIENT_INITIATED);
    assert_eq!(reply.header.epoch.to_ne_bytes(), [1, 2, 3, 4]);
    assert_eq!(reply.len, 28 + 65);
    assert_eq!(&reply.version_string[..18], b"linux-6.1 AF_RXRPC");
    assert!(reply.version_string[18..].iter().all(|b| *b == 0));
}

#[test]
fn rxrpc_misc_matches_linux_source() {
    assert_eq!(rxrpc_jumbo(1), 1440);
    assert_eq!(rxrpc_jumbo(46), 65160);
    assert_eq!(
        rxrpc_tunable_defaults(),
        RxrpcTunableDefaults {
            max_backlog: 10,
            soft_ack_delay_ms: 1000,
            idle_ack_delay_ms: 500,
            rx_window_size: 255,
            rx_mtu: 65160,
            rx_jumbo_max: 46,
        }
    );
}

#[test]
fn rxrpc_skbuff_matches_linux_source() {
    let mut acct = RxrpcSkbAccounting::default();
    let skb = RxrpcSkBuff { users: 3, consumed: false };
    rxrpc_new_skb(&mut acct, &skb, RxrpcSkbTrace::New);
    let trace = acct.last_trace.unwrap();
    assert_eq!(trace.users, 3);
    assert_eq!(trace.outstanding, 1);
    assert_eq!(trace.why, RxrpcSkbTrace::New);
    rxrpc_see_skb(&mut acct, None, RxrpcSkbTrace::See);
    assert_eq!(acct.traces, 1);
    let mut none: Option<RxrpcSkBuff> = None;
    rxrpc_free_skb(&mut acct, &mut none, RxrpcSkbTrace::Free);
    assert_eq!(acct.n_rx_skbs, 1);
    assert_eq!(acct.traces, 1);
}

#[test]
fn skb_accounting_tracks_refs_and_purge_decrements() {
    let mut acct = RxrpcSkbAccounting::default();
    let mut skb = RxrpcSkBuff { users: 1, consumed: false };
    rxrpc_new_skb(&mut acct, &skb, RxrpcSkbTrace::New);
    assert_eq!(acct.n_rx_skbs, 1);
    rxrpc_see_skb(&mut acct, Some(&skb), RxrpcSkbTrace::See);
    assert_eq!(acct.n_rx_skbs, 1);
    rxrpc_get_skb(&mut acct, &mut skb, RxrpcSkbTrace::Get);
    assert_eq!(acct.n_rx_skbs, 2);
    assert_eq!(skb.users, 2);
    let mut slot = Some(skb);
    rxrpc_free_skb(&mut acct, &mut slot, RxrpcSkbTrace::Free);
    let skb = slot.unwrap();
    assert_eq!(acct.n_rx_skbs, 1);
    assert!(skb.consumed);

    let mut queue = [Some(RxrpcSkBuff { users: 1, consumed: false }), None, Some(RxrpcSkBuff { users: 1, consumed: false })];
    acct.n_rx_skbs = 2;
    rxrpc_purge_queue(&mut acct, &mut queue);
    assert_eq!(acct.n_rx_skbs, 0);
    assert!(queue.iter().all(Option::is_none));
    assert_eq!(acct.last_trace.unwrap().why, RxrpcSkbTrace::PutPurge);
}

#[test]
fn rxrpc_txbuf_matches_linux_source() {
    let call = TxCall { debug_id: 1, out_clientflag: 0, send_top: 0 };
    let txb = rxrpc_alloc_data_txbuf(call, 10, 0, true, true, 2).unwrap();
    assert_eq!(txb.data_offset, 4);
    assert_eq!(txb.total_alloc, 14);
    assert_eq!(txb.seq, 1);
    assert_eq!(txb.space, 10);
    assert_eq!(txb.offset, 0);
    let odd = rxrpc_alloc_data_txbuf(call, 10, 3, true, true, 2).unwrap();
    assert_eq!(odd.data_offset, 6);
    assert_eq!(odd.total_alloc, 16);
}

#[test]
fn txbuf_allocation_tracks_offsets_and_last_put_frees() {
    let call = TxCall { debug_id: 44, out_clientflag: 1, send_top: 9 };
    let mut txb = rxrpc_alloc_data_txbuf(call, 100, 16, true, true, 7).unwrap();
    assert_eq!(txb.refcount, 1);
    assert_eq!(txb.call_debug_id, 44);
    assert_eq!(txb.debug_id, 7);
    assert_eq!(txb.seq, 10);
    assert_eq!(txb.data_offset, 16);
    assert_eq!(txb.total_alloc, 116);
    assert_eq!(rxrpc_see_txbuf(&txb), (7, 44, 10, 1));
    assert!(rxrpc_put_txbuf(&mut txb));
    assert!(txb.freed);
    assert!(rxrpc_alloc_data_txbuf(call, 100, 16, false, true, 7).is_none());
    assert!(rxrpc_alloc_data_txbuf(call, 100, 16, true, false, 7).is_none());
}

#[test]
fn txbuf_with_extra_references_survives_a_put() {
    let call = TxCall { debug_id: 1, out_clientflag: 0, send_top: 3 };
    let mut txb = rxrpc_alloc_data_txbuf(call, 8, 8, true, true, 5).unwrap();
    txb.refcount = 2;
    assert!(!rxrpc_put_txbuf(&mut txb));
    assert!(!txb.freed);
    assert_eq!(txb.refcount, 1);
}

#[test]
fn rxrpc_extract_addr_matches_linux_source() {
    let udp = [0x12, 0x34, 0, 53, 0, 8, 0, 0];
    let skb = build_ipv4_packet(ipv4(10, 1, 2, 3), ipv4(10, 1, 2, 4), IPPROTO_UDP, &udp, 64).unwrap();
    assert_eq!(
        rxrpc_extract_addr_from_skb(ETH_P_IP, &skb).unwrap(),
        SockaddrRxrpc {
            transport_type: SOCK_DGRAM,
            transport_len: 16,
            transport: RxrpcTransportAddr::Inet { family: AF_INET, port: 0x1234, addr: ipv4(10, 1, 2, 3) },
        }
    );

    let src = [0x20, 1, 0x0d, 0xb8, 0, 0, 0, 0, 0, 0, 0, 0, 0, 0, 0, 1];
    let dst = [0x20, 1, 0x0d, 0xb8, 0, 0, 0, 0, 0, 0, 0, 0, 0, 0, 0, 2];
    let skb = build_ipv6_packet(src, dst, IPPROTO_UDP, &udp, 64).unwrap();
    assert_eq!(
        rxrpc_extract_addr_from_skb(ETH_P_IPV6, &skb).unwrap().transport,
        RxrpcTransportAddr::Inet6 { family: AF_INET6, port: 0x1234, addr: src }
    );
    assert_eq!(rxrpc_extract_addr_from_skb(0x1234, &skb), Err(EAFNOSUPPORT));
}

#[test]
fn extract_addr_rejects_short_payload_and_wrong_version() {
    let skb = build_ipv4_packet(ipv4(1, 2, 3, 4), ipv4(5, 6, 7, 8), IPPROTO_UDP, &[7], 64).unwrap();
    assert_eq!(rxrpc_extract_addr_from_skb(ETH_P_IP, &skb), Err(EINVAL));
    assert_eq!(rxrpc_extract_addr_from_skb(ETH_P_IPV6, &skb), Err(EINVAL));
}
