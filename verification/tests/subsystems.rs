use lupos_net::errno::{EEXIST, EINVAL, ENODEV, ENOMEM};
use lupos_net::openvswitch::dp_notify::{
    dp_detach_port_notify, dp_device_event, ovs_dp_notify_wq, DeviceEventAction, Vport, NETDEV_UNREGISTER,
    OVS_VPORT_TYPE_INTERNAL,
};
use lupos_net::openvswitch::vport_gre::{
    gre_create, gre_tnl_create, ovs_gre_tnl_exit, ovs_gre_tnl_init, GreCreateError, MODULE_ALIAS, OVS_VPORT_TYPE_GRE,
};
use lupos_net::phonet::sysctl::{
    local_port_range_limits, phonet_get_local_port_range, phonet_sysctl_exit, phonet_sysctl_init, proc_local_port_range,
    LocalPortRange, DYNAMIC_PORT_MAX, DYNAMIC_PORT_MIN,
};
use lupos_net::rds::ib_stats::{rds_ib_stat_names, rds_ib_stats_info_copy};
use lupos_net::rds::sysctl::{
    msecs_to_jiffies, rds_sysctl_exit, rds_sysctl_init, rds_sysctl_names, RdsSysctlState, HZ,
};
use lupos_net::rds::tcp_stats::{rds_tcp_stat_names, rds_tcp_stats_info_copy, RdsTcpStatistics};
use lupos_net::rtnetlink::{
    handle_rtnl_message, rtm_getlink, NetDeviceTable, NetlinkFamily, RtnlMessage, NETLINK_AUDIT, NETLINK_GENERIC,
    NETLINK_KOBJECT_UEVENT, NETLINK_ROUTE, RTM_DELLINK, RTM_GETLINK, RTM_NEWADDR, RTM_NEWLINK, RTM_NEWROUTE,
};
use lupos_net::sctp::objcnt::{sctp_dbg_objcnt_init, sctp_objcnt_seq_next, sctp_objcnt_seq_show, sctp_objcnt_seq_start};
use lupos_net::sunrpc::xprtrdma::{rpc_rdma_cleanup, rpc_rdma_init, rpc_rdma_metadata, RpcRdmaInitPlan, RpcRdmaState, RpcRdmaStep};
use lupos_net::tipc::eth_media::{
    eth_media_info, tipc_eth_addr2msg, tipc_eth_addr2str, tipc_eth_msg2addr, tipc_eth_raw2addr, TipcMedia, ETH_ALEN,
    TIPC_DEF_LINK_PRI, TIPC_DEF_LINK_TOL, TIPC_DEF_LINK_WIN, TIPC_MAX_LINK_WIN, TIPC_MEDIA_ADDR_OFFSET, TIPC_MEDIA_INFO_SIZE,
    TIPC_MEDIA_TYPE_ETH, TIPC_MEDIA_TYPE_OFFSET,
};
use lupos_net::tipc::ib_media::{
    ib_media_info, tipc_ib_addr2msg, tipc_ib_addr2str, tipc_ib_msg2addr, tipc_ib_raw2addr, INFINIBAND_ALEN, TIPC_MAX_IB_LINK_WIN,
    TIPC_MEDIA_TYPE_IB,
};
use lupos_net::tipc::sysctl::{tipc_register_sysctl, tipc_table, tipc_unregister_sysctl, TipcSysctlState};
use lupos_net::tls::tls_proc::{tls_mib_list, tls_proc_fini, tls_proc_init, tls_statistics_seq_show, TlsProcFile};
use lupos_net::uevent::{
    announce_class_device, announce_netdevice, broadcast_uevent, current_seqnum, drain_pending, pending_snapshot, UeventAction,
    UeventMessage, UeventQueue, QUEUE_HIGH_WATERMARK,
};
use lupos_net::unix::sysctl_net_unix::{
    unix_sysctl_register, unix_sysctl_register_with_alloc, unix_sysctl_unregister, UnixCtlTable, UnixNet,
};

fn vport(vport_type: u16, netif_is_ovs_port: bool) -> Vport {
    Vport { vport_type, netif_is_ovs_port, detached: false, genl_error: false, genl_multicast: false }
}

#[test]
fn dp_notify_matches_linux_source() {
    let mut vports = [vport(OVS_VPORT_TYPE_INTERNAL, false), vport(2, false), vport(2, true)];
    assert_eq!(ovs_dp_notify_wq(&mut vports, false), 1);
    assert!(!vports[0].detached);
    assert!(vports[1].detached);
    assert!(vports[1].genl_multicast);
    assert!(!vports[2].detached);
    assert_eq!(dp_device_event(NETDEV_UNREGISTER, false, true), DeviceEventAction::DetachedAndQueued);
    assert_eq!(dp_device_event(NETDEV_UNREGISTER, true, true), DeviceEventAction::Done);
}

#[test]
fn dp_notify_reports_build_errors_and_ignores_other_events() {
    let mut v = vport(2, false);
    dp_detach_port_notify(&mut v, true);
    assert!(v.detached && v.genl_error && !v.genl_multicast);
    assert_eq!(dp_device_event(1, false, true), DeviceEventAction::Done);
    assert_eq!(dp_device_event(NETDEV_UNREGISTER, false, false), DeviceEventAction::Done);
}

#[test]
fn ovs_vport_gre_matches_linux_source() {
    let ops = ovs_gre_tnl_exit();
    assert_eq!(ops.vport_type, OVS_VPORT_TYPE_GRE);
    assert_eq!(ops.send, "dev_queue_xmit");
    assert_eq!(ops.create, "gre_create");
    assert_eq!(MODULE_ALIAS, "vport-type-3");
}

#[test]
fn gre_create_tracks_device_setup_and_error_edges() {
    let vport = gre_create("gre0", true, true, 0, true).unwrap();
    assert_eq!(vport.name, "gre0");
    assert!(vport.dev_created && vport.dev_up && vport.held && vport.linked);
    assert_eq!(gre_tnl_create("gre0", false, true, 0), Err(GreCreateError::VportAlloc));
    assert_eq!(gre_tnl_create("gre0", true, false, 0), Err(GreCreateError::DevCreate));
    assert_eq!(gre_tnl_create("gre0", true, true, -5), Err(GreCreateError::ChangeFlags(-5)));
    assert_eq!(ovs_gre_tnl_init(0), Ok(ovs_gre_tnl_exit()));
    assert_eq!(ovs_gre_tnl_init(-2), Err(-2));
    assert_eq!(ovs_gre_tnl_exit().destroy, "ovs_netdev_tunnel_destroy");
}

#[test]
fn phonet_sysctl_matches_linux_source() {
    assert_eq!(DYNAMIC_PORT_MIN, 0x40);
    assert_eq!(DYNAMIC_PORT_MAX, 0x7f);
    let (min, max, default) = local_port_range_limits();
    assert_eq!((min.min, min.max), (0, 0));
    assert_eq!((max.min, max.max), (1023, 1023));
    assert_eq!((default.min, default.max), (DYNAMIC_PORT_MIN, DYNAMIC_PORT_MAX));
    assert_eq!(phonet_sysctl_init(true).unwrap().procname, "local_port_range");
    assert_eq!(phonet_sysctl_init(false), Err(-ENOMEM));
}

#[test]
fn phonet_port_range_rejects_reversed_writes() {
    let current = local_port_range_limits().2;
    assert_eq!(phonet_get_local_port_range(current), (0x40, 0x7f));
    assert_eq!(proc_local_port_range(current, false, LocalPortRange { min: 9, max: 8 }, 0), Ok(current));
    assert_eq!(proc_local_port_range(current, true, LocalPortRange { min: 9, max: 8 }, 0), Err(-EINVAL));
    assert_eq!(
        proc_local_port_range(current, true, LocalPortRange { min: 10, max: 20 }, 0),
        Ok(LocalPortRange { min: 10, max: 20 })
    );
    assert_eq!(phonet_sysctl_init(false), Err(-ENOMEM));
    let table = phonet_sysctl_init(true).unwrap();
    assert_eq!((table.procname, table.mode, table.path), ("local_port_range", 0o644, "net/phonet"));
    assert!(phonet_sysctl_exit(true));
    assert_eq!(proc_local_port_range(current, true, LocalPortRange { min: 10, max: 20 }, -14), Err(-14));
}

#[test]
fn rds_ib_stats_matches_linux_source() {
    let names = rds_ib_stat_names();
    assert_eq!(names.len(), 39);
    assert_eq!(names[0], "ib_connect_raced");
    assert_eq!(names[38], "ib_atomic_fadd");
    let (needed, stats) = rds_ib_stats_info_copy(&[], 39);
    assert_eq!(needed, 39);
    assert_eq!(stats, Some([0u64; 39]));
}

#[test]
fn ib_stats_sums_each_counter_when_space_is_available() {
    assert_eq!(rds_ib_stat_names().len(), 39);
    let cpu0 = [1u64; 39];
    let cpu1 = [2u64; 39];
    let (needed, stats) = rds_ib_stats_info_copy(&[cpu0, cpu1], 39);
    assert_eq!(needed, 39);
    assert_eq!(stats.unwrap(), [3u64; 39]);
    assert_eq!(rds_ib_stats_info_copy(&[cpu0], 38), (39, None));
}

#[test]
fn rds_sysctl_matches_linux_source() {
    let state = RdsSysctlState::default();
    assert_eq!(state.reconnect_min, 1);
    assert_eq!(state.reconnect_max, u64::MAX);
    assert_eq!(state.reconnect_max_jiffies, HZ);
    assert_eq!(state.max_unacked_packets, 8);
    assert_eq!(state.ping_enable, 1);
    let names = rds_sysctl_names();
    assert_eq!(names[0], "reconnect_min_delay_ms");
    assert_eq!(names[3], "max_unacked_bytes");
}

#[test]
fn rds_sysctl_initializes_jiffy_minimum_and_registration_state() {
    let mut state = RdsSysctlState::default();
    assert_eq!(state.max_unacked_bytes, 16 << 20);
    assert_eq!(rds_sysctl_init(&mut state, false), Err(-ENOMEM));
    assert_eq!(state.reconnect_min_jiffies, msecs_to_jiffies(1));
    assert_eq!(rds_sysctl_init(&mut state, true), Ok(()));
    assert!(state.registered);
    rds_sysctl_exit(&mut state);
    assert!(!state.registered);
    assert_eq!(rds_sysctl_names()[4], "ping_enable");
}

#[test]
fn msecs_to_jiffies_rounds_up_and_saturates() {
    assert_eq!(msecs_to_jiffies(0), 0);
    assert_eq!(msecs_to_jiffies(1), 1);
    assert_eq!(msecs_to_jiffies(10), 1);
    assert_eq!(msecs_to_jiffies(11), 2);
    assert_eq!(msecs_to_jiffies(1000), 100);
    assert_eq!(msecs_to_jiffies(u64::MAX), u64::MAX / 1000 + 1);
}

#[test]
fn rds_tcp_stats_matches_linux_source() {
    let names = rds_tcp_stat_names();
    assert_eq!(
        names,
        ["tcp_data_ready_calls", "tcp_write_space_calls", "tcp_sndbuf_full", "tcp_connect_raced", "tcp_listen_closed_stale"]
    );
}

#[test]
fn rds_tcp_stats_sum_only_when_available() {
    let cpus = [
        RdsTcpStatistics {
            tcp_data_ready_calls: 1,
            tcp_write_space_calls: 2,
            tcp_sndbuf_full: 3,
            tcp_connect_raced: 4,
            tcp_listen_closed_stale: 5,
        },
        RdsTcpStatistics {
            tcp_data_ready_calls: 10,
            tcp_write_space_calls: 20,
            tcp_sndbuf_full: 30,
            tcp_connect_raced: 40,
            tcp_listen_closed_stale: 50,
        },
    ];
    assert_eq!(rds_tcp_stats_info_copy(&cpus, 4), (5, None));
    assert_eq!(
        rds_tcp_stats_info_copy(&cpus, 5),
        (
            5,
            Some(RdsTcpStatistics {
                tcp_data_ready_calls: 11,
                tcp_write_space_calls: 22,
                tcp_sndbuf_full: 33,
                tcp_connect_raced: 44,
                tcp_listen_closed_stale: 55,
            })
        )
    );
}

#[test]
fn rds_tcp_stats_saturate() {
    let big = RdsTcpStatistics { tcp_data_ready_calls: u64::MAX, ..RdsTcpStatistics::default() };
    let (_, s) = rds_tcp_stats_info_copy(&[big, big], 5);
    assert_eq!(s.unwrap().tcp_data_ready_calls, u64::MAX);
}

fn link(msg_type: u16, name: &str, mtu: u32) -> RtnlMessage {
    RtnlMessage { msg_type, ifindex: 0, flags: 0, mtu, name: String::from(name), addr: [2, 0, 0, 0, 0, 2] }
}

#[test]
fn route_family_and_getlink_schema_work() {
    assert_eq!(NetlinkFamily::from_raw(NETLINK_ROUTE).unwrap(), NetlinkFamily::Route);
    let mut table = NetDeviceTable::new();
    let req = link(RTM_NEWLINK, "rtnl-test0", 1500);
    let reply = handle_rtnl_message(&mut table, &req).unwrap();
    assert_eq!(reply.len(), 1);
    assert_eq!(reply[0].msg_type, RTM_NEWLINK);
    let links = rtm_getlink(&table);
    assert!(links.iter().any(|l| l.name == "rtnl-test0" && l.mtu == 1500));
    let del = RtnlMessage { msg_type: RTM_DELLINK, ..req };
    assert_eq!(handle_rtnl_message(&mut table, &del), Ok(Vec::new()));
    assert!(rtm_getlink(&table).is_empty());
}

#[test]
fn newlink_rejects_invalid_mtu_and_missing_delete() {
    let mut table = NetDeviceTable::new();
    let req = RtnlMessage { msg_type: RTM_NEWLINK, ifindex: 0, flags: 0, mtu: 1, name: String::from("bad-mtu0"), addr: [2, 0, 0, 0, 0, 4] };
    assert_eq!(handle_rtnl_message(&mut table, &req), Err(EINVAL));
    let del = RtnlMessage { msg_type: RTM_DELLINK, mtu: 1500, name: String::from("missing-netdev0"), ..req };
    assert_eq!(handle_rtnl_message(&mut table, &del), Err(ENODEV));
}

#[test]
fn rtnl_families_indexes_and_other_requests() {
    assert_eq!(NetlinkFamily::from_raw(NETLINK_KOBJECT_UEVENT), Ok(NetlinkFamily::KobjectUevent));
    assert_eq!(NetlinkFamily::from_raw(NETLINK_AUDIT), Ok(NetlinkFamily::Audit));
    assert_eq!(NetlinkFamily::from_raw(NETLINK_GENERIC), Ok(NetlinkFamily::Generic));
    assert_eq!(NetlinkFamily::from_raw(3), Err(EINVAL));
    let mut table = NetDeviceTable::new();
    handle_rtnl_message(&mut table, &link(RTM_NEWLINK, "a0", 68)).unwrap();
    handle_rtnl_message(&mut table, &link(RTM_NEWLINK, "b0", 9000)).unwrap();
    assert_eq!(handle_rtnl_message(&mut table, &link(RTM_NEWLINK, "a0", 1500)), Err(EEXIST));
    let all = handle_rtnl_message(&mut table, &link(RTM_GETLINK, "", 0)).unwrap();
    assert_eq!(all.iter().map(|m| m.ifindex).collect::<Vec<_>>(), vec![1, 2]);
    assert!(all.iter().all(|m| m.msg_type == RTM_GETLINK));
    assert_eq!(handle_rtnl_message(&mut table, &link(RTM_NEWADDR, "a0", 0)), Err(ENODEV));
    assert_eq!(handle_rtnl_message(&mut table, &link(RTM_NEWROUTE, "a0", 0)), Err(ENODEV));
    assert_eq!(handle_rtnl_message(&mut table, &link(99, "a0", 0)), Err(EINVAL));
}

#[test]
fn sctp_objcnt_matches_linux_source() {
    assert_eq!(sctp_objcnt_seq_show(1, &[0, -3]).unwrap(), "ep: -3\n");
    let mut pos = 9;
    assert_eq!(sctp_objcnt_seq_next(&mut pos), None);
    assert_eq!(pos, 10);
    assert!(sctp_dbg_objcnt_init(true));
}

#[test]
fn objcnt_sequence_walks_labels_and_formats_counts() {
    assert_eq!(sctp_objcnt_seq_start(0), Some(0));
    assert_eq!(sctp_objcnt_seq_start(10), None);
    let mut pos = 0;
    assert_eq!(sctp_objcnt_seq_next(&mut pos), Some(1));
    assert_eq!(sctp_objcnt_seq_show(0, &[7]).unwrap(), "sock: 7\n");
    assert_eq!(sctp_objcnt_seq_show(9, &[0; 10]).unwrap(), "keys: 0\n");
    assert!(sctp_objcnt_seq_show(10, &[0; 10]).is_none());
    assert!(sctp_dbg_objcnt_init(true));
    assert!(!sctp_dbg_objcnt_init(false));
}

#[test]
fn objcnt_formats_extreme_counts() {
    assert_eq!(sctp_objcnt_seq_show(4, &[0, 0, 0, 0, i32::MIN]).unwrap(), "chunk: -2147483648\n");
    assert_eq!(sctp_objcnt_seq_show(7, &[0, 0, 0, 0, 0, 0, 0, i32::MAX]).unwrap(), "addr: 2147483647\n");
    assert_eq!(sctp_objcnt_seq_show(8, &[]).unwrap(), "datamsg: 0\n");
}

#[test]
fn rpc_rdma_module_matches_linux_source() {
    let meta = rpc_rdma_metadata();
    assert_eq!(meta.author, "Open Grid Computing and Network Appliance, Inc.");
    assert_eq!(meta.description, "RPC/RDMA Transport");
    assert_eq!(meta.license, "Dual BSD/GPL");
    assert_eq!(meta.aliases, ["svcrdma", "xprtrdma", "rpcrdma6"]);
    let mut state = RpcRdmaState::default();
    let mut log = Vec::new();
    assert_eq!(
        rpc_rdma_init(&mut state, RpcRdmaInitPlan { ib_client_register_rc: 0, svc_rdma_init_rc: -12, xprt_rdma_init_rc: 0 }, &mut log),
        Err(-12)
    );
    assert_eq!(log, vec![RpcRdmaStep::IbClientRegister, RpcRdmaStep::SvcRdmaInit, RpcRdmaStep::IbClientUnregister]);
    assert_eq!(state, RpcRdmaState::default());
}

#[test]
fn rpc_rdma_init_rolls_back_in_linux_label_order() {
    let mut state = RpcRdmaState::default();
    let mut log = Vec::new();
    assert_eq!(
        rpc_rdma_init(&mut state, RpcRdmaInitPlan { ib_client_register_rc: 0, svc_rdma_init_rc: 0, xprt_rdma_init_rc: -5 }, &mut log),
        Err(-5)
    );
    assert_eq!(
        log,
        vec![
            RpcRdmaStep::IbClientRegister,
            RpcRdmaStep::SvcRdmaInit,
            RpcRdmaStep::XprtRdmaInit,
            RpcRdmaStep::SvcRdmaCleanup,
            RpcRdmaStep::IbClientUnregister,
        ]
    );
    assert_eq!(state, RpcRdmaState::default());

    log.clear();
    assert_eq!(rpc_rdma_init(&mut state, RpcRdmaInitPlan::success(), &mut log), Ok(()));
    assert!(state.ib_client_registered);
    assert!(state.svc_rdma_initialized);
    assert!(state.xprt_rdma_initialized);

    log.clear();
    rpc_rdma_cleanup(&mut state, &mut log);
    assert_eq!(log, vec![RpcRdmaStep::XprtRdmaCleanup, RpcRdmaStep::SvcRdmaCleanup, RpcRdmaStep::IbClientUnregister]);
    assert_eq!(state, RpcRdmaState::default());
}

#[test]
fn rpc_rdma_first_step_failure_logs_only_it() {
    let mut state = RpcRdmaState::default();
    let mut log = Vec::new();
    assert_eq!(
        rpc_rdma_init(&mut state, RpcRdmaInitPlan { ib_client_register_rc: -19, svc_rdma_init_rc: 0, xprt_rdma_init_rc: 0 }, &mut log),
        Err(-19)
    );
    assert_eq!(log, vec![RpcRdmaStep::IbClientRegister]);
    rpc_rdma_cleanup(&mut state, &mut log);
    assert_eq!(log.len(), 1);
}

#[test]
fn tipc_eth_media_matches_linux_source() {
    assert_eq!(TIPC_MEDIA_INFO_SIZE, 32);
    assert_eq!(TIPC_MEDIA_TYPE_OFFSET, 3);
    assert_eq!(TIPC_MEDIA_ADDR_OFFSET, 4);
    assert_eq!(TIPC_MEDIA_TYPE_ETH, 1);
    assert_eq!(eth_media_info().name, "eth");
}

#[test]
fn eth_media_converts_between_raw_string_and_discovery_message() {
    let raw = [0xaa, 0xbb, 0xcc, 0xdd, 0xee, 0xff];
    let addr = tipc_eth_raw2addr(&raw);
    assert_eq!(addr.media_id, TIPC_MEDIA_TYPE_ETH);
    assert!(!addr.broadcast);
    let mut text = [0; 18];
    assert_eq!(tipc_eth_addr2str(&addr, &mut text), 0);
    assert_eq!(&text[..17], b"aa:bb:cc:dd:ee:ff");
    assert_eq!(tipc_eth_addr2str(&addr, &mut [0; 17]), 1);

    let mut msg = [0xff; TIPC_MEDIA_INFO_SIZE];
    assert_eq!(tipc_eth_addr2msg(&mut msg, &addr), 0);
    assert_eq!(msg[TIPC_MEDIA_TYPE_OFFSET], TIPC_MEDIA_TYPE_ETH);
    assert_eq!(&msg[TIPC_MEDIA_ADDR_OFFSET..TIPC_MEDIA_ADDR_OFFSET + ETH_ALEN], &raw);
    assert!(msg[..TIPC_MEDIA_TYPE_OFFSET].iter().all(|byte| *byte == 0));
    assert_eq!(tipc_eth_msg2addr(&msg), addr);
    assert!(tipc_eth_raw2addr(&[0xff; ETH_ALEN]).broadcast);
    assert_eq!(
        eth_media_info(),
        TipcMedia {
            priority: TIPC_DEF_LINK_PRI,
            tolerance: TIPC_DEF_LINK_TOL,
            min_win: TIPC_DEF_LINK_WIN,
            max_win: TIPC_MAX_LINK_WIN,
            type_id: TIPC_MEDIA_TYPE_ETH,
            hwaddr_len: ETH_ALEN,
            name: "eth",
        }
    );
}

#[test]
fn tipc_ib_media_matches_linux_source() {
    let info = ib_media_info();
    assert_eq!(TIPC_MAX_IB_LINK_WIN, 500);
    assert_eq!(info.max_win, TIPC_MAX_IB_LINK_WIN);
    assert_eq!(info.type_id, TIPC_MEDIA_TYPE_IB);
    assert_eq!(info.hwaddr_len, INFINIBAND_ALEN);
    assert_eq!(info.name, "ib");
}

#[test]
fn ib_media_converts_between_raw_string_and_discovery_message() {
    let bcast = [0xff; INFINIBAND_ALEN];
    let raw = [0x12; INFINIBAND_ALEN];
    let addr = tipc_ib_raw2addr(&bcast, &raw);
    assert_eq!(addr.media_id, TIPC_MEDIA_TYPE_IB);
    assert!(!addr.broadcast);
    assert!(tipc_ib_raw2addr(&bcast, &bcast).broadcast);

    let mut text = [0; 60];
    assert_eq!(tipc_ib_addr2str(&addr, &mut text), 0);
    assert_eq!(&text[..5], b"12:12");
    assert_eq!(tipc_ib_addr2str(&addr, &mut [0; 59]), 1);

    let mut msg = [0xff; TIPC_MEDIA_INFO_SIZE];
    assert_eq!(tipc_ib_addr2msg(&mut msg, &addr), 0);
    assert_eq!(&msg[..INFINIBAND_ALEN], &raw);
    assert!(msg[INFINIBAND_ALEN..].iter().all(|byte| *byte == 0));
    assert_eq!(tipc_ib_msg2addr(&bcast, &msg), addr);
    assert_eq!(ib_media_info().name, "ib");
}

#[test]
fn tipc_sysctl_matches_linux_source() {
    let table = tipc_table();
    assert_eq!(table[0].procname, "tipc_rmem");
    assert_eq!(table[0].extra1, Some("SYSCTL_ONE"));
    assert_eq!(table[4].extra2, Some("SYSCTL_ONE"));
    assert_eq!(table[2].handler, "proc_doulongvec_minmax");
    assert!(table.iter().all(|t| t.mode == 0o644));
}

#[test]
fn sysctl_registration_tracks_header_lifetime() {
    let mut state = TipcSysctlState::default();
    assert_eq!(tipc_register_sysctl(&mut state, false), Err(-ENOMEM));
    assert!(!state.registered);
    assert_eq!(tipc_register_sysctl(&mut state, true), Ok(()));
    assert!(state.registered);
    tipc_unregister_sysctl(&mut state);
    assert!(!state.registered);
    assert_eq!(tipc_table()[0].procname, "tipc_rmem");
    assert_eq!(tipc_table()[5].procname, "bc_retruni");
}

#[test]
fn tls_proc_matches_linux_source() {
    let list = tls_mib_list();
    assert_eq!(list.len(), 17);
    assert_eq!(list[0], "TlsCurrTxSw");
    assert_eq!(list[16], "TlsRxRekeyReceived");
    let rows = tls_statistics_seq_show(&[3, 5]);
    assert_eq!(rows[0], ("TlsCurrTxSw", 3));
    assert_eq!(rows[1], ("TlsCurrRxSw", 5));
    assert_eq!(rows[2], ("TlsCurrTxDevice", 0));
    assert_eq!(tls_proc_init(true), Ok(Some(TlsProcFile { name: "tls_stat", mode: 0o444 })));
    assert_eq!(tls_proc_init(false), Err(ENOMEM));
    tls_proc_fini(None);
}

#[test]
fn unix_sysctl_matches_linux_source() {
    let mut init_net = UnixNet::new(true, 10);
    assert_eq!(unix_sysctl_register(&mut init_net), Ok(()));
    assert_eq!(
        init_net.ctl,
        Some(UnixCtlTable { procname: "max_dgram_qlen", maxlen: core::mem::size_of::<i32>(), mode: 0o644, data: 10 })
    );
    assert!(!init_net.duplicated_table);
    unix_sysctl_unregister(&mut init_net);
    assert_eq!(init_net.ctl, None);

    let mut netns = UnixNet::new(false, 20);
    assert_eq!(unix_sysctl_register_with_alloc(&mut netns, false), Err(ENOMEM));
    assert_eq!(unix_sysctl_register(&mut netns), Ok(()));
    assert!(netns.duplicated_table);
}

fn contains(haystack: &[u8], needle: &[u8]) -> bool {
    haystack.windows(needle.len()).any(|w| w == needle)
}

#[test]
fn message_header_uses_action_at_devpath_legacy_form() {
    let msg = UeventMessage::build(
        UeventAction::Add,
        "/devices/platform/i8042/serio0/input/input0/event0",
        &[("SUBSYSTEM", "input"), ("DEVNAME", "input/event0")],
    );
    assert!(msg.payload.starts_with(b"add@/devices/platform/i8042"));
    assert!(contains(&msg.payload, b"ACTION=a"));
    assert!(contains(&msg.payload, b"SUBSYSTEM=input"));
}

#[test]
fn broadcast_queue_round_trips_messages_in_order() {
    let mut queue = UeventQueue::new();
    let _ = drain_pending(&mut queue);
    announce_class_device(&mut queue, "input", "event0", "input", "input/event0");
    announce_class_device(&mut queue, "graphics", "fb0", "graphics", "fb0");

    let drained = drain_pending(&mut queue);
    assert_eq!(drained.len(), 2);
    assert!(drained[0].payload.starts_with(b"add@/class/input/event0"));
    assert!(drained[1].payload.starts_with(b"add@/class/graphics/fb0"));
}

#[test]
fn netdevice_uevent_uses_linux_virtual_net_devpath() {
    let mut queue = UeventQueue::new();
    let _ = drain_pending(&mut queue);
    announce_netdevice(&mut queue, UeventAction::Add, "eth0", 2);
    let drained = drain_pending(&mut queue);
    assert_eq!(drained.len(), 1);
    let payload = &drained[0].payload;
    assert!(payload.starts_with(b"add@/devices/virtual/net/eth0\0"));
    assert!(contains(payload, b"SUBSYSTEM=net\0"));
    assert!(contains(payload, b"INTERFACE=eth0\0"));
    assert!(contains(payload, b"IFINDEX=2\0"));
    assert!(contains(payload, b"SEQNUM="));
}

#[test]
fn broadcast_queue_high_watermark_drops_oldest() {
    let mut queue = UeventQueue::new();
    let _ = drain_pending(&mut queue);
    for i in 0..(QUEUE_HIGH_WATERMARK + 5) {
        let seq = format!("{i}");
        let msg = UeventMessage::build(UeventAction::Add, "/devices/test", &[("SEQ", &seq)]);
        broadcast_uevent(&mut queue, msg);
    }
    let drained = drain_pending(&mut queue);
    assert_eq!(drained.len(), QUEUE_HIGH_WATERMARK);
    assert!(drained[0].payload.windows(5).any(|w| w == b"SEQ=5"), "first surviving message should be SEQ=5");
}

#[test]
fn uevent_seqnum_counts_broadcasts_and_snapshot_keeps_queue() {
    let mut queue = UeventQueue::new();
    assert_eq!(current_seqnum(&queue), 0);
    let sent = broadcast_uevent(&mut queue, UeventMessage::build(UeventAction::Remove, "/x", &[]));
    assert_eq!(current_seqnum(&queue), 1);
    assert_eq!(sent.payload, b"remove@/x\0ACTION=remove\0DEVPATH=/x\0SEQNUM=1\0".to_vec());
    let snap = pending_snapshot(&queue);
    assert_eq!(snap, vec![sent.clone()]);
    assert_eq!(pending_snapshot(&queue).len(), 1);
    assert_eq!(UeventAction::Unbind.as_str(), "unbind");
    assert_eq!(UeventAction::Online.as_str(), "online");
    let m = announce_netdevice(&mut queue, UeventAction::Change, "lo", 1);
    assert!(contains(&m.payload, b"SEQNUM=2\0"));
    assert_eq!(drain_pending(&mut queue).len(), 2);
}
