use lupos_net::errno::{EAFNOSUPPORT, EBADMSG, EBUSY, ECONNREFUSED, EINVAL, ENOSYS, EPROTO, EPROTONOSUPPORT, ETIMEDOUT};
use lupos_net::netlabel_user::{
    netlbl_audit_start_common, netlbl_netlink_init, AuditBuffer, NetlabelAuditInfo, NetlabelInitResults, AUDIT_OFF,
};
use lupos_net::nfc::af_nfc::{af_nfc_init, NfcProtoTable, NfcProtocol, PF_NFC};
use lupos_net::nfc::llc_nop::{
    llc_nop_deinit, llc_nop_init, llc_nop_rcv_from_drv, llc_nop_start, llc_nop_stop, llc_nop_xmit_from_hci,
    nfc_llc_nop_register, LLC_NOP_NAME,
};
use lupos_net::nfc::nci::{
    nci_to_errno, EALREADY, EBADRQC, ECOMM, EHOSTDOWN, EMSGSIZE, NCI_STATUS_DISCOVERY_ALREADY_STARTED,
    NCI_STATUS_DISCOVERY_TARGET_ACTIVATION_FAILED, NCI_STATUS_FAILED, NCI_STATUS_INVALID_PARAM,
    NCI_STATUS_MESSAGE_SIZE_EXCEEDED, NCI_STATUS_NFCEE_INTERFACE_ACTIVATION_FAILED, NCI_STATUS_NFCEE_PROTOCOL_ERROR,
    NCI_STATUS_NFCEE_TIMEOUT_ERROR, NCI_STATUS_NFCEE_TRANSMISSION_ERROR, NCI_STATUS_NOT_INITIALIZED, NCI_STATUS_OK,
    NCI_STATUS_REJECTED, NCI_STATUS_RF_FRAME_CORRUPTED, NCI_STATUS_RF_PROTOCOL_ERROR, NCI_STATUS_RF_TIMEOUT_ERROR,
    NCI_STATUS_RF_TRANSMISSION_ERROR, NCI_STATUS_SEMANTIC_ERROR, NCI_STATUS_SYNTAX_ERROR, NCI_STATUS_UNKNOWN_GID,
    NCI_STATUS_UNKNOWN_OID,
};

#[test]
fn netlabel_user_matches_linux_source() {
    // The init order is mgmt, cipsov4, calipso, unlabeled.
    let r = NetlabelInitResults { mgmt: 0, cipsov4: -2, calipso: -3, unlabeled: -4 };
    assert_eq!(netlbl_netlink_init(r), -2);
    assert_eq!(AUDIT_OFF, 0);
}

#[test]
fn netlink_init_returns_first_component_failure() {
    assert_eq!(
        netlbl_netlink_init(NetlabelInitResults { mgmt: -1, cipsov4: -2, calipso: -3, unlabeled: -4 }),
        -1
    );
    assert_eq!(
        netlbl_netlink_init(NetlabelInitResults { mgmt: 0, cipsov4: 0, calipso: -3, unlabeled: -4 }),
        -3
    );
    assert_eq!(
        netlbl_netlink_init(NetlabelInitResults { mgmt: 0, cipsov4: 0, calipso: 0, unlabeled: 7 }),
        7
    );
}

#[test]
fn audit_common_obeys_audit_enabled_and_alloc_edges() {
    let info = NetlabelAuditInfo { loginuid: 42, sessionid: 9, subj_ctx: "system_u:system_r" };
    assert_eq!(netlbl_audit_start_common(100, info, AUDIT_OFF, true), None);
    assert_eq!(netlbl_audit_start_common(100, info, 1, false), None);
    assert_eq!(
        netlbl_audit_start_common(100, info, 1, true),
        Some(AuditBuffer { msg_type: 100, auid: 42, sessionid: 9, subj_ctx: "system_u:system_r".into() })
    );
}

#[test]
fn af_nfc_matches_linux_source() {
    let ops = af_nfc_init();
    assert_eq!(ops.family, PF_NFC);
    assert_eq!(ops.create, "nfc_sock_create");
    let table = NfcProtoTable::new();
    assert_eq!(table.nfc_sock_create(true, 2, true), Err(-EINVAL));
}

#[test]
fn nfc_proto_table_enforces_linux_registration_errors() {
    let mut table = NfcProtoTable::new();
    let proto = NfcProtocol { id: 1, create_errno: 0, proto_register_errno: 0 };
    assert_eq!(table.nfc_sock_create(false, 1, true), Err(-EAFNOSUPPORT));
    assert_eq!(table.nfc_sock_create(true, -1, true), Err(-EINVAL));
    assert_eq!(table.nfc_sock_create(true, 1, true), Err(-EPROTONOSUPPORT));
    assert_eq!(table.nfc_proto_register(proto), Ok(()));
    assert_eq!(table.nfc_sock_create(true, 1, true), Ok(()));
    assert_eq!(table.nfc_proto_register(proto), Err(-EBUSY));
    assert_eq!(table.nfc_sock_create(true, 1, false), Err(-EPROTONOSUPPORT));
    table.nfc_proto_unregister(proto);
    assert_eq!(table.nfc_sock_create(true, 1, true), Err(-EPROTONOSUPPORT));
    assert_eq!(af_nfc_init().family, PF_NFC);
}

#[test]
fn nfc_proto_register_reports_protocol_and_create_errors() {
    let mut table = NfcProtoTable::new();
    let failing = NfcProtocol { id: 0, create_errno: -12, proto_register_errno: -5 };
    assert_eq!(table.nfc_proto_register(failing), Err(-5));
    let creating = NfcProtocol { id: 0, create_errno: -12, proto_register_errno: 0 };
    assert_eq!(table.nfc_proto_register(creating), Ok(()));
    assert_eq!(table.nfc_sock_create(true, 0, true), Err(-12));
    assert_eq!(table.nfc_proto_register(NfcProtocol { id: 2, ..creating }), Err(-EINVAL));
}

fn xmit(hdev: u32, skb: &[u8]) -> i32 {
    hdev as i32 + skb.len() as i32
}

fn rcv(hdev: u32, skb: &[u8]) -> usize {
    hdev as usize + skb.len()
}

fn failure(_hdev: u32) {}

#[test]
fn llc_nop_matches_linux_source() {
    let mut rx_headroom = 8;
    let mut rx_tailroom = 9;
    let llc = llc_nop_init(4, xmit, rcv, 2, 3, &mut rx_headroom, &mut rx_tailroom, failure);
    assert_eq!(rx_headroom, 0);
    assert_eq!(rx_tailroom, 0);
    assert_eq!(llc.tx_headroom, 2);
    assert_eq!(llc.tx_tailroom, 3);
    assert_eq!(llc_nop_start(), 0);
    assert_eq!(llc_nop_stop(), 0);
    assert_eq!(llc_nop_rcv_from_drv(&llc, b"abc"), 7);
    assert_eq!(llc_nop_xmit_from_hci(&llc, b"abc"), 7);
    assert_eq!(llc_nop_deinit(llc), 4);
    assert_eq!(nfc_llc_nop_register().name, LLC_NOP_NAME);
    assert!(nfc_llc_nop_register().has_xmit_from_hci);
}

#[test]
fn nci_lib_matches_linux_source() {
    assert_eq!(nci_to_errno(NCI_STATUS_SEMANTIC_ERROR), -EPROTO);
    assert_eq!(nci_to_errno(NCI_STATUS_INVALID_PARAM), -EPROTO);
    assert_eq!(nci_to_errno(NCI_STATUS_RF_PROTOCOL_ERROR), -EPROTO);
    assert_eq!(nci_to_errno(NCI_STATUS_UNKNOWN_OID), -EBADRQC);
    assert_eq!(nci_to_errno(NCI_STATUS_NFCEE_INTERFACE_ACTIVATION_FAILED), -ECONNREFUSED);
    assert_eq!(nci_to_errno(NCI_STATUS_NFCEE_TRANSMISSION_ERROR), -ECOMM);
    assert_eq!(nci_to_errno(NCI_STATUS_NFCEE_TIMEOUT_ERROR), -ETIMEDOUT);
}

#[test]
fn nci_status_codes_map_to_linux_errno_values() {
    assert_eq!(nci_to_errno(NCI_STATUS_OK), 0);
    assert_eq!(nci_to_errno(NCI_STATUS_REJECTED), -EBUSY);
    assert_eq!(nci_to_errno(NCI_STATUS_RF_FRAME_CORRUPTED), -EBADMSG);
    assert_eq!(nci_to_errno(NCI_STATUS_NOT_INITIALIZED), -EHOSTDOWN);
    assert_eq!(nci_to_errno(NCI_STATUS_SYNTAX_ERROR), -EPROTO);
    assert_eq!(nci_to_errno(NCI_STATUS_NFCEE_PROTOCOL_ERROR), -EPROTO);
    assert_eq!(nci_to_errno(NCI_STATUS_UNKNOWN_GID), -EBADRQC);
    assert_eq!(nci_to_errno(NCI_STATUS_MESSAGE_SIZE_EXCEEDED), -EMSGSIZE);
    assert_eq!(nci_to_errno(NCI_STATUS_DISCOVERY_ALREADY_STARTED), -EALREADY);
    assert_eq!(nci_to_errno(NCI_STATUS_DISCOVERY_TARGET_ACTIVATION_FAILED), -ECONNREFUSED);
    assert_eq!(nci_to_errno(NCI_STATUS_RF_TRANSMISSION_ERROR), -ECOMM);
    assert_eq!(nci_to_errno(NCI_STATUS_RF_TIMEOUT_ERROR), -ETIMEDOUT);
    assert_eq!(nci_to_errno(NCI_STATUS_FAILED), -ENOSYS);
    assert_eq!(nci_to_errno(0xff), -ENOSYS);
}
