//! NFC Controller Interface status to errno mapping.
use vstd::prelude::*;

use crate::errno::{EBADMSG, EBUSY, ECONNREFUSED, ENOSYS, EPROTO, ETIMEDOUT};

verus! {

pub const ECOMM: i32 = 70;
pub const EBADRQC: i32 = 56;
pub const EMSGSIZE: i32 = 90;
pub const EHOSTDOWN: i32 = 112;
pub const EALREADY: i32 = 114;
pub const NCI_STATUS_OK: u8 = 0x00;
pub const NCI_STATUS_REJECTED: u8 = 0x01;
pub const NCI_STATUS_RF_FRAME_CORRUPTED: u8 = 0x02;
pub const NCI_STATUS_FAILED: u8 = 0x03;
pub const NCI_STATUS_NOT_INITIALIZED: u8 = 0x04;
pub const NCI_STATUS_SYNTAX_ERROR: u8 = 0x05;
pub const NCI_STATUS_SEMANTIC_ERROR: u8 = 0x06;
pub const NCI_STATUS_UNKNOWN_GID: u8 = 0x07;
pub const NCI_STATUS_UNKNOWN_OID: u8 = 0x08;
pub const NCI_STATUS_INVALID_PARAM: u8 = 0x09;
pub const NCI_STATUS_MESSAGE_SIZE_EXCEEDED: u8 = 0x0a;
pub const NCI_STATUS_DISCOVERY_ALREADY_STARTED: u8 = 0xa0;
pub const NCI_STATUS_DISCOVERY_TARGET_ACTIVATION_FAILED: u8 = 0xa1;
pub const NCI_STATUS_RF_TRANSMISSION_ERROR: u8 = 0xb0;
pub const NCI_STATUS_RF_PROTOCOL_ERROR: u8 = 0xb1;
pub const NCI_STATUS_RF_TIMEOUT_ERROR: u8 = 0xb2;
pub const NCI_STATUS_NFCEE_INTERFACE_ACTIVATION_FAILED: u8 = 0xc0;
pub const NCI_STATUS_NFCEE_TRANSMISSION_ERROR: u8 = 0xc1;
pub const NCI_STATUS_NFCEE_PROTOCOL_ERROR: u8 = 0xc2;
pub const NCI_STATUS_NFCEE_TIMEOUT_ERROR: u8 = 0xc3;

/// The negated errno a controller status code stands for.
pub open spec fn nci_errno_spec(code: u8) -> int {
    if code == NCI_STATUS_OK {
        0
    } else if code == NCI_STATUS_REJECTED {
        -EBUSY
    } else if code == NCI_STATUS_RF_FRAME_CORRUPTED {
        -EBADMSG
    } else if code == NCI_STATUS_NOT_INITIALIZED {
        -EHOSTDOWN
    } else if code == NCI_STATUS_SYNTAX_ERROR || code == NCI_STATUS_SEMANTIC_ERROR || code == NCI_STATUS_INVALID_PARAM
        || code == NCI_STATUS_RF_PROTOCOL_ERROR || code == NCI_STATUS_NFCEE_PROTOCOL_ERROR {
        -EPROTO
    } else if code == NCI_STATUS_UNKNOWN_GID || code == NCI_STATUS_UNKNOWN_OID {
        -EBADRQC
    } else if code == NCI_STATUS_MESSAGE_SIZE_EXCEEDED {
        -EMSGSIZE
    } else if code == NCI_STATUS_DISCOVERY_ALREADY_STARTED {
        -EALREADY
    } else if code == NCI_STATUS_DISCOVERY_TARGET_ACTIVATION_FAILED || code == NCI_STATUS_NFCEE_INTERFACE_ACTIVATION_FAILED {
        -ECONNREFUSED
    } else if code == NCI_STATUS_RF_TRANSMISSION_ERROR || code == NCI_STATUS_NFCEE_TRANSMISSION_ERROR {
        -ECOMM
    } else if code == NCI_STATUS_RF_TIMEOUT_ERROR || code == NCI_STATUS_NFCEE_TIMEOUT_ERROR {
        -ETIMEDOUT
    } else {
        -ENOSYS
    }
}

/// Maps an NCI status code to a negated errno (unknown codes: -ENOSYS).
pub fn nci_to_errno(code: u8) -> (r: i32)
    ensures
        r == nci_errno_spec(code),
{
    match code {
        NCI_STATUS_OK => 0,
        NCI_STATUS_REJECTED => -EBUSY,
        NCI_STATUS_RF_FRAME_CORRUPTED => -EBADMSG,
        NCI_STATUS_NOT_INITIALIZED => -EHOSTDOWN,
        NCI_STATUS_SYNTAX_ERROR | NCI_STATUS_SEMANTIC_ERROR | NCI_STATUS_INVALID_PARAM
        | NCI_STATUS_RF_PROTOCOL_ERROR | NCI_STATUS_NFCEE_PROTOCOL_ERROR => -EPROTO,
        NCI_STATUS_UNKNOWN_GID | NCI_STATUS_UNKNOWN_OID => -EBADRQC,
        NCI_STATUS_MESSAGE_SIZE_EXCEEDED => -EMSGSIZE,
        NCI_STATUS_DISCOVERY_ALREADY_STARTED => -EALREADY,
        NCI_STATUS_DISCOVERY_TARGET_ACTIVATION_FAILED | NCI_STATUS_NFCEE_INTERFACE_ACTIVATION_FAILED => -ECONNREFUSED,
        NCI_STATUS_RF_TRANSMISSION_ERROR | NCI_STATUS_NFCEE_TRANSMISSION_ERROR => -ECOMM,
        NCI_STATUS_RF_TIMEOUT_ERROR | NCI_STATUS_NFCEE_TIMEOUT_ERROR => -ETIMEDOUT,
        _ => -ENOSYS,
    }
}

/// Only the OK status maps to success, and every code maps to zero or a
/// negated errno.
pub proof fn lemma_nci_errno_zero_iff_ok(code: u8)
    ensures
        (nci_errno_spec(code) == 0) <==> code == NCI_STATUS_OK,
        nci_errno_spec(code) <= 0,
{
}

} // verus!
