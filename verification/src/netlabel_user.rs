//! NetLabel generic netlink setup and audit-message helpers.
use vstd::prelude::*;

verus! {

pub const AUDIT_OFF: u8 = 0;

/// Results of the four generic netlink family registrations, in order.
#[derive(Clone, Copy, Debug, PartialEq, Eq)]
pub struct NetlabelInitResults {
    pub mgmt: i32,
    pub cipsov4: i32,
    pub calipso: i32,
    pub unlabeled: i32,
}

/// Audit identity of the caller.
#[derive(Clone, Copy, Debug, PartialEq, Eq)]
pub struct NetlabelAuditInfo<'a> {
    pub loginuid: u32,
    pub sessionid: u32,
    pub subj_ctx: &'a str,
}

/// A started audit record.
#[derive(Clone, Debug, PartialEq, Eq)]
pub struct AuditBuffer {
    pub msg_type: i32,
    pub auid: u32,
    pub sessionid: u32,
    pub subj_ctx: String,
}

/// Registers the families in order and reports the first failure, or the
/// result of the last one.
pub fn netlbl_netlink_init(results: NetlabelInitResults) -> (r: i32)
    ensures
        r == if results.mgmt != 0 {
            results.mgmt
        } else if results.cipsov4 != 0 {
            results.cipsov4
        } else if results.calipso != 0 {
            results.calipso
        } else {
            results.unlabeled
        },
{
    if results.mgmt != 0 {
        return results.mgmt;
    }
    if results.cipsov4 != 0 {
        return results.cipsov4;
    }
    if results.calipso != 0 {
        return results.calipso;
    }
    results.unlabeled
}

/// Starts an audit record carrying the caller's identity, unless auditing
/// is off or the record cannot be started.
pub fn netlbl_audit_start_common(
    msg_type: i32,
    audit_info: NetlabelAuditInfo<'_>,
    audit_enabled: u8,
    audit_log_start_ok: bool,
) -> (r: Option<AuditBuffer>)
    ensures
        (audit_enabled == AUDIT_OFF || !audit_log_start_ok) <==> r is None,
        r matches Some(b) ==> {
            &&& b.msg_type == msg_type
            &&& b.auid == audit_info.loginuid
            &&& b.sessionid == audit_info.sessionid
            &&& b.subj_ctx@ == audit_info.subj_ctx@
        },
{
    if audit_enabled == AUDIT_OFF || !audit_log_start_ok {
        return None;
    }
    Some(AuditBuffer {
        msg_type,
        auid: audit_info.loginuid,
        sessionid: audit_info.sessionid,
        subj_ctx: String::from_str(audit_info.subj_ctx),
    })
}

} // verus!
