//! TIPC sysctl table and its registration.
use vstd::prelude::*;

use crate::errno::ENOMEM;

verus! {

/// One sysctl entry: name, mode, handler and bounds.
#[derive(Clone, Copy, Debug, PartialEq, Eq)]
pub struct TipcCtlTable {
    pub procname: &'static str,
    pub mode: u16,
    pub handler: &'static str,
    pub extra1: Option<&'static str>,
    pub extra2: Option<&'static str>,
}

/// Whether the table is registered.
#[derive(Clone, Copy, Debug, Default, PartialEq, Eq)]
pub struct TipcSysctlState {
    pub registered: bool,
}

/// The six TIPC sysctls, all mode 0644.
pub fn tipc_table() -> (r: [TipcCtlTable; 6])
    ensures
        r[0].procname == "tipc_rmem" && r[0].handler == "proc_dointvec_minmax" && r[0].extra1 == Some("SYSCTL_ONE")
            && r[0].extra2 is None,
        r[1].procname == "named_timeout" && r[1].handler == "proc_dointvec_minmax" && r[1].extra1 == Some("SYSCTL_ZERO")
            && r[1].extra2 is None,
        r[2].procname == "sk_filter" && r[2].handler == "proc_doulongvec_minmax" && r[2].extra1 is None && r[2].extra2 is None,
        r[3].procname == "max_tfms" && r[3].handler == "proc_dointvec_minmax" && r[3].extra1 == Some("SYSCTL_ONE")
            && r[3].extra2 is None,
        r[4].procname == "key_exchange_enabled" && r[4].handler == "proc_dointvec_minmax" && r[4].extra1 == Some(
            "SYSCTL_ZERO",
        ) && r[4].extra2 == Some("SYSCTL_ONE"),
        r[5].procname == "bc_retruni" && r[5].handler == "proc_doulongvec_minmax" && r[5].extra1 is None && r[5].extra2 is None,
        forall|i: int| 0 <= i < 6 ==> (#[trigger] r[i]).mode == 0o644,
{
    [
        TipcCtlTable { procname: "tipc_rmem", mode: 0o644, handler: "proc_dointvec_minmax", extra1: Some("SYSCTL_ONE"), extra2: None },
        TipcCtlTable {
            procname: "named_timeout",
            mode: 0o644,
            handler: "proc_dointvec_minmax",
            extra1: Some("SYSCTL_ZERO"),
            extra2: None,
        },
        TipcCtlTable { procname: "sk_filter", mode: 0o644, handler: "proc_doulongvec_minmax", extra1: None, extra2: None },
        TipcCtlTable { procname: "max_tfms", mode: 0o644, handler: "proc_dointvec_minmax", extra1: Some("SYSCTL_ONE"), extra2: None },
        TipcCtlTable {
            procname: "key_exchange_enabled",
            mode: 0o644,
            handler: "proc_dointvec_minmax",
            extra1: Some("SYSCTL_ZERO"),
            extra2: Some("SYSCTL_ONE"),
        },
        TipcCtlTable { procname: "bc_retruni", mode: 0o644, handler: "proc_doulongvec_minmax", extra1: None, extra2: None },
    ]
}

/// Registers the table: -ENOMEM when registration failed.
pub fn tipc_register_sysctl(state: &mut TipcSysctlState, register_ok: bool) -> (r: Result<(), i32>)
    ensures
        !register_ok ==> r == Err::<(), i32>((-ENOMEM) as i32) && *final(state) == *old(state),
        register_ok ==> r == Ok::<(), i32>(()) && final(state).registered,
{
    if !register_ok {
        return Err(-ENOMEM);
    }
    state.registered = true;
    Ok(())
}

/// Unregisters the table.
pub fn tipc_unregister_sysctl(state: &mut TipcSysctlState)
    ensures
        !final(state).registered,
{
    state.registered = false;
}

} // verus!
