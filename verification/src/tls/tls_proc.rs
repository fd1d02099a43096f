//! TLS statistics in procfs: one row per MIB counter.
use vstd::prelude::*;

use crate::errno::ENOMEM;

verus! {

pub const TLS_PROC_ENTRY: &'static str = "tls_stat";
pub const TLS_PROC_MODE: u16 = 0o444;
pub const TLS_MIB_COUNT: usize = 17;

/// The proc file's name and mode.
#[derive(Clone, Copy, Debug, PartialEq, Eq)]
pub struct TlsProcFile {
    pub name: &'static str,
    pub mode: u16,
}

/// The name of MIB counter `i`.
pub open spec fn tls_mib_name(i: int) -> &'static str {
    if i == 0 {
        "TlsCurrTxSw"
    } else if i == 1 {
        "TlsCurrRxSw"
    } else if i == 2 {
        "TlsCurrTxDevice"
    } else if i == 3 {
        "TlsCurrRxDevice"
    } else if i == 4 {
        "TlsTxSw"
    } else if i == 5 {
        "TlsRxSw"
    } else if i == 6 {
        "TlsTxDevice"
    } else if i == 7 {
        "TlsRxDevice"
    } else if i == 8 {
        "TlsDecryptError"
    } else if i == 9 {
        "TlsRxDeviceResync"
    } else if i == 10 {
        "TlsDecryptRetry"
    } else if i == 11 {
        "TlsRxNoPadViolation"
    } else if i == 12 {
        "TlsRxRekeyOk"
    } else if i == 13 {
        "TlsRxRekeyError"
    } else if i == 14 {
        "TlsTxRekeyOk"
    } else if i == 15 {
        "TlsTxRekeyError"
    } else {
        "TlsRxRekeyReceived"
    }
}

/// The MIB counter names, in counter order.
pub fn tls_mib_list() -> (r: [&'static str; 17])
    ensures
        forall|i: int| 0 <= i < 17 ==> r[i] == tls_mib_name(i),
{
    let r = [
        "TlsCurrTxSw",
        "TlsCurrRxSw",
        "TlsCurrTxDevice",
        "TlsCurrRxDevice",
        "TlsTxSw",
        "TlsRxSw",
        "TlsTxDevice",
        "TlsRxDevice",
        "TlsDecryptError",
        "TlsRxDeviceResync",
        "TlsDecryptRetry",
        "TlsRxNoPadViolation",
        "TlsRxRekeyOk",
        "TlsRxRekeyError",
        "TlsTxRekeyOk",
        "TlsTxRekeyError",
        "TlsRxRekeyReceived",
    ];
    assert forall|i: int| 0 <= i < 17 implies r[i] == tls_mib_name(i) by {
        if i == 0 {} else if i == 1 {} else if i == 2 {} else if i == 3 {} else if i == 4 {} else if i == 5 {}
        else if i == 6 {} else if i == 7 {} else if i == 8 {} else if i == 9 {} else if i == 10 {} else if i == 11 {}
        else if i == 12 {} else if i == 13 {} else if i == 14 {} else if i == 15 {} else {}
    }
    r
}

/// The statistics rows: every counter's name with its value (zero when
/// `values` has none for it).
pub fn tls_statistics_seq_show(values: &[u64]) -> (r: Vec<(&'static str, u64)>)
    ensures
        r@.len() == TLS_MIB_COUNT,
        forall|i: int| 0 <= i < 17 ==> #[trigger] r@[i] == (tls_mib_name(i), if i < values@.len() { values@[i] } else { 0 }),
{
    let names = tls_mib_list();
    let mut rows: Vec<(&'static str, u64)> = Vec::new();
    let mut i: usize = 0;
    while i < TLS_MIB_COUNT
        invariant
            i <= 17,
            forall|k: int| 0 <= k < 17 ==> names[k] == tls_mib_name(k),
            rows@.len() == i,
            forall|k: int| 0 <= k < i ==> #[trigger] rows@[k] == (tls_mib_name(k), if k < values@.len() { values@[k] } else { 0 }),
        decreases 17 - i,
    {
        let v: u64 = if i < values.len() { values[i] } else { 0 };
        rows.push((names[i], v));
        i += 1;
    }
    rows
}

/// Creates the proc file (read-only "tls_stat"); ENOMEM when procfs
/// could not.
pub fn tls_proc_init(proc_available: bool) -> (r: Result<Option<TlsProcFile>, i32>)
    ensures
        r == if proc_available {
            Ok::<Option<TlsProcFile>, i32>(Some(TlsProcFile { name: TLS_PROC_ENTRY, mode: TLS_PROC_MODE }))
        } else {
            Err(ENOMEM)
        },
{
    if proc_available {
        Ok(Some(TlsProcFile { name: TLS_PROC_ENTRY, mode: TLS_PROC_MODE }))
    } else {
        Err(ENOMEM)
    }
}

/// Removes the proc file; nothing else to undo.
pub fn tls_proc_fini(entry: Option<TlsProcFile>) {
}

} // verus!
