//! Xtables TRACE target: marks packets for flow tracing.
use vstd::prelude::*;

verus! {

pub const MODULE_DESCRIPTION: &'static str = "Xtables: packet flow tracing";
pub const MODULE_LICENSE: &'static str = "GPL";
pub const MODULE_SOFTDEP: &'static str = "pre: nf_log_syslog";
pub const NFPROTO_IPV4: u8 = 2;
pub const NFPROTO_IPV6: u8 = 10;
pub const NF_LOG_TYPE_LOG: u8 = 0;
pub const XT_CONTINUE: u32 = 0xffff_fffc;

/// The packet state the target touches.
#[derive(Clone, Copy, Debug, Default, PartialEq, Eq)]
pub struct TraceSkb {
    pub nf_trace: bool,
}

/// Registration record of an xtables target.
#[derive(Clone, Copy, Debug, PartialEq, Eq)]
pub struct XtTarget {
    pub name: &'static str,
    pub revision: u8,
    pub family: u8,
    pub table: &'static str,
}

/// The rule check reports what the logger lookup reported.
pub fn trace_tg_check(logger_find_get_result: i32) -> (r: i32)
    ensures
        r == logger_find_get_result,
{
    logger_find_get_result
}

/// Releases the logger of `family`: the (family, logger type) pair to put.
pub fn trace_tg_destroy(family: u8) -> (r: (u8, u8))
    ensures
        r == (family, NF_LOG_TYPE_LOG),
{
    (family, NF_LOG_TYPE_LOG)
}

/// Marks the packet for tracing and lets it continue.
pub fn trace_tg(skb: &mut TraceSkb) -> (r: u32)
    ensures
        final(skb).nf_trace,
        r == XT_CONTINUE,
{
    skb.nf_trace = true;
    XT_CONTINUE
}

/// The two registration records (IPv4 and IPv6, raw table).
pub fn trace_tg_init() -> (r: [XtTarget; 2])
    ensures
        r[0].name == "TRACE" && r[1].name == "TRACE",
        r[0].revision == 0 && r[1].revision == 0,
        r[0].family == NFPROTO_IPV4 && r[1].family == NFPROTO_IPV6,
        r[0].table == "raw" && r[1].table == "raw",
{
    [
        XtTarget { name: "TRACE", revision: 0, family: NFPROTO_IPV4, table: "raw" },
        XtTarget { name: "TRACE", revision: 0, family: NFPROTO_IPV6, table: "raw" },
    ]
}

} // verus!
