//! RDS sysctls: reconnect delays, unacked limits and ping, and their
//! registration.
use vstd::prelude::*;

use crate::errno::ENOMEM;

verus! {

pub const HZ: u64 = 100;
pub const DEFAULT_MAX_UNACKED_PACKETS: u32 = 8;
pub const DEFAULT_MAX_UNACKED_BYTES: u32 = 16777216;
pub const DEFAULT_PING_ENABLE: u32 = 1;

/// The sysctl values and whether the table is registered.
#[derive(Clone, Copy, Debug, PartialEq, Eq)]
pub struct RdsSysctlState {
    pub reconnect_min: u64,
    pub reconnect_max: u64,
    pub reconnect_min_jiffies: u64,
    pub reconnect_max_jiffies: u64,
    pub max_unacked_packets: u32,
    pub max_unacked_bytes: u32,
    pub ping_enable: u32,
    pub registered: bool,
}

impl Default for RdsSysctlState {
    /// The defaults: reconnect delays 1 ms..unbounded (0..HZ jiffies),
    /// 8 packets or 16 MiB unacked, ping on, not registered.
    fn default() -> (r: Self)
        ensures
            r == (RdsSysctlState {
                reconnect_min: 1,
                reconnect_max: u64::MAX,
                reconnect_min_jiffies: 0,
                reconnect_max_jiffies: HZ,
                max_unacked_packets: DEFAULT_MAX_UNACKED_PACKETS,
                max_unacked_bytes: DEFAULT_MAX_UNACKED_BYTES,
                ping_enable: DEFAULT_PING_ENABLE,
                registered: false,
            }),
    {
        RdsSysctlState {
            reconnect_min: 1,
            reconnect_max: u64::MAX,
            reconnect_min_jiffies: 0,
            reconnect_max_jiffies: HZ,
            max_unacked_packets: DEFAULT_MAX_UNACKED_PACKETS,
            max_unacked_bytes: DEFAULT_MAX_UNACKED_BYTES,
            ping_enable: DEFAULT_PING_ENABLE,
            registered: false,
        }
    }
}

/// The sysctl names, in table order.
pub fn rds_sysctl_names() -> (r: [&'static str; 5])
    ensures
        r[0] == "reconnect_min_delay_ms",
        r[1] == "reconnect_max_delay_ms",
        r[2] == "max_unacked_packets",
        r[3] == "max_unacked_bytes",
        r[4] == "ping_enable",
{
    ["reconnect_min_delay_ms", "reconnect_max_delay_ms", "max_unacked_packets", "max_unacked_bytes", "ping_enable"]
}

/// `ms` milliseconds in jiffies, rounded up (the product saturating).
pub open spec fn msecs_to_jiffies_spec(ms: u64) -> u64 {
    let m: int = if ms * HZ > u64::MAX { u64::MAX as int } else { ms * HZ };
    ((m + 999) / 1000) as u64
}

/// Converts milliseconds to jiffies; see `msecs_to_jiffies_spec`.
pub fn msecs_to_jiffies(ms: u64) -> (r: u64)
    ensures
        r == msecs_to_jiffies_spec(ms),
{
    let m = match ms.checked_mul(HZ) {
        Some(v) => v,
        None => u64::MAX,
    };
    m / 1000 + if m % 1000 != 0 { 1 } else { 0 }
}

/// Sets the minimum reconnect delay to one millisecond's worth of jiffies,
/// then registers the table: -ENOMEM when registration failed.
pub fn rds_sysctl_init(state: &mut RdsSysctlState, register_ok: bool) -> (r: Result<(), i32>)
    ensures
        final(state).reconnect_min == msecs_to_jiffies_spec(1),
        final(state).reconnect_min_jiffies == msecs_to_jiffies_spec(1),
        final(state).registered == (register_ok || old(state).registered),
        r == if register_ok { Ok::<(), i32>(()) } else { Err((-ENOMEM) as i32) },
        *final(state) == (RdsSysctlState {
            reconnect_min: final(state).reconnect_min,
            reconnect_min_jiffies: final(state).reconnect_min_jiffies,
            registered: final(state).registered,
            ..*old(state)
        }),
{
    state.reconnect_min = msecs_to_jiffies(1);
    state.reconnect_min_jiffies = state.reconnect_min;
    if !register_ok {
        return Err(-ENOMEM);
    }
    state.registered = true;
    Ok(())
}

/// Unregisters the table.
pub fn rds_sysctl_exit(state: &mut RdsSysctlState)
    ensures
        *final(state) == (RdsSysctlState { registered: false, ..*old(state) }),
{
    state.registered = false;
}

} // verus!
