//! Phonet's local port range sysctl.
use vstd::prelude::*;

use crate::errno::{EINVAL, ENOMEM};

verus! {

pub const DYNAMIC_PORT_MIN: i32 = 0x40;
pub const DYNAMIC_PORT_MAX: i32 = 0x7f;
pub const PHONET_SYSCTL_PATH: &'static str = "net/phonet";
pub const PHONET_PROCNAME: &'static str = "local_port_range";

/// A range of local ports.
#[derive(Clone, Copy, Debug, PartialEq, Eq)]
pub struct LocalPortRange {
    pub min: i32,
    pub max: i32,
}

/// The sysctl table entry.
#[derive(Clone, Copy, Debug, PartialEq, Eq)]
pub struct PhonetCtlTable {
    pub procname: &'static str,
    pub mode: u16,
    pub path: &'static str,
}

/// The bounds each end of the range may take (0..=1023) and the default
/// dynamic range.
pub fn local_port_range_limits() -> (r: (LocalPortRange, LocalPortRange, LocalPortRange))
    ensures
        r.0 == (LocalPortRange { min: 0, max: 0 }),
        r.1 == (LocalPortRange { min: 1023, max: 1023 }),
        r.2 == (LocalPortRange { min: DYNAMIC_PORT_MIN, max: DYNAMIC_PORT_MAX }),
{
    (LocalPortRange { min: 0, max: 0 }, LocalPortRange { min: 1023, max: 1023 }, LocalPortRange {
        min: DYNAMIC_PORT_MIN,
        max: DYNAMIC_PORT_MAX,
    })
}

/// The range's two ends.
pub fn phonet_get_local_port_range(range: LocalPortRange) -> (r: (i32, i32))
    ensures
        r == (range.min, range.max),
{
    (range.min, range.max)
}

/// The sysctl handler: the proc handler's error, the current range on a
/// read, -EINVAL for a write whose maximum is below its minimum, else the
/// written range.
pub fn proc_local_port_range(current: LocalPortRange, write: bool, requested: LocalPortRange, proc_ret: i32) -> (r: Result<LocalPortRange, i32>)
    ensures
        r == if proc_ret != 0 {
            Err::<LocalPortRange, i32>(proc_ret)
        } else if !write {
            Ok(current)
        } else if requested.max < requested.min {
            Err((-EINVAL) as i32)
        } else {
            Ok(requested)
        },
{
    if proc_ret != 0 {
        return Err(proc_ret);
    }
    if !write {
        return Ok(current);
    }
    if requested.max < requested.min {
        return Err(-EINVAL);
    }
    Ok(requested)
}

/// Registers `net/phonet/local_port_range` (mode 0644); -ENOMEM when
/// registration failed.
pub fn phonet_sysctl_init(register_ok: bool) -> (r: Result<PhonetCtlTable, i32>)
    ensures
        !register_ok ==> r == Err::<PhonetCtlTable, i32>((-ENOMEM) as i32),
        register_ok ==> (r matches Ok(t) && t.procname == PHONET_PROCNAME && t.mode == 0o644 && t.path == PHONET_SYSCTL_PATH),
{
    if register_ok {
        Ok(PhonetCtlTable { procname: PHONET_PROCNAME, mode: 0o644, path: PHONET_SYSCTL_PATH })
    } else {
        Err(-ENOMEM)
    }
}

/// Unregisters the table: whether there was one to unregister.
pub fn phonet_sysctl_exit(registered: bool) -> (r: bool)
    ensures
        r == registered,
{
    registered
}

} // verus!
