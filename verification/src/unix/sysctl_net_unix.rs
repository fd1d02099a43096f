//! AF_UNIX per-network-namespace sysctls: `net/unix/max_dgram_qlen`.
use vstd::prelude::*;

use crate::errno::ENOMEM;

verus! {

pub const UNIX_SYSCTL_PATH: &'static str = "net/unix";
pub const MAX_DGRAM_QLEN: &'static str = "max_dgram_qlen";
pub const UNIX_SYSCTL_MODE: u16 = 0o644;

/// The registered table entry.
#[derive(Clone, Copy, Debug, PartialEq, Eq)]
pub struct UnixCtlTable {
    pub procname: &'static str,
    pub maxlen: usize,
    pub mode: u16,
    pub data: i32,
}

/// A namespace's AF_UNIX sysctl state.
#[derive(Clone, Debug, PartialEq, Eq)]
pub struct UnixNet {
    pub is_init_net: bool,
    pub sysctl_max_dgram_qlen: i32,
    pub ctl: Option<UnixCtlTable>,
    pub duplicated_table: bool,
}

impl UnixNet {
    /// A namespace with no table registered.
    pub fn new(is_init_net: bool, sysctl_max_dgram_qlen: i32) -> (r: Self)
        ensures
            r == (UnixNet { is_init_net, sysctl_max_dgram_qlen, ctl: None, duplicated_table: false }),
    {
        UnixNet { is_init_net, sysctl_max_dgram_qlen, ctl: None, duplicated_table: false }
    }
}

/// Registers the table; other namespaces get their own copy of it.
pub fn unix_sysctl_register(net: &mut UnixNet) -> (r: Result<(), i32>)
    ensures
        r == Ok::<(), i32>(()),
        final(net).is_init_net == old(net).is_init_net,
        final(net).sysctl_max_dgram_qlen == old(net).sysctl_max_dgram_qlen,
        final(net).duplicated_table == !old(net).is_init_net,
        final(net).ctl == Some(UnixCtlTable {
            procname: MAX_DGRAM_QLEN,
            maxlen: vstd::layout::size_of::<i32>() as usize,
            mode: UNIX_SYSCTL_MODE,
            data: old(net).sysctl_max_dgram_qlen,
        }),
{
    unix_sysctl_register_with_alloc(net, true)
}

/// Registers the table when the copy for a non-initial namespace could be
/// allocated (ENOMEM otherwise, nothing changed): the entry points at the
/// namespace's queue length.
pub fn unix_sysctl_register_with_alloc(net: &mut UnixNet, alloc_ok: bool) -> (r: Result<(), i32>)
    ensures
        !old(net).is_init_net && !alloc_ok ==> r == Err::<(), i32>(ENOMEM) && *final(net) == *old(net),
        old(net).is_init_net || alloc_ok ==> {
            &&& r == Ok::<(), i32>(())
            &&& final(net).is_init_net == old(net).is_init_net
            &&& final(net).sysctl_max_dgram_qlen == old(net).sysctl_max_dgram_qlen
            &&& final(net).duplicated_table == !old(net).is_init_net
            &&& final(net).ctl == Some(UnixCtlTable {
                procname: MAX_DGRAM_QLEN,
                maxlen: vstd::layout::size_of::<i32>() as usize,
                mode: UNIX_SYSCTL_MODE,
                data: old(net).sysctl_max_dgram_qlen,
            })
        },
{
    if !net.is_init_net && !alloc_ok {
        return Err(ENOMEM);
    }
    net.duplicated_table = !net.is_init_net;
    net.ctl = Some(UnixCtlTable {
        procname: MAX_DGRAM_QLEN,
        maxlen: core::mem::size_of::<i32>(),
        mode: UNIX_SYSCTL_MODE,
        data: net.sysctl_max_dgram_qlen,
    });
    Ok(())
}

/// Unregisters the table.
pub fn unix_sysctl_unregister(net: &mut UnixNet)
    ensures
        final(net).ctl is None,
        !final(net).duplicated_table,
        final(net).is_init_net == old(net).is_init_net,
        final(net).sysctl_max_dgram_qlen == old(net).sysctl_max_dgram_qlen,
{
    net.ctl = None;
    net.duplicated_table = false;
}

} // verus!
