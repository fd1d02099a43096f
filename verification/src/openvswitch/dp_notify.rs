//! Open vSwitch datapath notifications: ports whose netdevice stopped
//! being an OVS port are detached and announced.
use vstd::prelude::*;

verus! {

pub const OVS_VPORT_TYPE_INTERNAL: u16 = 1;
pub const OVS_VPORT_CMD_DEL: u8 = 1;
pub const NETDEV_UNREGISTER: u64 = 2;
pub const NOTIFY_DONE: i32 = 0;

/// A datapath port and what the notifier did to it.
#[derive(Clone, Copy, Debug, PartialEq, Eq)]
pub struct Vport {
    pub vport_type: u16,
    pub netif_is_ovs_port: bool,
    pub detached: bool,
    pub genl_error: bool,
    pub genl_multicast: bool,
}

/// What the netdevice notifier does for an event.
#[derive(Clone, Copy, Debug, PartialEq, Eq)]
pub enum DeviceEventAction {
    Done,
    DetachedAndQueued,
}

/// The port after detaching: announced by multicast, or marked with the
/// netlink error when building the announcement failed.
pub open spec fn detached(v: Vport, build_info_error: bool) -> Vport {
    if build_info_error {
        Vport { detached: true, genl_error: true, ..v }
    } else {
        Vport { detached: true, genl_multicast: true, ..v }
    }
}

/// Detaches `vport` and announces it; see `detached`.
pub fn dp_detach_port_notify(vport: &mut Vport, build_info_error: bool)
    ensures
        *final(vport) == detached(*old(vport), build_info_error),
{
    vport.detached = true;
    if build_info_error {
        vport.genl_error = true;
    } else {
        vport.genl_multicast = true;
    }
}

/// Whether the work item detaches the port: a non-internal port whose
/// device is no longer an OVS port.
pub open spec fn needs_detach(v: Vport) -> bool {
    v.vport_type != OVS_VPORT_TYPE_INTERNAL && !v.netif_is_ovs_port
}

/// The number of ports in `s` to detach.
pub open spec fn count_detach(s: Seq<Vport>) -> nat
    decreases s.len(),
{
    if s.len() == 0 {
        0
    } else {
        count_detach(s.drop_last()) + if needs_detach(s.last()) { 1nat } else { 0nat }
    }
}

/// The deferred work: detaches every port that needs it, leaving the
/// others alone, and returns how many were detached.
pub fn ovs_dp_notify_wq(vports: &mut [Vport], build_info_error: bool) -> (r: usize)
    ensures
        final(vports)@.len() == old(vports)@.len(),
        forall|i: int| 0 <= i < old(vports)@.len() ==> #[trigger] final(vports)@[i] == if needs_detach(old(vports)@[i]) {
            detached(old(vports)@[i], build_info_error)
        } else {
            old(vports)@[i]
        },
        r == count_detach(old(vports)@),
{
    let ghost v0 = vports@;
    let mut n: usize = 0;
    let mut i: usize = 0;
    while i < vports.len()
        invariant
            i <= vports@.len(),
            vports@.len() == v0.len(),
            n == count_detach(v0.subrange(0, i as int)),
            n <= i,
            forall|j: int| 0 <= j < i ==> #[trigger] vports@[j] == if needs_detach(v0[j]) {
                detached(v0[j], build_info_error)
            } else {
                v0[j]
            },
            forall|j: int| i <= j < vports@.len() ==> vports@[j] == v0[j],
        decreases vports@.len() - i,
    {
        assert(v0.subrange(0, i + 1).drop_last() =~= v0.subrange(0, i as int));
        let mut v = vports[i];
        if v.vport_type != OVS_VPORT_TYPE_INTERNAL && !v.netif_is_ovs_port {
            dp_detach_port_notify(&mut v, build_info_error);
            vports[i] = v;
            n += 1;
        }
        i += 1;
    }
    assert(v0.subrange(0, i as int) =~= v0);
    n
}

/// The netdevice notifier: an unregistering device that has a (non
/// internal) port gets it detached and the work queued; every other event
/// is done.
pub fn dp_device_event(event: u64, dev_is_internal: bool, vport_present: bool) -> (r: DeviceEventAction)
    ensures
        r == if !dev_is_internal && vport_present && event == NETDEV_UNREGISTER {
            DeviceEventAction::DetachedAndQueued
        } else {
            DeviceEventAction::Done
        },
{
    if dev_is_internal || !vport_present {
        return DeviceEventAction::Done;
    }
    if event == NETDEV_UNREGISTER {
        DeviceEventAction::DetachedAndQueued
    } else {
        DeviceEventAction::Done
    }
}

} // verus!
