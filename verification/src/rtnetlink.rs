//! rtnetlink: netlink families, link messages, and the link requests
//! served from the table of network devices.
use vstd::prelude::*;

use crate::errno::{EEXIST, EINVAL, ENODEV, ENOSPC};

verus! {

pub const NETLINK_ROUTE: u16 = 0;
pub const NETLINK_KOBJECT_UEVENT: u16 = 15;
pub const NETLINK_GENERIC: u16 = 16;
pub const NETLINK_AUDIT: u16 = 9;
pub const RTM_NEWLINK: u16 = 16;
pub const RTM_DELLINK: u16 = 17;
pub const RTM_GETLINK: u16 = 18;
pub const RTM_SETLINK: u16 = 19;
pub const RTM_NEWADDR: u16 = 20;
pub const RTM_DELADDR: u16 = 21;
pub const RTM_GETADDR: u16 = 22;
pub const RTM_NEWROUTE: u16 = 24;
pub const RTM_GETROUTE: u16 = 26;
pub const RTM_GETNEIGH: u16 = 30;
pub const RTM_GETRULE: u16 = 34;
pub const RTM_GETQDISC: u16 = 38;
pub const RTM_GETNEXTHOP: u16 = 106;
/// The smallest MTU an Ethernet-like device accepts.
pub const ETH_MIN_MTU: u32 = 68;

/// The netlink protocol families served.
#[derive(Clone, Copy, Debug, PartialEq, Eq, Structural)]
pub enum NetlinkFamily {
    Route,
    KobjectUevent,
    Audit,
    Generic,
}

impl NetlinkFamily {
    /// The family of protocol number `raw`; EINVAL for others.
    pub fn from_raw(raw: u16) -> (r: Result<Self, i32>)
        ensures
            r == if raw == NETLINK_ROUTE {
                Ok::<NetlinkFamily, i32>(NetlinkFamily::Route)
            } else if raw == NETLINK_KOBJECT_UEVENT {
                Ok(NetlinkFamily::KobjectUevent)
            } else if raw == NETLINK_AUDIT {
                Ok(NetlinkFamily::Audit)
            } else if raw == NETLINK_GENERIC {
                Ok(NetlinkFamily::Generic)
            } else {
                Err(EINVAL)
            },
    {
        if raw == NETLINK_ROUTE {
            Ok(NetlinkFamily::Route)
        } else if raw == NETLINK_KOBJECT_UEVENT {
            Ok(NetlinkFamily::KobjectUevent)
        } else if raw == NETLINK_AUDIT {
            Ok(NetlinkFamily::Audit)
        } else if raw == NETLINK_GENERIC {
            Ok(NetlinkFamily::Generic)
        } else {
            Err(EINVAL)
        }
    }
}

/// A network device as the link messages describe it.
pub struct NetDevice {
    pub ifindex: u32,
    pub flags: u32,
    pub mtu: u32,
    pub name: String,
    pub dev_addr: [u8; 6],
}

/// The registered devices, in registration order, and the next index.
pub struct NetDeviceTable {
    pub devices: Vec<NetDevice>,
    pub next_ifindex: u32,
}

/// A link message.
#[derive(Clone, Debug, PartialEq, Eq)]
pub struct RtnlMessage {
    pub msg_type: u16,
    pub ifindex: u32,
    pub flags: u32,
    pub mtu: u32,
    pub name: String,
    pub addr: [u8; 6],
}

/// Whether message `m` of type `t` describes device `d`.
pub open spec fn describes(m: RtnlMessage, t: u16, d: NetDevice) -> bool {
    m.msg_type == t && m.ifindex == d.ifindex && m.flags == d.flags && m.mtu == d.mtu && m.name@ == d.name@
        && m.addr == d.dev_addr
}

impl RtnlMessage {
    /// The message of type `msg_type` describing `dev`.
    pub fn from_device(msg_type: u16, dev: &NetDevice) -> (r: Self)
        ensures
            describes(r, msg_type, *dev),
    {
        RtnlMessage {
            msg_type,
            ifindex: dev.ifindex,
            flags: dev.flags,
            mtu: dev.mtu,
            name: dev.name.clone(),
            addr: dev.dev_addr,
        }
    }
}

impl NetDeviceTable {
    /// No devices; indexes start at 1.
    pub fn new() -> (r: Self)
        ensures
            r.devices@.len() == 0,
            r.next_ifindex == 1,
    {
        NetDeviceTable { devices: Vec::new(), next_ifindex: 1 }
    }
}

/// Whether a device named `name` is registered.
pub open spec fn has_device(devs: Seq<NetDevice>, name: Seq<char>) -> bool {
    exists|i: int| 0 <= i < devs.len() && devs[i].name@ == name
}

fn find_device(devs: &Vec<NetDevice>, name: &String) -> (r: Option<usize>)
    ensures
        r is None ==> !has_device(devs@, name@),
        r matches Some(i) ==> i < devs@.len() && devs@[i as int].name@ == name@,
{
    let mut i: usize = 0;
    while i < devs.len()
        invariant
            i <= devs@.len(),
            forall|j: int| 0 <= j < i ==> devs@[j].name@ != name@,
        decreases devs@.len() - i,
    {
        if devs[i].name == *name {
            return Some(i);
        }
        i += 1;
    }
    None
}

/// The link messages of type GETLINK for every device, in table order.
pub fn rtm_getlink(table: &NetDeviceTable) -> (r: Vec<RtnlMessage>)
    ensures
        r@.len() == table.devices@.len(),
        forall|i: int| 0 <= i < r@.len() ==> describes(#[trigger] r@[i], RTM_GETLINK, table.devices@[i]),
{
    let mut out: Vec<RtnlMessage> = Vec::new();
    let mut i: usize = 0;
    while i < table.devices.len()
        invariant
            i <= table.devices@.len(),
            out@.len() == i,
            forall|k: int| 0 <= k < i ==> describes(#[trigger] out@[k], RTM_GETLINK, table.devices@[k]),
        decreases table.devices@.len() - i,
    {
        out.push(RtnlMessage::from_device(RTM_GETLINK, &table.devices[i]));
        i += 1;
    }
    out
}

/// Serves a link request: NEWLINK registers a device (EINVAL for an MTU
/// below the Ethernet minimum, EEXIST for a taken name, ENOSPC when no
/// index is left) and answers with its NEWLINK message; DELLINK removes
/// the named device (ENODEV when there is none) and answers nothing;
/// GETLINK answers with every device; address and route requests get
/// ENODEV; everything else EINVAL. A refused request changes nothing.
pub fn handle_rtnl_message(table: &mut NetDeviceTable, msg: &RtnlMessage) -> (r: Result<Vec<RtnlMessage>, i32>)
    ensures
        r is Err ==> final(table).devices@ == old(table).devices@ && final(table).next_ifindex == old(table).next_ifindex,
        msg.msg_type == RTM_NEWLINK ==> {
            &&& msg.mtu < ETH_MIN_MTU ==> r == Err::<Vec<RtnlMessage>, i32>(EINVAL)
            &&& msg.mtu >= ETH_MIN_MTU && has_device(old(table).devices@, msg.name@) ==> r == Err::<Vec<RtnlMessage>, i32>(EEXIST)
            &&& msg.mtu >= ETH_MIN_MTU && !has_device(old(table).devices@, msg.name@) && old(table).next_ifindex == u32::MAX
                ==> r == Err::<Vec<RtnlMessage>, i32>(ENOSPC)
            &&& msg.mtu >= ETH_MIN_MTU && !has_device(old(table).devices@, msg.name@) && old(table).next_ifindex < u32::MAX ==> {
                &&& final(table).devices@.len() == old(table).devices@.len() + 1
                &&& final(table).devices@.drop_last() == old(table).devices@
                &&& final(table).devices@.last().ifindex == old(table).next_ifindex
                &&& final(table).devices@.last().flags == 0
                &&& final(table).devices@.last().mtu == msg.mtu
                &&& final(table).devices@.last().name@ == msg.name@
                &&& final(table).devices@.last().dev_addr == msg.addr
                &&& final(table).next_ifindex == old(table).next_ifindex + 1
                &&& r matches Ok(v) && v@.len() == 1 && describes(v@[0], RTM_NEWLINK, final(table).devices@.last())
            }
        },
        msg.msg_type == RTM_DELLINK ==> {
            &&& !has_device(old(table).devices@, msg.name@) ==> r == Err::<Vec<RtnlMessage>, i32>(ENODEV)
            &&& has_device(old(table).devices@, msg.name@) ==> (r matches Ok(v) && v@.len() == 0
                && final(table).next_ifindex == old(table).next_ifindex
                && exists|i: int| 0 <= i < old(table).devices@.len() && (#[trigger] old(table).devices@[i]).name@ == msg.name@
                    && final(table).devices@ == old(table).devices@.remove(i))
        },
        msg.msg_type == RTM_GETLINK ==> (r matches Ok(v) && v@.len() == old(table).devices@.len()
            && final(table).devices@ == old(table).devices@ && final(table).next_ifindex == old(table).next_ifindex
            && forall|i: int| 0 <= i < v@.len() ==> describes(#[trigger] v@[i], RTM_GETLINK, old(table).devices@[i])),
        msg.msg_type == RTM_NEWADDR || msg.msg_type == RTM_NEWROUTE ==> r == Err::<Vec<RtnlMessage>, i32>(ENODEV),
        msg.msg_type != RTM_NEWLINK && msg.msg_type != RTM_DELLINK && msg.msg_type != RTM_GETLINK && msg.msg_type != RTM_NEWADDR
            && msg.msg_type != RTM_NEWROUTE ==> r == Err::<Vec<RtnlMessage>, i32>(EINVAL),
{
    if msg.msg_type == RTM_NEWLINK {
        if msg.mtu < ETH_MIN_MTU {
            return Err(EINVAL);
        }
        match find_device(&table.devices, &msg.name) {
            Some(_) => return Err(EEXIST),
            None => {},
        }
        if table.next_ifindex == u32::MAX {
            return Err(ENOSPC);
        }
        let dev = NetDevice {
            ifindex: table.next_ifindex,
            flags: 0,
            mtu: msg.mtu,
            name: msg.name.clone(),
            dev_addr: msg.addr,
        };
        table.next_ifindex = table.next_ifindex + 1;
        let reply = RtnlMessage::from_device(RTM_NEWLINK, &dev);
        table.devices.push(dev);
        assert(table.devices@.drop_last() =~= old(table).devices@);
        let mut v: Vec<RtnlMessage> = Vec::new();
        v.push(reply);
        Ok(v)
    } else if msg.msg_type == RTM_DELLINK {
        match find_device(&table.devices, &msg.name) {
            Some(i) => {
                let _ = table.devices.remove(i);
                Ok(Vec::new())
            },
            None => Err(ENODEV),
        }
    } else if msg.msg_type == RTM_GETLINK {
        Ok(rtm_getlink(table))
    } else if msg.msg_type == RTM_NEWADDR || msg.msg_type == RTM_NEWROUTE {
        Err(ENODEV)
    } else {
        Err(EINVAL)
    }
}

} // verus!
