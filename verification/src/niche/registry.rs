//! What the niche IPv6/MPLS features register at init, and the snapshot
//! of that registration.
use vstd::prelude::*;

use crate::niche::{AF_INET6, ETH_P_MPLS_MC, ETH_P_MPLS_UC, IPPROTO_DSTOPTS, IPPROTO_ROUTING, LWTUNNEL_ENCAP_IOAM6};

verus! {

pub const IOAM6_GENL_NAME: &'static str = "IOAM6";
pub const IOAM6_GENL_VERSION: u8 = 1;
pub const IOAM6_CMD_ADD_NAMESPACE: u8 = 1;
pub const IOAM6_CMD_DEL_NAMESPACE: u8 = 2;
pub const IOAM6_CMD_DUMP_NAMESPACES: u8 = 3;
pub const IOAM6_CMD_ADD_SCHEMA: u8 = 4;
pub const IOAM6_CMD_DEL_SCHEMA: u8 = 5;
pub const IOAM6_CMD_DUMP_SCHEMAS: u8 = 6;
pub const IOAM6_CMD_NS_SET_SCHEMA: u8 = 7;
pub const IOAM6_ATTR_NS_ID: u16 = 1;
pub const IOAM6_ATTR_NS_DATA: u16 = 2;
pub const IOAM6_ATTR_NS_DATA_WIDE: u16 = 3;
pub const IOAM6_ATTR_SC_ID: u16 = 4;
pub const IOAM6_ATTR_SC_DATA: u16 = 5;
pub const IOAM6_ATTR_SC_NONE: u16 = 6;

/// A packet offload registered for an ethertype.
#[derive(Clone, Copy, Debug, PartialEq, Eq)]
pub struct PacketOffloadRegistration {
    pub ethertype: u16,
    pub priority: u8,
    pub gso_segment: &'static str,
}

/// The IOAM6 generic netlink family, pernet subsystem and tunnel type.
#[derive(Clone, Copy, Debug, PartialEq, Eq)]
pub struct Ioam6Registration {
    pub genl_name: &'static str,
    pub genl_version: u8,
    pub event_group: &'static str,
    pub pernet_subsys: bool,
    pub lwtunnel_encap: u16,
}

/// One generic netlink operation of the IOAM6 family.
#[derive(Clone, Copy, Debug, PartialEq, Eq)]
pub struct Ioam6GenlOp {
    pub cmd: u8,
    pub name: &'static str,
    pub admin_perm: bool,
    pub dumps: bool,
}

/// An xfrm type Mobile IPv6 registers.
#[derive(Clone, Copy, Debug, PartialEq, Eq)]
pub struct Mip6XfrmRegistration {
    pub name: &'static str,
    pub family: u16,
    pub proto: u8,
    pub route_optimization_only: bool,
}

/// Which of the features are registered, and how many handlers each has.
#[derive(Clone, Copy, Debug, Default, PartialEq, Eq)]
pub struct NicheNetRegistrationState {
    pub mpls_gso: bool,
    pub mpls_packet_offloads: usize,
    pub ioam6_pernet_subsys: bool,
    pub ioam6_genl_family: bool,
    pub ioam6_lwtunnel: bool,
    pub mip6_xfrm_types: usize,
    pub mip6_rawv6_mh_filter: bool,
}

/// The boot banner lines, one per feature.
pub fn niche_net_boot_logs() -> (r: [&'static str; 3])
    ensures
        r[0] == "MPLS GSO support",
        r[1] == "In-situ OAM (IOAM) with IPv6",
        r[2] == "Mobile IPv6",
{
    ["MPLS GSO support", "In-situ OAM (IOAM) with IPv6", "Mobile IPv6"]
}

/// The unicast and multicast MPLS packet offloads (priority 15).
pub fn mpls_gso_offloads() -> (r: [PacketOffloadRegistration; 2])
    ensures
        r[0].ethertype == ETH_P_MPLS_UC && r[1].ethertype == ETH_P_MPLS_MC,
        r[0].priority == 15 && r[1].priority == 15,
        r[0].gso_segment == "mpls_gso_segment" && r[1].gso_segment == "mpls_gso_segment",
{
    [
        PacketOffloadRegistration { ethertype: ETH_P_MPLS_UC, priority: 15, gso_segment: "mpls_gso_segment" },
        PacketOffloadRegistration { ethertype: ETH_P_MPLS_MC, priority: 15, gso_segment: "mpls_gso_segment" },
    ]
}

/// The IOAM6 registration record.
pub fn ioam6_registration() -> (r: Ioam6Registration)
    ensures
        r.genl_name == IOAM6_GENL_NAME,
        r.genl_version == IOAM6_GENL_VERSION,
        r.event_group == crate::niche::ioam6_tunnel::IOAM6_GENL_EV_GRP_NAME,
        r.pernet_subsys,
        r.lwtunnel_encap == LWTUNNEL_ENCAP_IOAM6,
{
    Ioam6Registration {
        genl_name: IOAM6_GENL_NAME,
        genl_version: IOAM6_GENL_VERSION,
        event_group: crate::niche::ioam6_tunnel::IOAM6_GENL_EV_GRP_NAME,
        pernet_subsys: true,
        lwtunnel_encap: LWTUNNEL_ENCAP_IOAM6,
    }
}

/// The seven IOAM6 generic netlink operations, all admin-only; the two
/// dump operations dump.
pub fn ioam6_genl_ops() -> (r: [Ioam6GenlOp; 7])
    ensures
        r[0].cmd == IOAM6_CMD_ADD_NAMESPACE && r[0].name == "addns" && !r[0].dumps,
        r[1].cmd == IOAM6_CMD_DEL_NAMESPACE && r[1].name == "delns" && !r[1].dumps,
        r[2].cmd == IOAM6_CMD_DUMP_NAMESPACES && r[2].name == "dumpns" && r[2].dumps,
        r[3].cmd == IOAM6_CMD_ADD_SCHEMA && r[3].name == "addsc" && !r[3].dumps,
        r[4].cmd == IOAM6_CMD_DEL_SCHEMA && r[4].name == "delsc" && !r[4].dumps,
        r[5].cmd == IOAM6_CMD_DUMP_SCHEMAS && r[5].name == "dumpsc" && r[5].dumps,
        r[6].cmd == IOAM6_CMD_NS_SET_SCHEMA && r[6].name == "ns_set_schema" && !r[6].dumps,
        forall|i: int| 0 <= i < 7 ==> (#[trigger] r[i]).admin_perm,
{
    [
        Ioam6GenlOp { cmd: IOAM6_CMD_ADD_NAMESPACE, name: "addns", admin_perm: true, dumps: false },
        Ioam6GenlOp { cmd: IOAM6_CMD_DEL_NAMESPACE, name: "delns", admin_perm: true, dumps: false },
        Ioam6GenlOp { cmd: IOAM6_CMD_DUMP_NAMESPACES, name: "dumpns", admin_perm: true, dumps: true },
        Ioam6GenlOp { cmd: IOAM6_CMD_ADD_SCHEMA, name: "addsc", admin_perm: true, dumps: false },
        Ioam6GenlOp { cmd: IOAM6_CMD_DEL_SCHEMA, name: "delsc", admin_perm: true, dumps: false },
        Ioam6GenlOp { cmd: IOAM6_CMD_DUMP_SCHEMAS, name: "dumpsc", admin_perm: true, dumps: true },
        Ioam6GenlOp { cmd: IOAM6_CMD_NS_SET_SCHEMA, name: "ns_set_schema", admin_perm: true, dumps: false },
    ]
}

/// The destination-option and routing-header xfrm types, both AF_INET6
/// and for route optimization only.
pub fn mip6_xfrm_types() -> (r: [Mip6XfrmRegistration; 2])
    ensures
        r[0].name == "mip6_destopt_type" && r[0].family == AF_INET6 && r[0].proto == IPPROTO_DSTOPTS
            && r[0].route_optimization_only,
        r[1].name == "mip6_rthdr_type" && r[1].family == AF_INET6 && r[1].proto == IPPROTO_ROUTING
            && r[1].route_optimization_only,
{
    [
        Mip6XfrmRegistration {
            name: "mip6_destopt_type",
            family: AF_INET6,
            proto: IPPROTO_DSTOPTS,
            route_optimization_only: true,
        },
        Mip6XfrmRegistration {
            name: "mip6_rthdr_type",
            family: AF_INET6,
            proto: IPPROTO_ROUTING,
            route_optimization_only: true,
        },
    ]
}

/// What is registered once init has (or has not) run: every feature with
/// its two offloads and two xfrm types, or nothing.
pub fn registration_snapshot(registered: bool) -> (r: NicheNetRegistrationState)
    ensures
        r == (NicheNetRegistrationState {
            mpls_gso: registered,
            mpls_packet_offloads: if registered { 2 } else { 0 },
            ioam6_pernet_subsys: registered,
            ioam6_genl_family: registered,
            ioam6_lwtunnel: registered,
            mip6_xfrm_types: if registered { 2 } else { 0 },
            mip6_rawv6_mh_filter: registered,
        }),
{
    let reg = ioam6_registration();
    NicheNetRegistrationState {
        mpls_gso: registered,
        mpls_packet_offloads: if registered { 2 } else { 0 },
        ioam6_pernet_subsys: registered && reg.pernet_subsys,
        ioam6_genl_family: registered,
        ioam6_lwtunnel: registered && reg.lwtunnel_encap == LWTUNNEL_ENCAP_IOAM6,
        mip6_xfrm_types: if registered { 2 } else { 0 },
        mip6_rawv6_mh_filter: registered,
    }
}

} // verus!
