//! Open vSwitch GRE vports: creating the tunnel device and registering
//! the vport type.
use vstd::prelude::*;

verus! {

pub const MODULE_DESCRIPTION: &'static str = "OVS: GRE switching port";
pub const MODULE_LICENSE: &'static str = "GPL";
pub const MODULE_ALIAS: &'static str = "vport-type-3";
pub const OVS_VPORT_TYPE_GRE: u16 = 3;
pub const IFF_UP: u32 = 0x1;

/// A GRE vport and the state of its device.
#[derive(Clone, Debug, PartialEq, Eq)]
pub struct Vport {
    pub name: String,
    pub dev_created: bool,
    pub dev_up: bool,
    pub linked: bool,
    pub held: bool,
}

/// Which creation step failed.
#[derive(Clone, Copy, Debug, PartialEq, Eq)]
pub enum GreCreateError {
    VportAlloc,
    DevCreate,
    ChangeFlags(i32),
}

/// The vport type's registration record, naming its handlers.
#[derive(Clone, Copy, Debug, PartialEq, Eq)]
pub struct VportOps {
    pub vport_type: u16,
    pub create: &'static str,
    pub send: &'static str,
    pub destroy: &'static str,
}

/// Creates the tunnel device for vport `name`: fails at the first step
/// that failed (allocating the vport, creating the device, bringing it up
/// with the error it reported); else the device is created, up and held,
/// not yet linked.
pub fn gre_tnl_create(name: &str, vport_alloc_ok: bool, dev_create_ok: bool, change_flags_ret: i32) -> (r: Result<Vport, GreCreateError>)
    ensures
        !vport_alloc_ok ==> r == Err::<Vport, GreCreateError>(GreCreateError::VportAlloc),
        vport_alloc_ok && !dev_create_ok ==> r == Err::<Vport, GreCreateError>(GreCreateError::DevCreate),
        vport_alloc_ok && dev_create_ok && change_flags_ret < 0 ==> r == Err::<Vport, GreCreateError>(GreCreateError::ChangeFlags(change_flags_ret)),
        vport_alloc_ok && dev_create_ok && change_flags_ret >= 0 ==> (r matches Ok(v) && v.name@ == name@ && v.dev_created
            && v.dev_up && !v.linked && v.held),
{
    if !vport_alloc_ok {
        return Err(GreCreateError::VportAlloc);
    }
    if !dev_create_ok {
        return Err(GreCreateError::DevCreate);
    }
    if change_flags_ret < 0 {
        return Err(GreCreateError::ChangeFlags(change_flags_ret));
    }
    Ok(Vport { name: String::from_str(name), dev_created: true, dev_up: true, linked: false, held: true })
}

/// Creates the vport and links it to the datapath when linking succeeded.
pub fn gre_create(name: &str, vport_alloc_ok: bool, dev_create_ok: bool, change_flags_ret: i32, link_ok: bool) -> (r: Result<Vport, GreCreateError>)
    ensures
        !vport_alloc_ok ==> r == Err::<Vport, GreCreateError>(GreCreateError::VportAlloc),
        vport_alloc_ok && !dev_create_ok ==> r == Err::<Vport, GreCreateError>(GreCreateError::DevCreate),
        vport_alloc_ok && dev_create_ok && change_flags_ret < 0 ==> r == Err::<Vport, GreCreateError>(GreCreateError::ChangeFlags(change_flags_ret)),
        vport_alloc_ok && dev_create_ok && change_flags_ret >= 0 ==> (r matches Ok(v) && v.name@ == name@ && v.dev_created
            && v.dev_up && v.linked == link_ok && v.held),
{
    let mut vport = match gre_tnl_create(name, vport_alloc_ok, dev_create_ok, change_flags_ret) {
        Ok(v) => v,
        Err(e) => return Err(e),
    };
    vport.linked = link_ok;
    Ok(vport)
}

/// The GRE vport type's handlers.
pub open spec fn gre_ops_ok(o: VportOps) -> bool {
    o.vport_type == OVS_VPORT_TYPE_GRE && o.create == "gre_create" && o.send == "dev_queue_xmit"
        && o.destroy == "ovs_netdev_tunnel_destroy"
}

fn gre_vport_ops() -> (r: VportOps)
    ensures
        gre_ops_ok(r),
{
    VportOps {
        vport_type: OVS_VPORT_TYPE_GRE,
        create: "gre_create",
        send: "dev_queue_xmit",
        destroy: "ovs_netdev_tunnel_destroy",
    }
}

/// Registers the GRE vport type: the registration's error, or the record.
pub fn ovs_gre_tnl_init(register_ret: i32) -> (r: Result<VportOps, i32>)
    ensures
        register_ret < 0 ==> r == Err::<VportOps, i32>(register_ret),
        register_ret >= 0 ==> (r matches Ok(o) && gre_ops_ok(o)),
{
    if register_ret < 0 {
        Err(register_ret)
    } else {
        Ok(gre_vport_ops())
    }
}

/// Unregisters the GRE vport type: the record that was registered.
pub fn ovs_gre_tnl_exit() -> (r: VportOps)
    ensures
        gre_ops_ok(r),
{
    gre_vport_ops()
}

} // verus!
