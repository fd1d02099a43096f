//! IFE priority metadata: the packet's priority carried as a 4-byte network-order value.
use vstd::prelude::*;

use crate::bytes::{be32_bytes, be32_at};
use crate::errno::EINVAL;

verus! {

pub const MODULE_AUTHOR: &'static str = "Jamal Hadi Salim(2015)";
pub const MODULE_DESCRIPTION: &'static str = "Inter-FE skb prio metadata action";
pub const MODULE_LICENSE: &'static str = "GPL";
pub const MODULE_ALIAS: &'static str = "ife-meta-skbprio";
pub const IFE_META_PRIO: u16 = 3;
pub const NLA_U32: u16 = 3;

/// The packet field this metadata carries.
#[derive(Clone, Copy, Debug, Default, PartialEq, Eq)]
pub struct SkBuffPriority {
    pub priority: u32,
}

/// Per-action metadata state.
#[derive(Clone, Copy, Debug, PartialEq, Eq)]
pub struct TcfMetaInfo {
    pub present: bool,
}

/// The metadata operation's registration record.
#[derive(Clone, Copy, Debug, PartialEq, Eq)]
pub struct TcfMetaOps {
    pub metaid: u16,
    pub metatype: u16,
    pub name: &'static str,
    pub synopsis: &'static str,
}

/// The priority in network byte order.
pub fn skbprio_encode(skb: &SkBuffPriority, e: &TcfMetaInfo) -> (r: [u8; 4])
    ensures
        r@ == be32_bytes(skb.priority),
{
    crate::bytes::u32_to_be_bytes(skb.priority)
}

/// Sets the priority from the first 4 bytes of `data` (network order);
/// -EINVAL when there are fewer.
pub fn skbprio_decode(skb: &mut SkBuffPriority, data: &[u8]) -> (r: Result<(), i32>)
    ensures
        data@.len() < 4 ==> r == Err::<(), i32>((-EINVAL) as i32) && *final(skb) == *old(skb),
        data@.len() >= 4 ==> r == Ok::<(), i32>(()) && final(skb).priority == be32_at(data@, 0),
{
    if data.len() < 4 {
        return Err(-EINVAL);
    }
    skb.priority = crate::bytes::read_be32(data, 0);
    Ok(())
}

/// Whether there is a priority to send.
pub fn skbprio_check(skb: &SkBuffPriority, e: &TcfMetaInfo) -> (r: bool)
    ensures
        r == (skb.priority != 0),
{
    skb.priority != 0
}

/// The registration record.
pub fn ifeprio_init_module() -> (r: TcfMetaOps)
    ensures
        r.metaid == IFE_META_PRIO,
        r.metatype == NLA_U32,
        r.name == "skbprio",
        r.synopsis == "skb prio metadata",
{
    TcfMetaOps { metaid: IFE_META_PRIO, metatype: NLA_U32, name: "skbprio", synopsis: "skb prio metadata" }
}

/// Decoding what was encoded gives the priority back.
pub proof fn lemma_skbprio_roundtrip(v: u32)
    ensures
        be32_at(be32_bytes(v), 0) == v,
{
    crate::bytes::lemma_be32_roundtrip(v);
}

} // verus!
