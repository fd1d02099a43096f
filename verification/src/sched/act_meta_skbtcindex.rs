//! IFE tc_index metadata: the packet's tc_index carried as a 2-byte network-order value.
use vstd::prelude::*;

use crate::bytes::{be16_bytes, be16_at};
use crate::errno::EINVAL;

verus! {

pub const MODULE_AUTHOR: &'static str = "Jamal Hadi Salim(2016)";
pub const MODULE_DESCRIPTION: &'static str = "Inter-FE skb tc_index metadata module";
pub const MODULE_LICENSE: &'static str = "GPL";
pub const MODULE_ALIAS: &'static str = "ife-meta-tcindex";
pub const IFE_META_TCINDEX: u16 = 5;
pub const NLA_U16: u16 = 2;

/// The packet field this metadata carries.
#[derive(Clone, Copy, Debug, Default, PartialEq, Eq)]
pub struct SkBuffTcIndex {
    pub tc_index: u16,
}

/// Per-action metadata state.
#[derive(Clone, Copy, Debug, PartialEq, Eq)]
pub struct TcfMetaInfo {
    pub present: bool,
}

/// The metadata operation's registration record.
#[derive(Clone, Copy, Debug, PartialEq, Eq)]
pub struct TcfMetaOps {
    pub metaid: u16,
    pub metatype: u16,
    pub name: &'static str,
    pub synopsis: &'static str,
}

/// The tc_index in network byte order.
pub fn skbtcindex_encode(skb: &SkBuffTcIndex, e: &TcfMetaInfo) -> (r: [u8; 2])
    ensures
        r@ == be16_bytes(skb.tc_index),
{
    crate::bytes::u16_to_be_bytes(skb.tc_index)
}

/// Sets the tc_index from the first 2 bytes of `data` (network order);
/// -EINVAL when there are fewer.
pub fn skbtcindex_decode(skb: &mut SkBuffTcIndex, data: &[u8]) -> (r: Result<(), i32>)
    ensures
        data@.len() < 2 ==> r == Err::<(), i32>((-EINVAL) as i32) && *final(skb) == *old(skb),
        data@.len() >= 2 ==> r == Ok::<(), i32>(()) && final(skb).tc_index == be16_at(data@, 0),
{
    if data.len() < 2 {
        return Err(-EINVAL);
    }
    skb.tc_index = crate::bytes::read_be16(data, 0);
    Ok(())
}

/// Whether there is a tc_index to send.
pub fn skbtcindex_check(skb: &SkBuffTcIndex, e: &TcfMetaInfo) -> (r: bool)
    ensures
        r == (skb.tc_index != 0),
{
    skb.tc_index != 0
}

/// The registration record.
pub fn ifetc_index_init_module() -> (r: TcfMetaOps)
    ensures
        r.metaid == IFE_META_TCINDEX,
        r.metatype == NLA_U16,
        r.name == "tc_index",
        r.synopsis == "skb tc_index 16 bit metadata",
{
    TcfMetaOps { metaid: IFE_META_TCINDEX, metatype: NLA_U16, name: "tc_index", synopsis: "skb tc_index 16 bit metadata" }
}

/// Decoding what was encoded gives the tc_index back.
pub proof fn lemma_skbtcindex_roundtrip(v: u16)
    ensures
        be16_at(be16_bytes(v), 0) == v,
{
    crate::bytes::lemma_be16_roundtrip(v);
}

} // verus!
