//! IFE mark metadata: the packet's mark carried as a 4-byte network-order value.
use vstd::prelude::*;

use crate::bytes::{be32_bytes, be32_at};
use crate::errno::EINVAL;

verus! {

pub const MODULE_AUTHOR: &'static str = "Jamal Hadi Salim(2015)";
pub const MODULE_DESCRIPTION: &'static str = "Inter-FE skb mark metadata module";
pub const MODULE_LICENSE: &'static str = "GPL";
pub const MODULE_ALIAS: &'static str = "ife-meta-skbmark";
pub const IFE_META_SKBMARK: u16 = 1;
pub const NLA_U32: u16 = 3;

/// The packet field this metadata carries.
#[derive(Clone, Copy, Debug, Default, PartialEq, Eq)]
pub struct SkBuffMark {
    pub mark: u32,
}

/// Per-action metadata state.
#[derive(Clone, Copy, Debug, PartialEq, Eq)]
pub struct TcfMetaInfo {
    pub present: bool,
}

/// The metadata operation's registration record.
#[derive(Clone, Copy, Debug, PartialEq, Eq)]
pub struct TcfMetaOps {
    pub metaid: u16,
    pub metatype: u16,
    pub name: &'static str,
    pub synopsis: &'static str,
}

/// The mark in network byte order.
pub fn skbmark_encode(skb: &SkBuffMark, e: &TcfMetaInfo) -> (r: [u8; 4])
    ensures
        r@ == be32_bytes(skb.mark),
{
    crate::bytes::u32_to_be_bytes(skb.mark)
}

/// Sets the mark from the first 4 bytes of `data` (network order);
/// -EINVAL when there are fewer.
pub fn skbmark_decode(skb: &mut SkBuffMark, data: &[u8]) -> (r: Result<(), i32>)
    ensures
        data@.len() < 4 ==> r == Err::<(), i32>((-EINVAL) as i32) && *final(skb) == *old(skb),
        data@.len() >= 4 ==> r == Ok::<(), i32>(()) && final(skb).mark == be32_at(data@, 0),
{
    if data.len() < 4 {
        return Err(-EINVAL);
    }
    skb.mark = crate::bytes::read_be32(data, 0);
    Ok(())
}

/// Whether there is a mark to send.
pub fn skbmark_check(skb: &SkBuffMark, e: &TcfMetaInfo) -> (r: bool)
    ensures
        r == (skb.mark != 0),
{
    skb.mark != 0
}

/// The registration record.
pub fn ifemark_init_module() -> (r: TcfMetaOps)
    ensures
        r.metaid == IFE_META_SKBMARK,
        r.metatype == NLA_U32,
        r.name == "skbmark",
        r.synopsis == "skb mark 32 bit metadata",
{
    TcfMetaOps { metaid: IFE_META_SKBMARK, metatype: NLA_U32, name: "skbmark", synopsis: "skb mark 32 bit metadata" }
}

/// Decoding what was encoded gives the mark back.
pub proof fn lemma_skbmark_roundtrip(v: u32)
    ensures
        be32_at(be32_bytes(v), 0) == v,
{
    crate::bytes::lemma_be32_roundtrip(v);
}

} // verus!
