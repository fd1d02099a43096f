//! Ematch comparing an 8, 16 or 32 bit packet value against a constant.
use vstd::prelude::*;

use crate::byteorder::{swap_bytes_u16, swap_bytes_u32, u16_from_be, u32_from_be, widen_u16, widen_u8};
use crate::bytes::{be16_at, be32_at};

verus! {

pub const TCF_EM_CMP: u16 = 1;
pub const TCF_EM_ALIGN_U8: u8 = 1;
pub const TCF_EM_ALIGN_U16: u8 = 2;
pub const TCF_EM_ALIGN_U32: u8 = 4;
pub const TCF_EM_CMP_TRANS: u8 = 1;
pub const TCF_EM_OPND_EQ: u8 = 0;
pub const TCF_EM_OPND_GT: u8 = 1;
pub const TCF_EM_OPND_LT: u8 = 2;
pub const MODULE_DESCRIPTION: &'static str = "ematch classifier for basic data types(8/16/32 bit) against skb data";
pub const MODULE_LICENSE: &'static str = "GPL";

/// The comparison: operand, mask, where the value is and how wide it is.
#[derive(Clone, Copy, Debug, PartialEq, Eq)]
pub struct TcfEmCmp {
    pub val: u32,
    pub mask: u32,
    pub off: usize,
    pub align: u8,
    pub flags: u8,
    pub layer: usize,
    pub opnd: u8,
}

/// The ematch's registration record.
#[derive(Clone, Copy, Debug, PartialEq, Eq)]
pub struct TcfEmatchOps {
    pub kind: u16,
    pub datalen: usize,
}

/// Whether the value is converted from network order before comparing.
pub fn cmp_needs_transformation(c: TcfEmCmp) -> (r: bool)
    ensures
        r == (c.flags & TCF_EM_CMP_TRANS != 0),
{
    c.flags & TCF_EM_CMP_TRANS != 0
}

/// The packet value the comparison reads (at `layer + off`, network order),
/// `swapped` telling whether the order conversion swaps bytes; `None` when
/// it lies past the packet or the width is unknown.
pub open spec fn em_value(skb: Seq<u8>, c: TcfEmCmp, swapped: bool) -> Option<u32> {
    let start = c.layer + c.off;
    let trans = c.flags & TCF_EM_CMP_TRANS != 0;
    if start > usize::MAX {
        None
    } else if c.align == TCF_EM_ALIGN_U8 && start < skb.len() {
        Some(skb[start] as u32)
    } else if c.align == TCF_EM_ALIGN_U16 && start + 2 <= skb.len() {
        let raw = be16_at(skb, start);
        Some((if trans && swapped { swap_bytes_u16(raw) } else { raw }) as u32)
    } else if c.align == TCF_EM_ALIGN_U32 && start + 4 <= skb.len() {
        let raw = be32_at(skb, start);
        Some(if trans && swapped { swap_bytes_u32(raw) } else { raw })
    } else {
        None
    }
}

/// The verdict for value `v`: masked when a mask is set, then compared
/// with the operand (equal, less, greater; unknown operators never match).
pub open spec fn em_verdict(c: TcfEmCmp, v: Option<u32>) -> bool {
    match v {
        None => false,
        Some(x) => {
            let m = if c.mask != 0 { x & c.mask } else { x };
            if c.opnd == TCF_EM_OPND_EQ {
                m == c.val
            } else if c.opnd == TCF_EM_OPND_LT {
                m < c.val
            } else if c.opnd == TCF_EM_OPND_GT {
                m > c.val
            } else {
                false
            }
        },
    }
}

/// Whether `skb` matches the comparison. Without conversion the verdict is
/// exact; with it, the value is the network-order read converted by the
/// machine, so the verdict is that of the value read either as is or
/// byte-swapped.
pub fn em_cmp_match(skb: &[u8], c: TcfEmCmp) -> (r: bool)
    ensures
        c.flags & TCF_EM_CMP_TRANS == 0 ==> r == em_verdict(c, em_value(skb@, c, false)),
        r == em_verdict(c, em_value(skb@, c, false)) || r == em_verdict(c, em_value(skb@, c, true)),
{
    if c.layer > usize::MAX - c.off {
        return false;
    }
    let start = c.layer + c.off;
    let n = skb.len();
    let mut val: u32;
    if c.align == TCF_EM_ALIGN_U8 && start < n {
        val = widen_u8(skb[start]);
    } else if c.align == TCF_EM_ALIGN_U16 && start <= n && n - start >= 2 {
        let raw = crate::bytes::read_be16(skb, start);
        if cmp_needs_transformation(c) {
            val = widen_u16(u16_from_be(raw));
        } else {
            val = widen_u16(raw);
        }
    } else if c.align == TCF_EM_ALIGN_U32 && start <= n && n - start >= 4 {
        let raw = crate::bytes::read_be32(skb, start);
        if cmp_needs_transformation(c) {
            val = u32_from_be(raw);
        } else {
            val = raw;
        }
    } else {
        return false;
    }
    if c.mask != 0 {
        val = val & c.mask;
    }
    if c.opnd == TCF_EM_OPND_EQ {
        val == c.val
    } else if c.opnd == TCF_EM_OPND_LT {
        val < c.val
    } else if c.opnd == TCF_EM_OPND_GT {
        val > c.val
    } else {
        false
    }
}

/// The registration record: kind CMP, data the size of the comparison.
pub fn init_em_cmp() -> (r: TcfEmatchOps)
    ensures
        r.kind == TCF_EM_CMP,
        r.datalen == vstd::layout::size_of::<TcfEmCmp>(),
{
    TcfEmatchOps { kind: TCF_EM_CMP, datalen: core::mem::size_of::<TcfEmCmp>() }
}

} // verus!
