//! Ematch testing a masked 32-bit packet word.
use vstd::prelude::*;

use crate::bytes::be32_at;

verus! {

pub const TCF_EM_U32: u16 = 3;
pub const MODULE_DESCRIPTION: &'static str = "ematch skb classifier using 32 bit chunks of data";
pub const MODULE_LICENSE: &'static str = "GPL";

/// The word test: value, mask, offset and next-header offset mask.
#[derive(Clone, Copy, Debug, PartialEq, Eq)]
pub struct TcU32Key {
    pub val: u32,
    pub mask: u32,
    pub off: usize,
    pub offmask: u16,
}

/// Where the previous match left off, and its next-header value.
#[derive(Clone, Copy, Debug, PartialEq, Eq)]
pub struct TcfPktInfo {
    pub ptr: Option<usize>,
    pub nexthdr: u16,
}

/// The ematch's registration record.
#[derive(Clone, Copy, Debug, PartialEq, Eq)]
pub struct TcfEmatchOps {
    pub kind: u16,
    pub datalen: usize,
}

/// `a + b`, saturating at `usize::MAX`.
pub open spec fn sat_add(a: usize, b: usize) -> usize {
    if a + b > usize::MAX { usize::MAX } else { (a + b) as usize }
}

/// Where the word is read: from the network header, or from where the
/// previous match left off plus its masked next-header value, plus the
/// key's offset (saturating).
pub open spec fn em_u32_ptr(network_header: usize, key: TcU32Key, info: Option<TcfPktInfo>) -> usize {
    let base = match info {
        Some(i) => sat_add(match i.ptr { Some(p) => p, None => network_header }, (i.nexthdr & key.offmask) as usize),
        None => network_header,
    };
    sat_add(base, key.off)
}

/// Whether the word at the computed position equals the key's value on
/// the key's mask; no match when the word lies past the packet.
pub fn em_u32_match(packet: &[u8], network_header: usize, key: TcU32Key, info: Option<TcfPktInfo>) -> (r: bool)
    ensures
        ({
            let ptr = em_u32_ptr(network_header, key, info);
            r == (ptr + 4 <= packet@.len() && (be32_at(packet@, ptr as int) ^ key.val) & key.mask == 0)
        }),
{
    let mut ptr = network_header;
    match info {
        Some(i) => {
            match i.ptr {
                Some(p) => ptr = p,
                None => {},
            }
            ptr = ptr.saturating_add((i.nexthdr & key.offmask) as usize);
        },
        None => {},
    }
    ptr = ptr.saturating_add(key.off);
    let n = packet.len();
    if n < 4 || ptr > n - 4 {
        return false;
    }
    let word = crate::bytes::read_be32(packet, ptr);
    (word ^ key.val) & key.mask == 0
}

/// The registration record: kind U32, data the size of a key.
pub fn init_em_u32() -> (r: TcfEmatchOps)
    ensures
        r.kind == TCF_EM_U32,
        r.datalen == vstd::layout::size_of::<TcU32Key>(),
{
    TcfEmatchOps { kind: TCF_EM_U32, datalen: core::mem::size_of::<TcU32Key>() }
}

} // verus!
