//! Ematch comparing a run of packet bytes at a layer offset with a pattern.
use vstd::prelude::*;

use crate::errno::{EINVAL, ENOMEM};

verus! {

pub const TCF_EM_NBYTE: u16 = 2;
pub const TCF_LAYER_LINK: u8 = 0;
pub const TCF_LAYER_NETWORK: u8 = 1;
pub const TCF_LAYER_TRANSPORT: u8 = 2;
pub const TCF_EM_NBYTE_HDR_LEN: usize = 4;
pub const MODULE_DESCRIPTION: &'static str = "ematch classifier for arbitrary skb multi-bytes";
pub const MODULE_LICENSE: &'static str = "GPL";

/// The match header: offset, pattern length and layer.
#[derive(Clone, Copy, Debug, PartialEq, Eq)]
pub struct TcfEmNbyte {
    pub off: usize,
    pub len: usize,
    pub layer: u8,
}

/// The header and the pattern it describes.
#[derive(Clone, Copy, Debug, PartialEq, Eq)]
pub struct NbyteData<'a> {
    pub hdr: TcfEmNbyte,
    pub pattern: &'a [u8],
}

/// A configured ematch: its data length and data.
#[derive(Clone, Copy, Debug, PartialEq, Eq)]
pub struct TcfEmatch<'a> {
    pub datalen: usize,
    pub data: NbyteData<'a>,
}

/// Where each layer starts in the packet, when known.
#[derive(Clone, Copy, Debug, PartialEq, Eq)]
pub struct PacketLayers {
    pub link: Option<usize>,
    pub network: Option<usize>,
    pub transport: Option<usize>,
}

/// The ematch's registration record.
#[derive(Clone, Copy, Debug, PartialEq, Eq)]
pub struct TcfEmatchOps {
    pub kind: u16,
}

/// `a + b`, saturating at `usize::MAX`.
pub open spec fn sat_add(a: usize, b: usize) -> usize {
    if a + b > usize::MAX { usize::MAX } else { (a + b) as usize }
}

/// Configures the ematch from its header and `data_len` bytes of netlink
/// data: -EINVAL when the data is shorter than the header, shorter than
/// header plus pattern, or the pattern shorter than the header says;
/// -ENOMEM when the allocation failed; else the first `len` pattern bytes.
pub fn em_nbyte_change<'a>(hdr: TcfEmNbyte, pattern: &'a [u8], data_len: usize, allocation_ok: bool) -> (r: Result<TcfEmatch<'a>, i32>)
    ensures
        ({
            let datalen = sat_add(TCF_EM_NBYTE_HDR_LEN, hdr.len);
            if data_len < TCF_EM_NBYTE_HDR_LEN || data_len < datalen || pattern@.len() < hdr.len {
                r == Err::<TcfEmatch, i32>((-EINVAL) as i32)
            } else if !allocation_ok {
                r == Err::<TcfEmatch, i32>((-ENOMEM) as i32)
            } else {
                r matches Ok(em) && em.datalen == datalen && em.data.hdr == hdr
                    && em.data.pattern@ == pattern@.subrange(0, hdr.len as int)
            }
        }),
{
    let datalen = TCF_EM_NBYTE_HDR_LEN.saturating_add(hdr.len);
    if data_len < TCF_EM_NBYTE_HDR_LEN || data_len < datalen || pattern.len() < hdr.len {
        return Err(-EINVAL);
    }
    if !allocation_ok {
        return Err(-ENOMEM);
    }
    Ok(TcfEmatch { datalen, data: NbyteData { hdr, pattern: vstd::slice::slice_subrange(pattern, 0, hdr.len) } })
}

/// Where `layer` starts, when it is a known layer whose start is known.
pub open spec fn layer_base_spec(layers: PacketLayers, layer: u8) -> Option<usize> {
    if layer == TCF_LAYER_LINK {
        layers.link
    } else if layer == TCF_LAYER_NETWORK {
        layers.network
    } else if layer == TCF_LAYER_TRANSPORT {
        layers.transport
    } else {
        None
    }
}

fn layer_base(layers: PacketLayers, layer: u8) -> (r: Option<usize>)
    ensures
        r == layer_base_spec(layers, layer),
{
    if layer == TCF_LAYER_LINK {
        layers.link
    } else if layer == TCF_LAYER_NETWORK {
        layers.network
    } else if layer == TCF_LAYER_TRANSPORT {
        layers.transport
    } else {
        None
    }
}

/// Whether the packet bytes at the layer's start plus the offset equal the
/// pattern; no match when the layer is unknown or the bytes lie past the
/// packet.
pub fn em_nbyte_match(packet: &[u8], em: &TcfEmatch, layers: PacketLayers) -> (r: bool)
    ensures
        r == (match layer_base_spec(layers, em.data.hdr.layer) {
            None => false,
            Some(base) => {
                let ptr = sat_add(base, em.data.hdr.off);
                let end = sat_add(ptr, em.data.hdr.len);
                end <= packet@.len() && packet@.subrange(ptr as int, end as int) == em.data.pattern@
            },
        }),
{
    let base = match layer_base(layers, em.data.hdr.layer) {
        Some(b) => b,
        None => return false,
    };
    let ptr = base.saturating_add(em.data.hdr.off);
    let end = ptr.saturating_add(em.data.hdr.len);
    if end > packet.len() {
        return false;
    }
    let pat = em.data.pattern;
    if end - ptr != pat.len() {
        assert(packet@.subrange(ptr as int, end as int).len() != pat@.len());
        return false;
    }
    let mut i: usize = 0;
    while i < pat.len()
        invariant
            i <= pat@.len(),
            layer_base_spec(layers, em.data.hdr.layer) == Some(base),
            ptr == sat_add(base, em.data.hdr.off),
            end == sat_add(ptr, em.data.hdr.len),
            pat@ == em.data.pattern@,
            ptr + pat@.len() == end,
            end <= packet@.len(),
            forall|j: int| 0 <= j < i ==> packet@[ptr + j] == pat@[j],
        decreases pat@.len() - i,
    {
        if packet[ptr + i] != pat[i] {
            assert(packet@.subrange(ptr as int, end as int)[i as int] != pat@[i as int]);
            return false;
        }
        i += 1;
    }
    assert(packet@.subrange(ptr as int, end as int) =~= pat@);
    true
}

/// The registration record: kind NBYTE.
pub fn init_em_nbyte() -> (r: TcfEmatchOps)
    ensures
        r.kind == TCF_EM_NBYTE,
{
    TcfEmatchOps { kind: TCF_EM_NBYTE }
}

} // verus!
