//! TIPC InfiniBand bearer media: converting 20-byte hardware addresses
//! between raw bytes, media addresses, discovery-message fields and text.
use vstd::prelude::*;

use crate::tipc::eth_media::{hwaddr_text, write_hwaddr_text, TIPC_DEF_LINK_PRI, TIPC_DEF_LINK_TOL, TIPC_DEF_LINK_WIN};

verus! {

pub const INFINIBAND_ALEN: usize = 20;
pub const TIPC_MEDIA_INFO_SIZE: usize = 32;
pub const TIPC_MEDIA_TYPE_IB: u8 = 2;
pub const TIPC_MAX_IB_LINK_WIN: u32 = 500;

/// A media address: the hardware address padded to 32 bytes, its media
/// type and whether it is the broadcast address.
#[derive(Clone, Copy, Debug, PartialEq, Eq)]
pub struct TipcMediaAddr {
    pub value: [u8; TIPC_MEDIA_INFO_SIZE],
    pub media_id: u8,
    pub broadcast: bool,
}

/// A media type's link defaults and identity.
#[derive(Clone, Copy, Debug, PartialEq, Eq)]
pub struct TipcMedia {
    pub priority: u32,
    pub tolerance: u32,
    pub min_win: u32,
    pub max_win: u32,
    pub type_id: u8,
    pub hwaddr_len: usize,
    pub name: &'static str,
}

/// The InfiniBand media record.
pub fn ib_media_info() -> (r: TipcMedia)
    ensures
        r == (TipcMedia {
            priority: TIPC_DEF_LINK_PRI,
            tolerance: TIPC_DEF_LINK_TOL,
            min_win: TIPC_DEF_LINK_WIN,
            max_win: TIPC_MAX_IB_LINK_WIN,
            type_id: TIPC_MEDIA_TYPE_IB,
            hwaddr_len: INFINIBAND_ALEN,
            name: "ib",
        }),
{
    TipcMedia {
        priority: TIPC_DEF_LINK_PRI,
        tolerance: TIPC_DEF_LINK_TOL,
        min_win: TIPC_DEF_LINK_WIN,
        max_win: TIPC_MAX_IB_LINK_WIN,
        type_id: TIPC_MEDIA_TYPE_IB,
        hwaddr_len: INFINIBAND_ALEN,
        name: "ib",
    }
}

/// The address as text, twenty colon-separated hex byte pairs and a NUL,
/// in the first 60 bytes of `str_buf`; 1 when `str_buf` is shorter.
pub fn tipc_ib_addr2str(addr: &TipcMediaAddr, str_buf: &mut [u8]) -> (r: i32)
    ensures
        old(str_buf)@.len() < 60 ==> r == 1 && final(str_buf)@ == old(str_buf)@,
        old(str_buf)@.len() >= 60 ==> r == 0 && final(str_buf)@ == hwaddr_text(addr.value@, 20) + old(str_buf)@.subrange(
            60,
            old(str_buf)@.len() as int,
        ),
{
    write_hwaddr_text(&addr.value, INFINIBAND_ALEN, str_buf)
}

/// The discovery-message media field for an InfiniBand address: the 20
/// address bytes, then zeros.
pub open spec fn ib_value_of(raw: Seq<u8>) -> Seq<u8> {
    Seq::new(32, |j: int| if j < 20 { raw[j] } else { 0u8 })
}

/// Fills the media field of a discovery message; see `ib_value_of`.
pub fn tipc_ib_addr2msg(msg: &mut [u8; TIPC_MEDIA_INFO_SIZE], addr: &TipcMediaAddr) -> (r: i32)
    ensures
        r == 0,
        final(msg)@ == ib_value_of(addr.value@),
{
    let mut j: usize = 0;
    while j < 32
        invariant
            j <= 32,
            msg@.len() == 32,
            addr.value@.len() == 32,
            forall|k: int| 0 <= k < j ==> msg@[k] == #[trigger] ib_value_of(addr.value@)[k],
        decreases 32 - j,
    {
        if j < INFINIBAND_ALEN {
            msg[j] = addr.value[j];
        } else {
            msg[j] = 0;
        }
        j += 1;
    }
    assert(msg@ =~= ib_value_of(addr.value@));
    0
}

/// The media address of `raw`: padded with zeros, broadcast exactly when
/// it is the broadcast address `bcast_addr`.
pub fn tipc_ib_raw2addr(bcast_addr: &[u8; INFINIBAND_ALEN], raw: &[u8; INFINIBAND_ALEN]) -> (r: TipcMediaAddr)
    ensures
        r.value@ == ib_value_of(raw@),
        r.media_id == TIPC_MEDIA_TYPE_IB,
        r.broadcast == (raw@ == bcast_addr@),
{
    let mut value = [0u8; 32];
    let mut same = true;
    let mut i: usize = 0;
    while i < INFINIBAND_ALEN
        invariant
            i <= 20,
            raw@.len() == 20,
            bcast_addr@.len() == 20,
            value@.len() == 32,
            forall|k: int| 0 <= k < i ==> value@[k] == raw@[k],
            forall|k: int| i <= k < 32 ==> value@[k] == 0u8,
            same == (forall|k: int| 0 <= k < i ==> raw@[k] == bcast_addr@[k]),
        decreases 20 - i,
    {
        value[i] = raw[i];
        same = same && raw[i] == bcast_addr[i];
        i += 1;
    }
    assert(value@ =~= ib_value_of(raw@));
    assert(same == (raw@ == bcast_addr@)) by {
        if same {
            assert(raw@ =~= bcast_addr@);
        }
    }
    TipcMediaAddr { value, media_id: TIPC_MEDIA_TYPE_IB, broadcast: same }
}

/// The media address carried in a discovery message's media field (its
/// first 20 bytes).
pub fn tipc_ib_msg2addr(bcast_addr: &[u8; INFINIBAND_ALEN], msg: &[u8; TIPC_MEDIA_INFO_SIZE]) -> (r: TipcMediaAddr)
    ensures
        r.value@ == ib_value_of(msg@.subrange(0, 20)),
        r.media_id == TIPC_MEDIA_TYPE_IB,
        r.broadcast == (msg@.subrange(0, 20) == bcast_addr@),
{
    let mut raw = [0u8; INFINIBAND_ALEN];
    let mut i: usize = 0;
    while i < INFINIBAND_ALEN
        invariant
            i <= 20,
            raw@.len() == 20,
            msg@.len() == 32,
            forall|k: int| 0 <= k < i ==> raw@[k] == msg@[k],
        decreases 20 - i,
    {
        raw[i] = msg[i];
        i += 1;
    }
    assert(raw@ =~= msg@.subrange(0, 20));
    tipc_ib_raw2addr(bcast_addr, &raw)
}

/// Sending an address in a discovery message and reading it back gives the
/// same padded address bytes.
pub proof fn lemma_ib_msg_roundtrip(raw: Seq<u8>)
    requires
        raw.len() == 20,
    ensures
        ib_value_of(ib_value_of(ib_value_of(raw)).subrange(0, 20)) == ib_value_of(raw),
{
    assert(ib_value_of(ib_value_of(raw)).subrange(0, 20) =~= raw);
}

} // verus!
