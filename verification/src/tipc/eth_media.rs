//! TIPC Ethernet bearer media: converting MAC addresses between raw bytes,
//! media addresses, discovery-message fields and text.
use vstd::prelude::*;

verus! {

pub const ETH_ALEN: usize = 6;
pub const TIPC_MEDIA_INFO_SIZE: usize = 32;
pub const TIPC_MEDIA_TYPE_OFFSET: usize = 3;
pub const TIPC_MEDIA_ADDR_OFFSET: usize = 4;
pub const TIPC_MEDIA_TYPE_ETH: u8 = 1;
pub const TIPC_DEF_LINK_PRI: u32 = 10;
pub const TIPC_DEF_LINK_TOL: u32 = 1500;
pub const TIPC_DEF_LINK_WIN: u32 = 50;
pub const TIPC_MAX_LINK_WIN: u32 = 8191;

/// A media address: the hardware address padded to 32 bytes, its media
/// type and whether it is the broadcast address.
#[derive(Clone, Copy, Debug, PartialEq, Eq)]
pub struct TipcMediaAddr {
    pub value: [u8; TIPC_MEDIA_INFO_SIZE],
    pub media_id: u8,
    pub broadcast: bool,
}

/// A media type's link defaults and identity.
#[derive(Clone, Copy, Debug, PartialEq, Eq)]
pub struct TipcMedia {
    pub priority: u32,
    pub tolerance: u32,
    pub min_win: u32,
    pub max_win: u32,
    pub type_id: u8,
    pub hwaddr_len: usize,
    pub name: &'static str,
}

/// The Ethernet media record.
pub fn eth_media_info() -> (r: TipcMedia)
    ensures
        r == (TipcMedia {
            priority: TIPC_DEF_LINK_PRI,
            tolerance: TIPC_DEF_LINK_TOL,
            min_win: TIPC_DEF_LINK_WIN,
            max_win: TIPC_MAX_LINK_WIN,
            type_id: TIPC_MEDIA_TYPE_ETH,
            hwaddr_len: ETH_ALEN,
            name: "eth",
        }),
{
    TipcMedia {
        priority: TIPC_DEF_LINK_PRI,
        tolerance: TIPC_DEF_LINK_TOL,
        min_win: TIPC_DEF_LINK_WIN,
        max_win: TIPC_MAX_LINK_WIN,
        type_id: TIPC_MEDIA_TYPE_ETH,
        hwaddr_len: ETH_ALEN,
        name: "eth",
    }
}

/// The lower-case hexadecimal digit for `nibble` (0..=15).
pub open spec fn hex_digit(nibble: u8) -> u8 {
    if nibble <= 9 {
        (48 + nibble) as u8
    } else {
        (97 + (nibble - 10)) as u8
    }
}

pub(crate) fn hex(nibble: u8) -> (r: u8)
    requires
        nibble <= 15,
    ensures
        r == hex_digit(nibble),
{
    if nibble <= 9 {
        48 + nibble
    } else {
        97 + (nibble - 10)
    }
}

/// The text of the first `n` address bytes: two hex digits each, separated
/// by colons, then a NUL (`3 * n` bytes).
pub open spec fn hwaddr_text(value: Seq<u8>, n: int) -> Seq<u8> {
    Seq::new((3 * n) as nat, |j: int| if j == 3 * n - 1 {
        0u8
    } else if j % 3 == 2 {
        58u8
    } else if j % 3 == 0 {
        hex_digit(value[j / 3] >> 4)
    } else {
        hex_digit(value[j / 3] & 15)
    })
}

/// Writes the address text into `buf` (see `hwaddr_text`), leaving the
/// rest of `buf` alone; 0, or 1 when `buf` is too small.
pub(crate) fn write_hwaddr_text(value: &[u8; 32], n: usize, buf: &mut [u8]) -> (r: i32)
    requires
        1 <= n <= 20,
    ensures
        old(buf)@.len() < 3 * n ==> r == 1 && final(buf)@ == old(buf)@,
        old(buf)@.len() >= 3 * n ==> r == 0 && final(buf)@ == hwaddr_text(value@, n as int) + old(buf)@.subrange(
            3 * n,
            old(buf)@.len() as int,
        ),
{
    if buf.len() < 3 * n {
        return 1;
    }
    let mut i: usize = 0;
    while i < n
        invariant
            i <= n <= 20,
            buf@.len() == old(buf)@.len(),
            buf@.len() >= 3 * n,
            value@.len() == 32,
            forall|j: int| 0 <= j < 3 * i && j < 3 * n - 1 ==> buf@[j] == #[trigger] hwaddr_text(value@, n as int)[j],
            forall|j: int| 3 * i <= j < buf@.len() ==> buf@[j] == old(buf)@[j],
        decreases n - i,
    {
        let byte = value[i];
        assert(byte >> 4 <= 15 && byte & 15 <= 15) by (bit_vector);
        buf[3 * i] = hex(byte >> 4);
        buf[3 * i + 1] = hex(byte & 15);
        if i != n - 1 {
            buf[3 * i + 2] = 58;
        }
        proof {
            assert forall|j: int| 3 * i <= j < 3 * i + 3 && j < 3 * n - 1 implies buf@[j] == #[trigger] hwaddr_text(value@, n as int)[j] by {
                assert(j / 3 == i);
            }
        }
        i += 1;
    }
    buf[3 * n - 1] = 0;
    assert(buf@ =~= hwaddr_text(value@, n as int) + old(buf)@.subrange(3 * n, old(buf)@.len() as int));
    0
}

/// The address as text, "xx:xx:xx:xx:xx:xx" and a NUL, in the first 18
/// bytes of `strbuf`; 1 when `strbuf` is shorter.
pub fn tipc_eth_addr2str(addr: &TipcMediaAddr, strbuf: &mut [u8]) -> (r: i32)
    ensures
        old(strbuf)@.len() < 18 ==> r == 1 && final(strbuf)@ == old(strbuf)@,
        old(strbuf)@.len() >= 18 ==> r == 0 && final(strbuf)@ == hwaddr_text(addr.value@, 6) + old(strbuf)@.subrange(
            18,
            old(strbuf)@.len() as int,
        ),
{
    write_hwaddr_text(&addr.value, ETH_ALEN, strbuf)
}

/// The discovery-message media field for an Ethernet address: zero but for
/// the media type at byte 3 and the MAC address at bytes 4..10.
pub open spec fn eth_msg(value: Seq<u8>) -> Seq<u8> {
    Seq::new(32, |j: int| if j == TIPC_MEDIA_TYPE_OFFSET {
        TIPC_MEDIA_TYPE_ETH
    } else if 4 <= j < 10 {
        value[j - 4]
    } else {
        0u8
    })
}

/// Fills the media field of a discovery message; see `eth_msg`.
pub fn tipc_eth_addr2msg(msg: &mut [u8; TIPC_MEDIA_INFO_SIZE], addr: &TipcMediaAddr) -> (r: i32)
    ensures
        r == 0,
        final(msg)@ == eth_msg(addr.value@),
{
    let mut j: usize = 0;
    while j < 32
        invariant
            j <= 32,
            msg@.len() == 32,
            addr.value@.len() == 32,
            forall|k: int| 0 <= k < j ==> msg@[k] == #[trigger] eth_msg(addr.value@)[k],
        decreases 32 - j,
    {
        if j == TIPC_MEDIA_TYPE_OFFSET {
            msg[j] = TIPC_MEDIA_TYPE_ETH;
        } else if 4 <= j && j < 10 {
            msg[j] = addr.value[j - 4];
        } else {
            msg[j] = 0;
        }
        j += 1;
    }
    assert(msg@ =~= eth_msg(addr.value@));
    0
}

/// The padded address bytes of a raw MAC address.
pub open spec fn eth_value_of(raw: Seq<u8>) -> Seq<u8> {
    Seq::new(32, |j: int| if j < 6 { raw[j] } else { 0u8 })
}

/// The media address of `raw`; see `eth_addr_of` and `eth_value_of`.
pub fn tipc_eth_raw2addr(raw: &[u8; ETH_ALEN]) -> (r: TipcMediaAddr)
    ensures
        r.value@ == eth_value_of(raw@),
        r.media_id == TIPC_MEDIA_TYPE_ETH,
        r.broadcast == (forall|i: int| 0 <= i < 6 ==> raw@[i] == 0xffu8),
{
    let mut value = [0u8; 32];
    let mut all_ff = true;
    let mut i: usize = 0;
    while i < ETH_ALEN
        invariant
            i <= 6,
            raw@.len() == 6,
            value@.len() == 32,
            forall|k: int| 0 <= k < i ==> value@[k] == raw@[k],
            forall|k: int| i <= k < 32 ==> value@[k] == 0u8,
            all_ff == (forall|k: int| 0 <= k < i ==> raw@[k] == 0xffu8),
        decreases 6 - i,
    {
        value[i] = raw[i];
        all_ff = all_ff && raw[i] == 0xff;
        i += 1;
    }
    assert(value@ =~= eth_value_of(raw@));
    TipcMediaAddr { value, media_id: TIPC_MEDIA_TYPE_ETH, broadcast: all_ff }
}

/// The media address carried in a discovery message's media field (the
/// six bytes at offset 4).
pub fn tipc_eth_msg2addr(msg: &[u8; TIPC_MEDIA_INFO_SIZE]) -> (r: TipcMediaAddr)
    ensures
        r.value@ == eth_value_of(msg@.subrange(4, 10)),
        r.media_id == TIPC_MEDIA_TYPE_ETH,
        r.broadcast == (forall|i: int| 4 <= i < 10 ==> msg@[i] == 0xffu8),
{
    let mut raw = [0u8; ETH_ALEN];
    let mut i: usize = 0;
    while i < ETH_ALEN
        invariant
            i <= 6,
            raw@.len() == 6,
            msg@.len() == 32,
            forall|k: int| 0 <= k < i ==> raw@[k] == msg@[k + 4],
        decreases 6 - i,
    {
        raw[i] = msg[TIPC_MEDIA_ADDR_OFFSET + i];
        i += 1;
    }
    assert(raw@ =~= msg@.subrange(4, 10));
    let r = tipc_eth_raw2addr(&raw);
    assert((forall|i: int| 0 <= i < 6 ==> raw@[i] == 0xffu8) == (forall|i: int| 4 <= i < 10 ==> msg@[i] == 0xffu8)) by {
        if forall|i: int| 4 <= i < 10 ==> msg@[i] == 0xffu8 {
            assert forall|i: int| 0 <= i < 6 implies raw@[i] == 0xffu8 by {
                assert(raw@[i] == msg@[i + 4]);
            }
        }
        if forall|i: int| 0 <= i < 6 ==> raw@[i] == 0xffu8 {
            assert forall|i: int| 4 <= i < 10 implies msg@[i] == 0xffu8 by {
                assert(raw@[i - 4] == msg@[i]);
            }
        }
    }
    r
}

/// Sending an address in a discovery message and reading it back gives the
/// same padded address bytes.
pub proof fn lemma_eth_msg_roundtrip(raw: Seq<u8>)
    requires
        raw.len() == 6,
    ensures
        eth_value_of(eth_msg(eth_value_of(raw)).subrange(4, 10)) == eth_value_of(raw),
{
    assert(eth_msg(eth_value_of(raw)).subrange(4, 10) =~= raw);
}

} // verus!
