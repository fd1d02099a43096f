//! IPv6 and MPLS registration surfaces brought up during networking init:
//! MPLS GSO segmentation, in-situ OAM (IOAM) for IPv6, and Mobile IPv6.
use vstd::prelude::*;

pub mod acceptance;
pub mod ioam6;
pub mod ioam6_links;
pub mod ioam6_tunnel;
pub mod mip6;
pub mod mpls;
pub mod registry;

verus! {

pub const AF_INET6: u16 = 10;
pub const ETH_P_MPLS_UC: u16 = 0x8847;
pub const ETH_P_MPLS_MC: u16 = 0x8848;
pub const ETH_P_IP: u16 = 0x0800;
pub const ETH_P_IPV6: u16 = 0x86dd;
pub const IPPROTO_DSTOPTS: u8 = 60;
pub const IPPROTO_ROUTING: u8 = 43;
pub const IPPROTO_MH: u8 = 135;
pub const IPPROTO_NONE: u8 = 59;
pub const IPPROTO_HOPOPTS: u8 = 0;
pub const IPPROTO_ICMPV6: u8 = 58;
pub const IPV6_HEADER_LEN: usize = 40;
pub const LWTUNNEL_ENCAP_IOAM6: u16 = 9;
pub const IPV6_TLV_PAD1: u8 = 0;
pub const IPV6_TLV_PADN: u8 = 1;

/// The bytes of an IPv6 PadN (or Pad1) option that fills `padlen` bytes.
pub open spec fn padn_bytes(padlen: nat) -> Seq<u8> {
    if padlen == 0 {
        Seq::empty()
    } else if padlen == 1 {
        seq![IPV6_TLV_PAD1]
    } else {
        seq![IPV6_TLV_PADN, (padlen - 2) as u8] + Seq::new((padlen - 2) as nat, |i: int| 0u8)
    }
}

/// Appends a Pad1/PadN option of `padlen` bytes to `out`.
pub(crate) fn append_padn(out: &mut Vec<u8>, padlen: usize)
    requires
        padlen <= 4096,
    ensures
        final(out)@ == old(out)@ + padn_bytes(padlen as nat),
{
    if padlen == 0 {
        assert(old(out)@ + padn_bytes(0) =~= old(out)@);
        return;
    }
    if padlen == 1 {
        out.push(IPV6_TLV_PAD1);
        assert(out@ =~= old(out)@ + padn_bytes(1));
        return;
    }
    out.push(IPV6_TLV_PADN);
    out.push((padlen - 2) as u8);
    let mut i: usize = 0;
    while i < padlen - 2
        invariant
            2 <= padlen <= 4096,
            i <= padlen - 2,
            out@ == old(out)@ + seq![IPV6_TLV_PADN, (padlen - 2) as u8] + Seq::new(i as nat, |j: int| 0u8),
        decreases padlen - 2 - i,
    {
        out.push(0);
        i += 1;
        assert(out@ =~= old(out)@ + seq![IPV6_TLV_PADN, (padlen - 2) as u8] + Seq::new(i as nat, |j: int| 0u8));
    }
    assert(out@ =~= old(out)@ + padn_bytes(padlen as nat));
}

/// `x` as a `usize`, saturating at `usize::MAX`.
pub open spec fn saturating_usize(x: nat) -> usize {
    if x > usize::MAX {
        usize::MAX
    } else {
        x as usize
    }
}

/// `a + b`, saturating at `usize::MAX`.
pub open spec fn sum_saturating(a: usize, b: usize) -> usize {
    saturating_usize((a + b) as nat)
}

/// The low 32 bits of `x`.
pub open spec fn low_u32(x: usize) -> u32 {
    x as u32
}

/// `x` narrowed to 32 bits.
pub(crate) fn usize_to_u32(x: usize) -> (r: u32)
    requires
        x <= u32::MAX,
    ensures
        r == x,
{
    x as u32
}

/// Whether two IPv6 addresses are equal.
pub(crate) fn addr_eq(a: &[u8; 16], b: &[u8; 16]) -> (r: bool)
    ensures
        r == (a@ == b@),
{
    let mut i: usize = 0;
    while i < 16
        invariant
            i <= 16,
            a@.len() == 16,
            b@.len() == 16,
            forall|j: int| 0 <= j < i ==> a@[j] == b@[j],
        decreases 16 - i,
    {
        if a[i] != b[i] {
            return false;
        }
        i += 1;
    }
    assert(a@ =~= b@);
    true
}

/// The all-zero (unspecified) IPv6 address.
pub open spec fn addr_any() -> Seq<u8> {
    Seq::new(16, |i: int| 0u8)
}

/// Whether `a` is the unspecified address.
pub(crate) fn addr_is_any(a: &[u8; 16]) -> (r: bool)
    ensures
        r == (a@ == addr_any()),
{
    let z = [0u8; 16];
    assert(z@ =~= addr_any());
    addr_eq(a, &z)
}

} // verus!
