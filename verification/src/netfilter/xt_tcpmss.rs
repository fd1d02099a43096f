//! Xtables TCP MSS option match.
use vstd::prelude::*;

use crate::bytes::be16;

verus! {

pub const MODULE_LICENSE: &'static str = "GPL";
pub const MODULE_AUTHOR: &'static str = "Marc Boucher <marc@mbsi.ca>";
pub const MODULE_DESCRIPTION: &'static str = "Xtables: TCP MSS match";
pub const NFPROTO_IPV4: u8 = 2;
pub const NFPROTO_IPV6: u8 = 10;
pub const IPPROTO_TCP: u8 = 6;
pub const TCPOPT_MSS: u8 = 2;
pub const TCPOLEN_MSS: usize = 4;
pub const TCP_HEADER_LEN: usize = 20;

/// Accepted MSS range of a rule.
#[derive(Clone, Copy, Debug, PartialEq, Eq)]
pub struct XtTcpmssMatchInfo {
    pub mss_min: u16,
    pub mss_max: u16,
    pub invert: bool,
}

/// Per-packet parameters of a match call.
#[derive(Clone, Copy, Debug, Default, PartialEq, Eq)]
pub struct XtActionParam {
    pub thoff: usize,
    pub fragoff: bool,
    pub hotdrop: bool,
}

/// Registration record of an xtables match.
#[derive(Clone, Copy, Debug, PartialEq, Eq)]
pub struct XtMatch {
    pub name: &'static str,
    pub family: u8,
    pub matchsize: usize,
    pub proto: u8,
}

/// Verdict of the option scan that starts at option byte `i`; the options
/// are the `optlen` bytes of `skb` that start at `base`.
pub open spec fn mss_scan(skb: Seq<u8>, base: int, optlen: int, i: int, info: XtTcpmssMatchInfo) -> bool
    decreases (if i < optlen { optlen - i } else { 0 }),
{
    if i >= optlen || i < 0 {
        info.invert
    } else if skb[base + i] == TCPOPT_MSS && optlen - i >= TCPOLEN_MSS && skb[base + i + 1] == TCPOLEN_MSS {
        let mss = be16(skb[base + i + 2], skb[base + i + 3]);
        (info.mss_min <= mss && mss <= info.mss_max) != info.invert
    } else if skb[base + i] < 2 || i == optlen - 1 {
        mss_scan(skb, base, optlen, i + 1, info)
    } else {
        let step = skb[base + i + 1];
        let adv: int = if step == 0 {
            1
        } else {
            step as int
        };
        mss_scan(skb, base, optlen, i + adv, info)
    }
}

/// Data offset of the TCP header at `thoff`, in bytes.
pub open spec fn tcp_doff_bytes(skb: Seq<u8>, thoff: int) -> int {
    (skb[thoff + 12] / 16) as int * 4
}

/// The verdict for a non-fragment packet: `None` when the header or its
/// options are truncated (the packet is dropped), else the match result.
pub open spec fn tcpmss_verdict(skb: Seq<u8>, thoff: int, info: XtTcpmssMatchInfo) -> Option<bool> {
    if thoff + TCP_HEADER_LEN > skb.len() {
        None
    } else if tcp_doff_bytes(skb, thoff) < TCP_HEADER_LEN {
        None
    } else if tcp_doff_bytes(skb, thoff) == TCP_HEADER_LEN {
        Some(info.invert)
    } else if thoff + tcp_doff_bytes(skb, thoff) > skb.len() {
        None
    } else {
        Some(mss_scan(skb, thoff + TCP_HEADER_LEN, tcp_doff_bytes(skb, thoff) - TCP_HEADER_LEN, 0, info))
    }
}

/// Matches when the MSS option lies in the configured range (or, inverted,
/// when it does not or is absent); truncated headers set `hotdrop`.
pub fn tcpmss_mt(skb: &[u8], par: &mut XtActionParam, info: XtTcpmssMatchInfo) -> (r: bool)
    requires
        old(par).fragoff || old(par).thoff + 60 <= usize::MAX,
    ensures
        old(par).fragoff ==> !r && *final(par) == *old(par),
        !old(par).fragoff ==> match tcpmss_verdict(skb@, old(par).thoff as int, info) {
            None => !r && *final(par) == (XtActionParam { hotdrop: true, ..*old(par) }),
            Some(v) => r == v && *final(par) == *old(par),
        },
{
    if par.fragoff {
        return false;
    }
    let thoff = par.thoff;
    if thoff + TCP_HEADER_LEN > skb.len() {
        par.hotdrop = true;
        return false;
    }
    let doff = skb[thoff + 12];
    assert(doff >> 4u8 == doff / 16) by (bit_vector);
    let tcp_len = ((doff >> 4) as usize) * 4;
    if tcp_len < TCP_HEADER_LEN {
        par.hotdrop = true;
        return false;
    }
    let optlen = tcp_len - TCP_HEADER_LEN;
    if optlen == 0 {
        return info.invert;
    }
    if thoff + TCP_HEADER_LEN + optlen > skb.len() {
        par.hotdrop = true;
        return false;
    }
    let base = thoff + TCP_HEADER_LEN;
    assert(tcp_len as int == tcp_doff_bytes(skb@, thoff as int));
    let mut i: usize = 0;
    while i < optlen
        invariant
            base == thoff + TCP_HEADER_LEN,
            base + optlen <= skb@.len(),
            optlen <= 40,
            skb@.len() == skb.len(),
            mss_scan(skb@, base as int, optlen as int, i as int, info)
                == mss_scan(skb@, base as int, optlen as int, 0, info),
            tcp_len as int == tcp_doff_bytes(skb@, thoff as int),
            optlen == tcp_len - TCP_HEADER_LEN,
            thoff == old(par).thoff,
            !old(par).fragoff,
            *par == *old(par),
            i <= 400,
        decreases (if i < optlen { optlen - i } else { 0 }),
    {
        if skb[base + i] == TCPOPT_MSS && optlen - i >= TCPOLEN_MSS && skb[base + i + 1] as usize == TCPOLEN_MSS {
            let mssval = crate::bytes::read_be16(skb, base + i + 2);
            assert(tcp_len as int == tcp_doff_bytes(skb@, thoff as int));
            assert(mss_scan(skb@, base as int, optlen as int, i as int, info)
                == ((info.mss_min <= mssval && mssval <= info.mss_max) != info.invert));
            return (mssval >= info.mss_min && mssval <= info.mss_max) != info.invert;
        }
        if skb[base + i] < 2 || i == optlen - 1 {
            i += 1;
        } else {
            let step = skb[base + i + 1] as usize;
            i += if step == 0 {
                1
            } else {
                step
            };
        }
    }
    info.invert
}

/// The two registration records (IPv4 and IPv6).
pub fn tcpmss_mt_init() -> (r: [XtMatch; 2])
    ensures
        r[0].name == "tcpmss" && r[1].name == "tcpmss",
        r[0].family == NFPROTO_IPV4 && r[1].family == NFPROTO_IPV6,
        r[0].proto == IPPROTO_TCP && r[1].proto == IPPROTO_TCP,
        r[0].matchsize == vstd::layout::size_of::<XtTcpmssMatchInfo>(),
        r[1].matchsize == vstd::layout::size_of::<XtTcpmssMatchInfo>(),
{
    let size = core::mem::size_of::<XtTcpmssMatchInfo>();
    [
        XtMatch { name: "tcpmss", family: NFPROTO_IPV4, matchsize: size, proto: IPPROTO_TCP },
        XtMatch { name: "tcpmss", family: NFPROTO_IPV6, matchsize: size, proto: IPPROTO_TCP },
    ]
}

proof fn lemma_scan_without_mss(skb: Seq<u8>, base: int, optlen: int, i: int, info: XtTcpmssMatchInfo)
    requires
        0 <= base,
        base + optlen <= skb.len(),
        forall|j: int| 0 <= j < optlen ==> #[trigger] skb[base + j] != TCPOPT_MSS,
    ensures
        mss_scan(skb, base, optlen, i, info) == info.invert,
    decreases (if i < optlen { optlen - i } else { 0 }),
{
    if i >= optlen || i < 0 {
    } else {
        assert(skb[base + i] != TCPOPT_MSS);
        if skb[base + i] < 2 || i == optlen - 1 {
            lemma_scan_without_mss(skb, base, optlen, i + 1, info);
        } else {
            let step = skb[base + i + 1];
            let adv: int = if step == 0 { 1 } else { step as int };
            lemma_scan_without_mss(skb, base, optlen, i + adv, info);
        }
    }
}

/// A well-formed TCP header whose options hold no MSS option kind matches
/// exactly when the rule is inverted: the MSS range is never consulted.
pub proof fn lemma_no_mss_option_matches_invert(skb: Seq<u8>, thoff: int, info: XtTcpmssMatchInfo)
    requires
        0 <= thoff,
        thoff + TCP_HEADER_LEN <= skb.len(),
        tcp_doff_bytes(skb, thoff) >= TCP_HEADER_LEN,
        thoff + tcp_doff_bytes(skb, thoff) <= skb.len(),
        forall|j: int| thoff + TCP_HEADER_LEN <= j < thoff + tcp_doff_bytes(skb, thoff) ==> skb[j] != TCPOPT_MSS,
    ensures
        tcpmss_verdict(skb, thoff, info) == Some(info.invert),
{
    let base = thoff + TCP_HEADER_LEN;
    let optlen = tcp_doff_bytes(skb, thoff) - TCP_HEADER_LEN;
    assert forall|j: int| 0 <= j < optlen implies #[trigger] skb[base + j] != TCPOPT_MSS by {
        assert(thoff + TCP_HEADER_LEN <= base + j < thoff + tcp_doff_bytes(skb, thoff));
    }
    lemma_scan_without_mss(skb, base, optlen, 0, info);
}

} // verus!
