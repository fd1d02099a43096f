//! The option calls `setsockopt(2)` and `getsockopt(2)`: which request a
//! level, option and value make, how timeouts and interface names are
//! read, and what the netlink options answer.
use vstd::prelude::*;
use vstd::string::StringSliceAdditionalSpecFns;
use vstd::utf8::{encode_utf8, valid_utf8};

use crate::bytes::{be32_at, le32_at, le32_bytes, read_be32, read_le32, u32_to_le_bytes};
use crate::errno::{EFAULT, EINVAL, ENOPROTOOPT};
use crate::ip::push_bytes;
use crate::rtnetlink::NETLINK_ROUTE;
use crate::socket::{
    first_nul, str_from_utf8, zeros, AF_INET, AF_INET6, AF_NETLINK, AF_PACKET, IP_PKTINFO, IP_TTL, SOL_IP, SOL_SOCKET,
    SO_RCVTIMEO_NEW, SO_RCVTIMEO_OLD, SO_SNDTIMEO_NEW, SO_SNDTIMEO_OLD,
};

verus! {

pub const SOL_IPV6: i32 = 41;
pub const SOL_PACKET: i32 = 263;
pub const SOL_NETLINK: i32 = 270;
pub const IP_MTU_DISCOVER: i32 = 10;
pub const IP_RECVERR: i32 = 11;
pub const IP_RECVTTL: i32 = 12;
pub const IP_MTU: i32 = 14;
pub const IP_RECVFRAGSIZE: i32 = 25;
pub const IP_UNICAST_IF: i32 = 50;
pub const IPV6_MTU: i32 = 24;
pub const IPV6_RECVERR: i32 = 25;
pub const IPV6_RECVPKTINFO: i32 = 49;
pub const IPV6_UNICAST_IF: i32 = 76;
pub const SO_BINDTODEVICE: i32 = 25;
pub const SO_PEERCRED: i32 = 17;
pub const SO_PEERSEC: i32 = 31;
pub const SO_PEERGROUPS: i32 = 59;
pub const SO_PEERPIDFD: i32 = 77;
pub const NETLINK_ADD_MEMBERSHIP: i32 = 1;
pub const NETLINK_DROP_MEMBERSHIP: i32 = 2;
pub const NETLINK_PKTINFO: i32 = 3;
pub const NETLINK_LIST_MEMBERSHIPS: i32 = 9;
pub const RTNLGRP_MAX: usize = 39;
/// The longest interface name, its NUL included.
pub const IFNAMSIZ: usize = 16;
/// The bytes of a `timeval` or `timespec` option value.
pub const TIME_OPTVAL_LEN: u32 = 16;

/// What a `setsockopt(2)` call asks of the socket.
#[derive(Clone, Debug, PartialEq, Eq)]
pub enum SockoptRequest {
    /// Accepted and ignored on a socket of this family, EINVAL on others.
    RequireFamily(u16),
    /// Whether received IPv4 packets carry their TTL.
    RecvTtl(u32),
    /// Whether received packets carry their packet information.
    RecvPktinfo(u32),
    /// The interface that unicast sends leave by.
    UnicastIf(u32),
    /// Join (`add`) or leave a netlink multicast group.
    Membership { group: u32, add: bool },
    /// Bind to the interface of this name, or to none.
    BindToDevice(Option<String>),
    /// A receive or send timeout in nanoseconds.
    Timeout { opt: u32, ns: u64 },
    /// A socket-level option with this value.
    Generic { opt: u32, value: u32 },
}

/// The 64-bit host-order signed value at `off`.
pub open spec fn le_i64_at(b: Seq<u8>, off: int) -> i64 {
    (le32_at(b, off) + le32_at(b, off + 4) * 4294967296) as i64
}

fn read_le_i64(b: &[u8], off: usize) -> (r: i64)
    requires
        off + 8 <= b@.len(),
    ensures
        r == le_i64_at(b@, off as int),
{
    let len = b.len();
    assert(off + 8 <= len);
    let lo = read_le32(b, off) as u64;
    let hi = read_le32(b, off + 4) as u64;
    let v: u64 = lo + hi * 4294967296;
    #[verifier::truncate]
    (v as i64)
}

/// `a * b + c`, each step saturating at the largest `u64`.
pub open spec fn sat_mul_add(a: u64, b: u64, c: u64) -> u64 {
    let m = if a * b > u64::MAX { u64::MAX as int } else { a * b };
    if m + c > u64::MAX { u64::MAX } else { (m + c) as u64 }
}

/// A `timeval` timeout in nanoseconds: negative fields and a microsecond
/// count of a second or more are EINVAL; the total saturates.
pub open spec fn timeval_ns(sec: i64, usec: i64) -> Result<u64, i32> {
    if sec < 0 || usec < 0 || usec >= 1_000_000 {
        Err(EINVAL)
    } else {
        Ok(sat_mul_add(sec as u64, 1_000_000_000, (usec * 1000) as u64))
    }
}

/// Converts a `timeval` timeout to nanoseconds.
pub fn timeval_timeout_ns(sec: i64, usec: i64) -> (r: Result<u64, i32>)
    ensures
        r == timeval_ns(sec, usec),
{
    if sec < 0 || usec < 0 || usec >= 1_000_000 {
        return Err(EINVAL);
    }
    let s = sec as u64;
    let us = usec as u64;
    let m: u64 = if s > u64::MAX / 1_000_000_000 { u64::MAX } else { s * 1_000_000_000 };
    assert(s > u64::MAX / 1_000_000_000 <==> s * 1_000_000_000 > u64::MAX) by (nonlinear_arith);
    let extra: u64 = us * 1000;
    Ok(if m > u64::MAX - extra { u64::MAX } else { m + extra })
}

/// The largest whole number of seconds a nanosecond count below
/// `i64::MAX` holds.
pub const KTIME_SEC_MAX: i64 = 9223372036;

/// A `timespec` timeout in nanoseconds: a negative field or a nanosecond
/// count of a second or more is EINVAL; past the largest time the count
/// stops at `i64::MAX`.
pub open spec fn timespec_ns(sec: i64, nsec: i64) -> Result<u64, i32> {
    if sec < 0 || nsec < 0 || nsec >= 1_000_000_000 {
        Err(EINVAL)
    } else if sec >= KTIME_SEC_MAX {
        Ok(i64::MAX as u64)
    } else {
        Ok((sec * 1_000_000_000 + nsec) as u64)
    }
}

/// Converts a `timespec` timeout to nanoseconds.
pub fn timespec_timeout_ns(sec: i64, nsec: i64) -> (r: Result<u64, i32>)
    ensures
        r == timespec_ns(sec, nsec),
{
    if sec < 0 || nsec < 0 || nsec >= 1_000_000_000 {
        return Err(EINVAL);
    }
    if sec >= KTIME_SEC_MAX {
        return Ok(i64::MAX as u64);
    }
    assert(sec * 1_000_000_000 + nsec < i64::MAX) by (nonlinear_arith)
        requires
            0 <= sec < 9223372036,
            0 <= nsec < 1_000_000_000,
    ;
    Ok((sec * 1_000_000_000 + nsec) as u64)
}

/// The interface name in the first bytes of `raw` (at most `IFNAMSIZ`),
/// up to the first NUL.
pub open spec fn ifname_bytes(raw: Seq<u8>) -> Seq<u8> {
    let head = raw.take(if raw.len() < IFNAMSIZ { raw.len() as int } else { IFNAMSIZ as int });
    head.take(first_nul(head) as int)
}

/// Reads the interface name of SO_BINDTODEVICE from the `len`-byte value
/// whose first bytes are `head`: none for an empty value or name, EFAULT
/// when a non-empty value is missing, EINVAL for a name that is not UTF-8.
pub fn parse_ifname_optval(head: Option<&[u8]>, len: u32) -> (r: Result<Option<String>, i32>)
    requires
        head matches Some(h) ==> h@.len() == (if len < IFNAMSIZ { len as int } else { IFNAMSIZ as int }),
    ensures
        len == 0 ==> r == Ok::<Option<String>, i32>(None),
        len != 0 && head is None ==> r == Err::<Option<String>, i32>(EFAULT),
        len != 0 && head is Some ==> {
            let name = ifname_bytes(head->Some_0@);
            &&& name.len() == 0 ==> r == Ok::<Option<String>, i32>(None)
            &&& name.len() != 0 && !valid_utf8(name) ==> r == Err::<Option<String>, i32>(EINVAL)
            &&& name.len() != 0 && valid_utf8(name) ==> (r matches Ok(Some(s)) && encode_utf8(s@) == name)
        },
{
    if len == 0 {
        return Ok(None);
    }
    let h = match head {
        Some(h) => h,
        None => return Err(EFAULT),
    };
    assert(h@.take(h@.len() as int) =~= h@);
    let mut used: usize = 0;
    while used < h.len() && h[used] != 0
        invariant
            used <= h@.len(),
            forall|j: int| 0 <= j < used ==> h@[j] != 0,
        decreases h@.len() - used,
    {
        used += 1;
    }
    proof {
        lemma_first_nul_at(h@, used as int);
    }
    if used == 0 {
        return Ok(None);
    }
    let name = &h[0..used];
    assert(name@ == ifname_bytes(h@));
    match str_from_utf8(name) {
        Some(text) => Ok(Some(text.to_owned())),
        None => Err(EINVAL),
    }
}

proof fn lemma_first_nul_at(s: Seq<u8>, k: int)
    requires
        0 <= k <= s.len(),
        forall|j: int| 0 <= j < k ==> s[j] != 0,
        k == s.len() || s[k] == 0,
    ensures
        first_nul(s) == k,
    decreases k,
{
    if k > 0 {
        lemma_first_nul_at(s.drop_first(), k - 1);
    }
}

/// The first option word of a value: its first four bytes in host order
/// when there are four, else 0.
pub open spec fn option_word(head: Option<&[u8]>, len: u32) -> u32 {
    match head {
        Some(h) => if len >= 4 { le32_at(h@, 0) } else { 0 },
        None => 0,
    }
}

/// A request that reads an interface index in network order: EINVAL when
/// it is missing or shorter than four bytes.
pub open spec fn ifindex_request(head: Option<&[u8]>, len: u32) -> Result<SockoptRequest, i32> {
    if head is None || len < 4 { Err(EINVAL) } else { Ok(SockoptRequest::UnicastIf(be32_at(head->Some_0@, 0))) }
}

/// A request made of a timeout structure of two 64-bit fields: EFAULT when
/// missing, EINVAL when shorter.
pub open spec fn time_struct_ok(head: Option<&[u8]>, len: u32) -> Result<(), i32> {
    if head is None { Err(EFAULT) } else if len < TIME_OPTVAL_LEN { Err(EINVAL) } else { Ok(()) }
}

fn read_word(head: Option<&[u8]>, len: u32) -> (r: Result<u32, i32>)
    requires
        head matches Some(h) ==> h@.len() == (if len < IFNAMSIZ { len as int } else { IFNAMSIZ as int }),
    ensures
        (head is None || len < 4) ==> r == Err::<u32, i32>(EINVAL),
        !(head is None || len < 4) ==> r == Ok::<u32, i32>(le32_at(head->Some_0@, 0)),
{
    match head {
        Some(h) => if len < 4 { Err(EINVAL) } else { Ok(read_le32(h, 0)) },
        None => Err(EINVAL),
    }
}

fn read_ifindex(head: Option<&[u8]>, len: u32) -> (r: Result<u32, i32>)
    requires
        head matches Some(h) ==> h@.len() == (if len < IFNAMSIZ { len as int } else { IFNAMSIZ as int }),
    ensures
        (head is None || len < 4) ==> r == Err::<u32, i32>(EINVAL),
        !(head is None || len < 4) ==> r == Ok::<u32, i32>(be32_at(head->Some_0@, 0)),
{
    match head {
        Some(h) => if len < 4 { Err(EINVAL) } else { Ok(read_be32(h, 0)) },
        None => Err(EINVAL),
    }
}

/// The request a `setsockopt(2)` call makes, from its level, option, and
/// the first bytes `head` of its `len`-byte value (none for a null
/// pointer). A missing non-empty value is EFAULT; packet-level options and
/// the IP and IPv6 options without state are accepted by family; the
/// TTL, packet-information and interface options read a 32-bit value
/// (EINVAL when shorter); netlink membership reads the group; timeouts
/// read a `timeval` or `timespec`; the rest are socket-level options.
pub fn setsockopt_request(level: i32, opt: i32, head: Option<&[u8]>, len: u32) -> (r: Result<SockoptRequest, i32>)
    requires
        head matches Some(h) ==> h@.len() == (if len < IFNAMSIZ { len as int } else { IFNAMSIZ as int }),
    ensures
        head is None && len != 0 ==> r == Err::<SockoptRequest, i32>(EFAULT),
        !(head is None && len != 0) ==> {
            &&& level == SOL_PACKET ==> r == Ok::<SockoptRequest, i32>(SockoptRequest::RequireFamily(AF_PACKET))
            &&& level == SOL_IP && (opt == IP_RECVTTL || opt == IP_PKTINFO) ==> r == (if head is None || len < 4 {
                Err::<SockoptRequest, i32>(EINVAL)
            } else if opt == IP_RECVTTL {
                Ok(SockoptRequest::RecvTtl(le32_at(head->Some_0@, 0)))
            } else {
                Ok(SockoptRequest::RecvPktinfo(le32_at(head->Some_0@, 0)))
            })
            &&& level == SOL_IP && opt == IP_UNICAST_IF ==> r == ifindex_request(head, len)
            &&& level == SOL_IP && (opt == IP_RECVERR || opt == IP_MTU_DISCOVER || opt == IP_RECVFRAGSIZE
                || opt == IP_TTL) ==> r == Ok::<SockoptRequest, i32>(SockoptRequest::RequireFamily(AF_INET))
            &&& level == SOL_IPV6 && opt == IPV6_RECVPKTINFO ==> r == (if head is None || len < 4 {
                Err::<SockoptRequest, i32>(EINVAL)
            } else {
                Ok(SockoptRequest::RecvPktinfo(le32_at(head->Some_0@, 0)))
            })
            &&& level == SOL_IPV6 && opt == IPV6_UNICAST_IF ==> r == ifindex_request(head, len)
            &&& level == SOL_IPV6 && opt == IPV6_RECVERR ==> r == Ok::<SockoptRequest, i32>(
                SockoptRequest::RequireFamily(AF_INET6),
            )
            &&& level == SOL_NETLINK && opt == NETLINK_PKTINFO ==> r == (if head is None || len < 4 {
                Err::<SockoptRequest, i32>(EINVAL)
            } else {
                Ok(SockoptRequest::RecvPktinfo(le32_at(head->Some_0@, 0)))
            })
            &&& level == SOL_NETLINK && (opt == NETLINK_ADD_MEMBERSHIP || opt == NETLINK_DROP_MEMBERSHIP) ==> r == (
            if head is None {
                Err::<SockoptRequest, i32>(EFAULT)
            } else if len < 4 {
                Err(EINVAL)
            } else {
                Ok(SockoptRequest::Membership { group: le32_at(head->Some_0@, 0), add: opt == NETLINK_ADD_MEMBERSHIP })
            })
            &&& level == SOL_SOCKET && (opt == SO_RCVTIMEO_OLD as i32 || opt == SO_SNDTIMEO_OLD as i32) ==> r == (
            match time_struct_ok(head, len) {
                Err(e) => Err::<SockoptRequest, i32>(e),
                Ok(()) => match timeval_ns(le_i64_at(head->Some_0@, 0), le_i64_at(head->Some_0@, 8)) {
                    Err(e) => Err(e),
                    Ok(ns) => Ok(SockoptRequest::Timeout { opt: opt as u32, ns }),
                },
            })
            &&& level == SOL_SOCKET && (opt == SO_RCVTIMEO_NEW as i32 || opt == SO_SNDTIMEO_NEW as i32) ==> r == (
            match time_struct_ok(head, len) {
                Err(e) => Err::<SockoptRequest, i32>(e),
                Ok(()) => match timespec_ns(le_i64_at(head->Some_0@, 0), le_i64_at(head->Some_0@, 8)) {
                    Err(e) => Err(e),
                    Ok(ns) => Ok(SockoptRequest::Timeout { opt: opt as u32, ns }),
                },
            })
            &&& level == SOL_SOCKET && opt == SO_BINDTODEVICE ==> {
                &&& len == 0 ==> r == Ok::<SockoptRequest, i32>(SockoptRequest::BindToDevice(None))
                &&& len != 0 && head is Some ==> {
                    let name = ifname_bytes(head->Some_0@);
                    &&& name.len() == 0 ==> r == Ok::<SockoptRequest, i32>(SockoptRequest::BindToDevice(None))
                    &&& name.len() != 0 && !valid_utf8(name) ==> r == Err::<SockoptRequest, i32>(EINVAL)
                    &&& name.len() != 0 && valid_utf8(name) ==> (r matches Ok(SockoptRequest::BindToDevice(Some(t)))
                        && encode_utf8(t@) == name)
                }
            }
            &&& !(level == SOL_PACKET || level == SOL_IP && (opt == IP_RECVTTL || opt == IP_PKTINFO || opt == IP_UNICAST_IF
                || opt == IP_RECVERR || opt == IP_MTU_DISCOVER || opt == IP_RECVFRAGSIZE || opt == IP_TTL)
                || level == SOL_IPV6 && (opt == IPV6_RECVPKTINFO || opt == IPV6_UNICAST_IF || opt == IPV6_RECVERR)
                || level == SOL_NETLINK && (opt == NETLINK_PKTINFO || opt == NETLINK_ADD_MEMBERSHIP
                || opt == NETLINK_DROP_MEMBERSHIP) || level == SOL_SOCKET && (opt == SO_BINDTODEVICE
                || opt == SO_RCVTIMEO_OLD as i32 || opt == SO_SNDTIMEO_OLD as i32 || opt == SO_RCVTIMEO_NEW as i32
                || opt == SO_SNDTIMEO_NEW as i32)) ==> r == Ok::<SockoptRequest, i32>(
                SockoptRequest::Generic { opt: opt as u32, value: option_word(head, len) },
            )
        },
{
    if head.is_none() && len != 0 {
        return Err(EFAULT);
    }
    if level == SOL_PACKET {
        return Ok(SockoptRequest::RequireFamily(AF_PACKET));
    }
    if level == SOL_IP && (opt == IP_RECVTTL || opt == IP_PKTINFO) {
        let v = read_word(head, len)?;
        return Ok(if opt == IP_RECVTTL { SockoptRequest::RecvTtl(v) } else { SockoptRequest::RecvPktinfo(v) });
    }
    if level == SOL_IP && opt == IP_UNICAST_IF {
        let v = read_ifindex(head, len)?;
        return Ok(SockoptRequest::UnicastIf(v));
    }
    if level == SOL_IP && (opt == IP_RECVERR || opt == IP_MTU_DISCOVER || opt == IP_RECVFRAGSIZE || opt == IP_TTL) {
        return Ok(SockoptRequest::RequireFamily(AF_INET));
    }
    if level == SOL_IPV6 && (opt == IPV6_RECVPKTINFO || opt == IPV6_UNICAST_IF || opt == IPV6_RECVERR) {
        if opt == IPV6_RECVPKTINFO {
            let v = read_word(head, len)?;
            return Ok(SockoptRequest::RecvPktinfo(v));
        }
        if opt == IPV6_UNICAST_IF {
            let v = read_ifindex(head, len)?;
            return Ok(SockoptRequest::UnicastIf(v));
        }
        return Ok(SockoptRequest::RequireFamily(AF_INET6));
    }
    if level == SOL_NETLINK && opt == NETLINK_PKTINFO {
        let v = read_word(head, len)?;
        return Ok(SockoptRequest::RecvPktinfo(v));
    }
    if level == SOL_NETLINK && (opt == NETLINK_ADD_MEMBERSHIP || opt == NETLINK_DROP_MEMBERSHIP) {
        let h = match head {
            Some(h) => h,
            None => return Err(EFAULT),
        };
        if len < 4 {
            return Err(EINVAL);
        }
        return Ok(SockoptRequest::Membership { group: read_le32(h, 0), add: opt == NETLINK_ADD_MEMBERSHIP });
    }
    if level == SOL_SOCKET {
        if opt == SO_BINDTODEVICE {
            let name = parse_ifname_optval(head, len)?;
            return Ok(SockoptRequest::BindToDevice(name));
        }
        let rcv_old: i32 = SO_RCVTIMEO_OLD as i32;
        let snd_old: i32 = SO_SNDTIMEO_OLD as i32;
        let rcv_new: i32 = SO_RCVTIMEO_NEW as i32;
        let snd_new: i32 = SO_SNDTIMEO_NEW as i32;
        if opt == rcv_old || opt == snd_old || opt == rcv_new || opt == snd_new {
            let h = match head {
                Some(h) => h,
                None => return Err(EFAULT),
            };
            if len < TIME_OPTVAL_LEN {
                return Err(EINVAL);
            }
            let sec = read_le_i64(h, 0);
            let frac = read_le_i64(h, 8);
            let ns = if opt == rcv_new || opt == snd_new {
                timespec_timeout_ns(sec, frac)?
            } else {
                timeval_timeout_ns(sec, frac)?
            };
            return Ok(SockoptRequest::Timeout { opt: opt as u32, ns });
        }
    }
    let value: u32 = match head {
        Some(h) => if len >= 4 { read_le32(h, 0) } else { 0 },
        None => 0,
    };
    Ok(SockoptRequest::Generic { opt: opt as u32, value })
}

/// Whether a request that needs a family is met by a socket of `family`.
pub fn require_family(required: u16, family: u16) -> (r: Result<(), i32>)
    ensures
        r == (if required == family { Ok::<(), i32>(()) } else { Err(EINVAL) }),
{
    if required == family { Ok(()) } else { Err(EINVAL) }
}

/// What `getsockopt(2)` is asked for.
#[derive(Clone, Copy, Debug, PartialEq, Eq, Structural)]
pub enum GetsockoptRequest {
    /// A zero word, on packet sockets only.
    PacketZero,
    RecvTtl,
    RecvPktinfo,
    Mtu,
    /// The unicast interface, in network order.
    UnicastIf,
    /// A netlink-level option.
    Netlink,
    /// The peer's security label, which is not supported.
    PeerSec,
    PeerGroups,
    PeerCred,
    PeerPidfd,
    /// A socket-level option.
    Generic,
}

/// The request a `getsockopt(2)` call makes, from its level and option.
pub fn getsockopt_request(level: i32, opt: i32) -> (r: GetsockoptRequest)
    ensures
        r == (if level == SOL_PACKET {
            GetsockoptRequest::PacketZero
        } else if level == SOL_IP && opt == IP_RECVTTL {
            GetsockoptRequest::RecvTtl
        } else if level == SOL_IP && opt == IP_PKTINFO {
            GetsockoptRequest::RecvPktinfo
        } else if level == SOL_IP && opt == IP_MTU || level == SOL_IPV6 && opt == IPV6_MTU {
            GetsockoptRequest::Mtu
        } else if level == SOL_IP && opt == IP_UNICAST_IF || level == SOL_IPV6 && opt == IPV6_UNICAST_IF {
            GetsockoptRequest::UnicastIf
        } else if level == SOL_IPV6 && opt == IPV6_RECVPKTINFO {
            GetsockoptRequest::RecvPktinfo
        } else if level == SOL_NETLINK {
            GetsockoptRequest::Netlink
        } else if level == SOL_SOCKET && opt == SO_PEERSEC {
            GetsockoptRequest::PeerSec
        } else if level == SOL_SOCKET && opt == SO_PEERGROUPS {
            GetsockoptRequest::PeerGroups
        } else if opt == SO_PEERCRED {
            GetsockoptRequest::PeerCred
        } else if opt == SO_PEERPIDFD {
            GetsockoptRequest::PeerPidfd
        } else {
            GetsockoptRequest::Generic
        }),
{
    if level == SOL_PACKET {
        GetsockoptRequest::PacketZero
    } else if level == SOL_IP && opt == IP_RECVTTL {
        GetsockoptRequest::RecvTtl
    } else if level == SOL_IP && opt == IP_PKTINFO {
        GetsockoptRequest::RecvPktinfo
    } else if level == SOL_IP && opt == IP_MTU || level == SOL_IPV6 && opt == IPV6_MTU {
        GetsockoptRequest::Mtu
    } else if level == SOL_IP && opt == IP_UNICAST_IF || level == SOL_IPV6 && opt == IPV6_UNICAST_IF {
        GetsockoptRequest::UnicastIf
    } else if level == SOL_IPV6 && opt == IPV6_RECVPKTINFO {
        GetsockoptRequest::RecvPktinfo
    } else if level == SOL_NETLINK {
        GetsockoptRequest::Netlink
    } else if level == SOL_SOCKET && opt == SO_PEERSEC {
        GetsockoptRequest::PeerSec
    } else if level == SOL_SOCKET && opt == SO_PEERGROUPS {
        GetsockoptRequest::PeerGroups
    } else if opt == SO_PEERCRED {
        GetsockoptRequest::PeerCred
    } else if opt == SO_PEERPIDFD {
        GetsockoptRequest::PeerPidfd
    } else {
        GetsockoptRequest::Generic
    }
}

/// The bytes of the group bitmap NETLINK_LIST_MEMBERSHIPS reports for a
/// socket of `protocol`: the route family's groups, or 32, rounded up to
/// whole 32-bit words.
pub fn netlink_membership_len(protocol: u16) -> (r: usize)
    ensures
        r == (if protocol == NETLINK_ROUTE { 8usize } else { 4usize }),
{
    let groups: usize = if protocol == NETLINK_ROUTE { RTNLGRP_MAX } else { 32 };
    let bytes: usize = (groups + 7) / 8 + 3;
    assert(bytes & !3usize == bytes / 4 * 4) by (bit_vector);
    bytes & !3usize
}

/// What a netlink `getsockopt(2)` writes: the value bytes, the length
/// written back (if any), and the result.
#[derive(Debug, PartialEq, Eq)]
pub struct NetlinkSockopt {
    pub result: Result<(), i32>,
    pub value: Vec<u8>,
    pub len: Option<u32>,
}

/// The membership bitmap of `groups` cut to `copy_len` bytes: the groups
/// word, then zeros.
pub open spec fn membership_bytes(groups: u32, copy_len: int) -> Seq<u8> {
    if copy_len >= 4 { le32_bytes(groups) + zeros((copy_len - 4) as nat) } else { zeros(copy_len as nat) }
}

/// Answers a netlink-level `getsockopt(2)` for a caller whose buffer holds
/// `have` bytes (`val_present` false for a null buffer): NETLINK_PKTINFO
/// gives the packet-information flag; NETLINK_LIST_MEMBERSHIPS the group
/// bitmap, cut to the buffer, with its full length; the options with no
/// state a zero word; other options, and sockets of other families,
/// ENOPROTOOPT.
pub fn copy_netlink_getsockopt(
    family: u16,
    protocol: u16,
    groups: u32,
    recv_pktinfo: u32,
    opt: i32,
    have: u32,
    val_present: bool,
) -> (r: NetlinkSockopt)
    ensures
        family != AF_NETLINK ==> r.result == Err::<(), i32>(ENOPROTOOPT) && r.value@.len() == 0 && r.len is None,
        family == AF_NETLINK && have > i32::MAX ==> r.result == Err::<(), i32>(EINVAL) && r.value@.len() == 0
            && r.len is None,
        family == AF_NETLINK && have <= i32::MAX ==> {
            &&& opt == NETLINK_PKTINFO ==> if have < 4 {
                r.result == Err::<(), i32>(EINVAL) && r.value@.len() == 0 && r.len is None
            } else {
                r.result is Ok && r.value@ == le32_bytes(recv_pktinfo) && r.len == Some(4u32)
            }
            &&& opt == NETLINK_LIST_MEMBERSHIPS ==> {
                let need: int = if groups == 0 { 0 } else if protocol == NETLINK_ROUTE { 8 } else { 4 };
                let copy_len: int = if have < need { have as int } else { need };
                if have != 0 && !val_present {
                    r.result == Err::<(), i32>(EFAULT) && r.value@.len() == 0 && r.len is None
                } else {
                    r.result is Ok && r.value@ == membership_bytes(groups, copy_len) && r.len == Some(need as u32)
                }
            }
            &&& (opt == 4 || opt == 5 || opt == 8 || opt == 10 || opt == 11 || opt == 12) ==> if have < 4 {
                r.result == Err::<(), i32>(EINVAL) && r.value@.len() == 0 && r.len == Some(4u32)
            } else if !val_present {
                r.result == Err::<(), i32>(EFAULT) && r.value@.len() == 0 && r.len is None
            } else {
                r.result is Ok && r.value@ == le32_bytes(0) && r.len == Some(4u32)
            }
            &&& !(opt == NETLINK_PKTINFO || opt == NETLINK_LIST_MEMBERSHIPS || opt == 4 || opt == 5 || opt == 8
                || opt == 10 || opt == 11 || opt == 12) ==> r.result == Err::<(), i32>(ENOPROTOOPT)
                && r.value@.len() == 0 && r.len is None
        },
{
    let none = NetlinkSockopt { result: Ok(()), value: Vec::new(), len: None };
    if family != AF_NETLINK {
        return NetlinkSockopt { result: Err(ENOPROTOOPT), ..none };
    }
    if have > i32::MAX as u32 {
        return NetlinkSockopt { result: Err(EINVAL), ..none };
    }
    if opt == NETLINK_PKTINFO {
        if have < 4 {
            return NetlinkSockopt { result: Err(EINVAL), ..none };
        }
        let mut value: Vec<u8> = Vec::new();
        push_bytes(&mut value, &u32_to_le_bytes(recv_pktinfo));
        return NetlinkSockopt { result: Ok(()), value, len: Some(4) };
    }
    if opt == NETLINK_LIST_MEMBERSHIPS {
        let need: usize = if groups == 0 { 0 } else { netlink_membership_len(protocol) };
        if have != 0 && !val_present {
            return NetlinkSockopt { result: Err(EFAULT), ..none };
        }
        let copy_len: usize = if (have as usize) < need { have as usize } else { need };
        let mut value: Vec<u8> = Vec::new();
        if copy_len >= 4 {
            push_bytes(&mut value, &u32_to_le_bytes(groups));
            let mut i: usize = 4;
            while i < copy_len
                invariant
                    4 <= i <= copy_len,
                    copy_len <= 8,
                    value@ == le32_bytes(groups) + zeros((i - 4) as nat),
                decreases copy_len - i,
            {
                value.push(0);
                i += 1;
                assert(value@ =~= le32_bytes(groups) + zeros((i - 4) as nat));
            }
        } else {
            let mut i: usize = 0;
            while i < copy_len
                invariant
                    i <= copy_len,
                    value@ == zeros(i as nat),
                decreases copy_len - i,
            {
                value.push(0);
                i += 1;
                assert(value@ =~= zeros(i as nat));
            }
        }
        return NetlinkSockopt { result: Ok(()), value, len: Some(need as u32) };
    }
    if opt == 4 || opt == 5 || opt == 8 || opt == 10 || opt == 11 || opt == 12 {
        if have < 4 {
            return NetlinkSockopt { result: Err(EINVAL), value: Vec::new(), len: Some(4) };
        }
        if !val_present {
            return NetlinkSockopt { result: Err(EFAULT), ..none };
        }
        let mut value: Vec<u8> = Vec::new();
        push_bytes(&mut value, &u32_to_le_bytes(0));
        return NetlinkSockopt { result: Ok(()), value, len: Some(4) };
    }
    NetlinkSockopt { result: Err(ENOPROTOOPT), ..none }
}

} // verus!
