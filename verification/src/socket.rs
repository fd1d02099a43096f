//! The socket layer's own rules: which family, type and protocol triples a
//! socket may have, the flag words of `socket(2)`, `accept4(2)` and
//! `recvmsg(2)`, what `listen(2)` does to a socket's state, and the Linux
//! byte layouts of socket addresses.
use vstd::prelude::*;

use vstd::string::StringSliceAdditionalSpecFns;
use vstd::utf8::{encode_utf8, valid_utf8};

use std::collections::VecDeque;

use crate::bytes::{
    be16_at, be16_bytes, be32_at, be32_bytes, le16_at, le16_bytes, le32_at, le32_bytes, read_be16, read_be32,
    read_le16, read_le32, u16_to_be_bytes, u16_to_le_bytes, u32_to_be_bytes, u32_to_le_bytes,
};
use crate::errno::{EADDRINUSE, EAFNOSUPPORT, EAGAIN, ECONNREFUSED, EFAULT, EINVAL, EOPNOTSUPP, EPERM, EPROTONOSUPPORT};
use crate::decimal::{decimal, decimal_string};
use crate::ip::{checksum, inet_checksum, push_bytes};
use crate::sockaddr_layout::{LinuxSockAddr, LinuxSockAddrIn, LinuxSockAddrIn6, LinuxSockAddrNetlink};
use crate::rtnetlink::{
    NetDevice, NETLINK_AUDIT, NETLINK_KOBJECT_UEVENT, NETLINK_ROUTE, RTM_DELADDR, RTM_DELLINK, RTM_GETADDR, RTM_GETLINK,
    RTM_GETNEIGH, RTM_GETNEXTHOP, RTM_GETROUTE, RTM_NEWADDR, RTM_NEWLINK, RTM_SETLINK,
};

verus! {

pub const AF_UNIX: u16 = 1;
pub const AF_INET: u16 = 2;
pub const AF_INET6: u16 = 10;
pub const AF_NETLINK: u16 = 16;
pub const AF_PACKET: u16 = 17;
pub const AF_MAX: u16 = 46;

pub const SOCK_STREAM: u16 = 1;
pub const SOCK_DGRAM: u16 = 2;
pub const SOCK_RAW: u16 = 3;
pub const SOCK_SEQPACKET: u16 = 5;
pub const SOCK_TYPE_MASK: u32 = 0xf;

/// File status flags of `fcntl(2)` that the socket calls hand on.
pub const O_RDWR: u32 = 2;
pub const O_NONBLOCK: u32 = 0x800;
pub const O_CLOEXEC: u32 = 0x80000;

/// `socket(2)` and `accept4(2)` flag bits: the same bits as the file flags.
pub const SOCK_CLOEXEC: u32 = 0x80000;
pub const SOCK_NONBLOCK: u32 = 0x800;

pub const SO_REUSEADDR: u32 = 2;
pub const SO_TYPE: u32 = 3;
pub const SO_ERROR: u32 = 4;
pub const SO_SNDBUF: u32 = 7;
pub const SO_RCVBUF: u32 = 8;
pub const SO_PASSCRED: u32 = 16;
pub const SO_PEERCRED: u32 = 17;
pub const SO_RCVTIMEO_OLD: u32 = 20;
pub const SO_SNDTIMEO_OLD: u32 = 21;
pub const SO_TIMESTAMP_OLD: u32 = 29;
pub const SO_ACCEPTCONN: u32 = 30;
pub const SO_SNDBUFFORCE: u32 = 32;
pub const SO_RCVBUFFORCE: u32 = 33;
pub const SO_PASSSEC: u32 = 34;
pub const SO_PROTOCOL: u32 = 38;
pub const SO_DOMAIN: u32 = 39;
pub const SO_TIMESTAMP_NEW: u32 = 63;
pub const SO_RCVTIMEO_NEW: u32 = 66;
pub const SO_SNDTIMEO_NEW: u32 = 67;
pub const SO_PASSPIDFD: u32 = 76;
pub const SO_PEERPIDFD: u32 = 77;
pub const SO_PASSRIGHTS: u32 = 83;
pub const IP_RECVTTL: u32 = 12;

/// The protocol numbers of TCP, UDP and ICMP echo, as the 16-bit protocol
/// field of a socket holds them.
pub const PROTO_TCP: u16 = 6;
pub const PROTO_UDP: u16 = 17;
pub const PROTO_PING: u16 = 1;

/// `recvmsg(2)` flag bits.
pub const MSG_PEEK: i32 = 0x0002;
pub const MSG_TRUNC: i32 = 0x0020;
pub const MSG_DONTWAIT: i32 = 0x0040;

/// The first port handed out to sockets that send before they bind, and how
/// many ports the ephemeral range holds.
pub const EPHEMERAL_PORT_BASE: u16 = 32768;
pub const EPHEMERAL_PORT_COUNT: u32 = 28232;

/// A socket address of one of the supported families.
#[derive(Clone, Debug, PartialEq, Eq, PartialOrd, Ord)]
pub enum SockAddr {
    Inet { addr: u32, port: u16 },
    Inet6 { addr: [u8; 16], port: u16 },
    Unix(String),
    Netlink { pid: u32, groups: u32 },
    Packet { ifindex: u32, protocol: u16 },
}

/// Where a socket stands in its life.
#[derive(Clone, Copy, Debug, PartialEq, Eq, Structural)]
pub enum SocketState {
    Created,
    Bound,
    Listening,
    Connected,
    Closed,
}

/// What the type argument of `socket(2)` asks for: the socket type, the file
/// flags of the new descriptor, and whether it closes on exec.
#[derive(Clone, Copy, Debug, PartialEq, Eq, Structural)]
pub struct SocketTypeSpec {
    pub kind: u16,
    pub file_flags: u32,
    pub cloexec: bool,
}

/// Whether an internet socket of this type may run this protocol, and the
/// error when it may not.
pub open spec fn inet_socket_check(sock_type: u16, protocol: u16) -> Result<(), i32> {
    if sock_type == SOCK_STREAM {
        if protocol == 0 || protocol == PROTO_TCP {
            Ok(())
        } else {
            Err(EPROTONOSUPPORT)
        }
    } else if sock_type == SOCK_DGRAM {
        if protocol == 0 || protocol == PROTO_UDP || protocol == PROTO_PING {
            Ok(())
        } else {
            Err(EPROTONOSUPPORT)
        }
    } else if sock_type == SOCK_RAW {
        if protocol == PROTO_PING {
            Ok(())
        } else {
            Err(EPROTONOSUPPORT)
        }
    } else {
        Err(EINVAL)
    }
}

/// Stream sockets run TCP, datagram sockets UDP or ICMP echo, raw sockets
/// ICMP; another protocol is EPROTONOSUPPORT and another type EINVAL.
pub fn validate_inet_socket(sock_type: u16, protocol: u16) -> (r: Result<(), i32>)
    ensures
        r == inet_socket_check(sock_type, protocol),
{
    if sock_type == SOCK_STREAM {
        if protocol == 0 || protocol == PROTO_TCP {
            Ok(())
        } else {
            Err(EPROTONOSUPPORT)
        }
    } else if sock_type == SOCK_DGRAM {
        if protocol == 0 || protocol == PROTO_UDP || protocol == PROTO_PING {
            Ok(())
        } else {
            Err(EPROTONOSUPPORT)
        }
    } else if sock_type == SOCK_RAW {
        if protocol == PROTO_PING {
            Ok(())
        } else {
            Err(EPROTONOSUPPORT)
        }
    } else {
        Err(EINVAL)
    }
}

/// Whether a local (AF_UNIX) socket of this type may run this protocol.
pub open spec fn unix_socket_check(sock_type: u16, protocol: u16) -> Result<(), i32> {
    if protocol != 0 {
        Err(EPROTONOSUPPORT)
    } else if sock_type == SOCK_STREAM || sock_type == SOCK_DGRAM || sock_type == SOCK_SEQPACKET {
        Ok(())
    } else {
        Err(EINVAL)
    }
}

/// Local sockets take protocol 0 and are stream, datagram or seqpacket.
pub fn validate_unix_socket(sock_type: u16, protocol: u16) -> (r: Result<(), i32>)
    ensures
        r == unix_socket_check(sock_type, protocol),
{
    if protocol != 0 {
        return Err(EPROTONOSUPPORT);
    }
    if sock_type == SOCK_STREAM || sock_type == SOCK_DGRAM || sock_type == SOCK_SEQPACKET {
        Ok(())
    } else {
        Err(EINVAL)
    }
}

/// Whether `socket(2)` may create a socket of this family, type and protocol.
pub open spec fn socket_create_check(family: u16, sock_type: u16, protocol: u16) -> Result<(), i32> {
    if family == AF_INET || family == AF_INET6 {
        inet_socket_check(sock_type, protocol)
    } else if family == AF_UNIX {
        unix_socket_check(sock_type, protocol)
    } else if family == AF_PACKET || family == AF_NETLINK {
        Ok(())
    } else {
        Err(EAFNOSUPPORT)
    }
}

/// The checks `socket(2)` makes before it creates a socket: internet and
/// local sockets by their own rules, packet and netlink sockets always, and
/// any other family EAFNOSUPPORT.
pub fn validate_socket(family: u16, sock_type: u16, protocol: u16) -> (r: Result<(), i32>)
    ensures
        r == socket_create_check(family, sock_type, protocol),
{
    if family == AF_INET || family == AF_INET6 {
        validate_inet_socket(sock_type, protocol)
    } else if family == AF_UNIX {
        validate_unix_socket(sock_type, protocol)
    } else if family == AF_PACKET || family == AF_NETLINK {
        Ok(())
    } else {
        Err(EAFNOSUPPORT)
    }
}

/// The address a new socket starts bound to: netlink sockets to port 0 with
/// no groups, the others to none.
pub fn initial_local_addr(family: u16) -> (r: Option<SockAddr>)
    ensures
        family == AF_NETLINK ==> r == Some(SockAddr::Netlink { pid: 0, groups: 0 }),
        family != AF_NETLINK ==> r is None,
{
    if family == AF_NETLINK {
        Some(SockAddr::Netlink { pid: 0, groups: 0 })
    } else {
        None
    }
}

/// The `n`-th ephemeral port: the range starting at 32768 is walked round
/// and round.
pub fn ephemeral_port(n: u32) -> (r: u16)
    ensures
        r == EPHEMERAL_PORT_BASE + n % EPHEMERAL_PORT_COUNT,
        EPHEMERAL_PORT_BASE <= r,
        r < EPHEMERAL_PORT_BASE + EPHEMERAL_PORT_COUNT,
{
    let off: u32 = n % EPHEMERAL_PORT_COUNT;
    EPHEMERAL_PORT_BASE + off as u16
}

/// What `listen(2)` does to a socket's state.
pub open spec fn listen_result(family: u16, sock_type: u16, state: SocketState) -> Result<SocketState, i32> {
    if family == AF_NETLINK {
        Ok(SocketState::Listening)
    } else if state != SocketState::Bound || sock_type == SOCK_DGRAM {
        Err(EINVAL)
    } else {
        Ok(SocketState::Listening)
    }
}

/// A netlink socket always starts listening; another socket must be bound
/// and not a datagram socket, else EINVAL and its state stays.
pub fn listen_state(family: u16, sock_type: u16, state: SocketState) -> (r: Result<SocketState, i32>)
    ensures
        r == listen_result(family, sock_type, state),
{
    if family == AF_NETLINK {
        return Ok(SocketState::Listening);
    }
    if state != SocketState::Bound || sock_type == SOCK_DGRAM {
        return Err(EINVAL);
    }
    Ok(SocketState::Listening)
}

/// The IPv6 loopback address `::1`.
pub open spec fn ipv6_loopback() -> Seq<u8> {
    Seq::new(16, |i: int| if i == 15 { 1u8 } else { 0u8 })
}

/// Whether a destination lies on the loopback network.
pub open spec fn is_loopback_dest(peer: SockAddr) -> bool {
    match peer {
        SockAddr::Inet { addr, .. } => addr / 16777216 == 127,
        SockAddr::Inet6 { addr, .. } => addr@ == ipv6_loopback(),
        _ => false,
    }
}

/// True for an IPv4 destination in 127.0.0.0/8 and for the IPv6 address
/// `::1`; false for every other address.
pub fn inet_loopback_dest(peer: &SockAddr) -> (r: bool)
    ensures
        r == is_loopback_dest(*peer),
{
    match peer {
        SockAddr::Inet { addr, .. } => *addr / 16777216 == 127,
        SockAddr::Inet6 { addr, .. } => {
            let mut i: usize = 0;
            let mut same = true;
            while i < 16
                invariant
                    i <= 16,
                    addr@.len() == 16,
                    same == (forall|j: int| 0 <= j < i ==> addr@[j] == #[trigger] ipv6_loopback()[j]),
                decreases 16 - i,
            {
                let want: u8 = if i == 15 { 1 } else { 0 };
                assert(ipv6_loopback()[i as int] == want);
                same = same && addr[i] == want;
                i += 1;
            }
            if same {
                assert(addr@ =~= ipv6_loopback());
            } else {
                assert(addr@ != ipv6_loopback());
            }
            same
        },
        _ => false,
    }
}

/// What the type argument of `socket(2)` asks for, or EINVAL when it holds a
/// flag bit other than SOCK_CLOEXEC and SOCK_NONBLOCK.
pub fn parse_socket_type(sock_type: i32) -> (r: Result<SocketTypeSpec, i32>)
    ensures
        ((sock_type as u32) & !SOCK_TYPE_MASK) & !(SOCK_CLOEXEC | SOCK_NONBLOCK) != 0
            ==> r == Err::<SocketTypeSpec, i32>(EINVAL),
        ((sock_type as u32) & !SOCK_TYPE_MASK) & !(SOCK_CLOEXEC | SOCK_NONBLOCK) == 0 ==> r == Ok::<SocketTypeSpec, i32>(
            SocketTypeSpec {
                kind: ((sock_type as u32) & SOCK_TYPE_MASK) as u16,
                file_flags: O_RDWR | ((sock_type as u32) & O_NONBLOCK),
                cloexec: (sock_type as u32) & SOCK_CLOEXEC != 0,
            },
        ),
{
    let bits: u32 = sock_type as u32;
    let flags: u32 = bits & !SOCK_TYPE_MASK;
    if flags & !(SOCK_CLOEXEC | SOCK_NONBLOCK) != 0 {
        return Err(EINVAL);
    }
    let kind: u16 = (bits & SOCK_TYPE_MASK) as u16;
    assert(flags & O_NONBLOCK == bits & O_NONBLOCK) by (bit_vector)
        requires
            flags == bits & !0xfu32,
            O_NONBLOCK == 0x800u32,
    ;
    assert(flags & SOCK_CLOEXEC == bits & SOCK_CLOEXEC) by (bit_vector)
        requires
            flags == bits & !0xfu32,
            SOCK_CLOEXEC == 0x80000u32,
    ;
    Ok(SocketTypeSpec { kind, file_flags: O_RDWR | (flags & O_NONBLOCK), cloexec: flags & SOCK_CLOEXEC != 0 })
}

/// The file flags and close-on-exec choice of a descriptor that
/// `accept4(2)` installs, or EINVAL for a flag other than SOCK_CLOEXEC and
/// SOCK_NONBLOCK.
pub fn parse_accept_flags(flags: i32) -> (r: Result<(u32, bool), i32>)
    ensures
        (flags as u32) & !(SOCK_CLOEXEC | SOCK_NONBLOCK) != 0 ==> r == Err::<(u32, bool), i32>(EINVAL),
        (flags as u32) & !(SOCK_CLOEXEC | SOCK_NONBLOCK) == 0 ==> r == Ok::<(u32, bool), i32>(
            (O_RDWR | ((flags as u32) & O_NONBLOCK), (flags as u32) & SOCK_CLOEXEC != 0),
        ),
{
    let bits: u32 = flags as u32;
    if bits & !(SOCK_CLOEXEC | SOCK_NONBLOCK) != 0 {
        return Err(EINVAL);
    }
    Ok((O_RDWR | (bits & O_NONBLOCK), bits & SOCK_CLOEXEC != 0))
}

/// Whether a socket file with these status flags is non-blocking.
pub fn socket_file_is_nonblocking(file_flags: u32) -> (r: bool)
    ensures
        r == (file_flags & O_NONBLOCK != 0),
{
    file_flags & O_NONBLOCK != 0
}

/// Whether a receive on a file with these status flags and these
/// `recvmsg(2)` flags returns at once instead of waiting.
pub fn recvmsg_is_nonblocking(file_flags: u32, flags: i32) -> (r: bool)
    ensures
        r == (flags & MSG_DONTWAIT != 0 || file_flags & O_NONBLOCK != 0),
{
    flags & MSG_DONTWAIT != 0 || socket_file_is_nonblocking(file_flags)
}

/// The address `getsockname(2)` reports for a socket that is not bound: an
/// unnamed local address, or the wildcard address and port 0.
pub fn unbound_sockaddr(family: u16) -> (r: Option<SockAddr>)
    ensures
        family == AF_UNIX ==> (r matches Some(SockAddr::Unix(p)) && p@.len() == 0),
        family == AF_INET ==> r == Some(SockAddr::Inet { addr: 0, port: 0 }),
        family == AF_INET6 ==> (r matches Some(SockAddr::Inet6 { addr, port }) && port == 0
            && addr@ == Seq::new(16, |i: int| 0u8)),
        family != AF_UNIX && family != AF_INET && family != AF_INET6 ==> r is None,
{
    if family == AF_UNIX {
        Some(SockAddr::Unix(String::new()))
    } else if family == AF_INET {
        Some(SockAddr::Inet { addr: 0, port: 0 })
    } else if family == AF_INET6 {
        let addr = [0u8; 16];
        assert(addr@ =~= Seq::new(16, |i: int| 0u8));
        Some(SockAddr::Inet6 { addr, port: 0 })
    } else {
        None
    }
}

/// `n` zero bytes.
pub open spec fn zeros(n: nat) -> Seq<u8> {
    Seq::new(n, |i: int| 0u8)
}

/// The bytes after the family of a local address: the path, ended by a NUL
/// unless it is empty or abstract (starts with a NUL byte).
pub open spec fn unix_path_wire(path: Seq<u8>) -> Seq<u8> {
    if path.len() == 0 || path[0] == 0 {
        path
    } else {
        path.push(0u8)
    }
}

/// The Linux `sockaddr_*` bytes of an address; packet addresses have no
/// such form here.
pub open spec fn sockaddr_wire(addr: SockAddr) -> Option<Seq<u8>> {
    match addr {
        SockAddr::Inet { addr, port } => Some(
            le16_bytes(AF_INET) + be16_bytes(port) + be32_bytes(addr) + zeros(8),
        ),
        SockAddr::Inet6 { addr, port } => Some(
            le16_bytes(AF_INET6) + be16_bytes(port) + zeros(4) + addr@ + zeros(4),
        ),
        SockAddr::Unix(path) => Some(le16_bytes(AF_UNIX) + unix_path_wire(encode_utf8(path@))),
        SockAddr::Netlink { pid, groups } => Some(
            le16_bytes(AF_NETLINK) + le16_bytes(0) + le32_bytes(pid) + le32_bytes(groups),
        ),
        SockAddr::Packet { .. } => None,
    }
}

fn push_zeros(out: &mut Vec<u8>, n: usize)
    ensures
        final(out)@ == old(out)@ + zeros(n as nat),
{
    let mut i: usize = 0;
    while i < n
        invariant
            i <= n,
            out@ == old(out)@ + zeros(i as nat),
        decreases n - i,
    {
        out.push(0);
        i += 1;
        assert(out@ =~= old(out)@ + zeros(i as nat));
    }
}

/// The bytes `getsockname(2)` and friends hand out for an address, or
/// EINVAL for a packet address.
pub fn sockaddr_bytes(addr: &SockAddr) -> (r: Result<Vec<u8>, i32>)
    ensures
        sockaddr_wire(*addr) matches Some(w) ==> r matches Ok(v) && v@ == w,
        sockaddr_wire(*addr) is None ==> r == Err::<Vec<u8>, i32>(EINVAL),
{
    match addr {
        SockAddr::Inet { addr, port } => Ok(LinuxSockAddrIn::inet(*addr, *port).to_bytes()),
        SockAddr::Inet6 { addr, port } => Ok(LinuxSockAddrIn6::inet6(*addr, *port).to_bytes()),
        SockAddr::Unix(path) => {
            let mut out: Vec<u8> = Vec::new();
            push_bytes(&mut out, &u16_to_le_bytes(AF_UNIX));
            let p: &[u8] = path.as_str().as_bytes();
            push_bytes(&mut out, p);
            if p.len() != 0 && p[0] != 0 {
                out.push(0);
            }
            assert(out@ =~= le16_bytes(AF_UNIX) + unix_path_wire(encode_utf8(path@)));
            Ok(out)
        },
        SockAddr::Netlink { pid, groups } => {
            let raw = LinuxSockAddrNetlink::netlink(*pid, *groups);
            let out = raw.to_bytes();
            assert(le16_bytes(0) =~= seq![0u8, 0u8]);
            Ok(out)
        },
        SockAddr::Packet { .. } => Err(EINVAL),
    }
}

/// Hands an address of `raw` bytes to a caller whose buffer `out` holds
/// `*out_len` bytes: at most that many bytes are copied, and `*out_len`
/// becomes the full length. A length that is negative as a signed word is
/// EINVAL and changes nothing; a buffer shorter than the copy is EFAULT.
pub fn copy_sockaddr_with_kernel_len(raw: &[u8], out: &mut [u8], out_len: &mut u32) -> (r: Result<(), i32>)
    ensures
        (*old(out_len) as i32) < 0 ==> r == Err::<(), i32>(EINVAL) && *final(out_len) == *old(out_len)
            && final(out)@ == old(out)@,
        (*old(out_len) as i32) >= 0 ==> {
            let copy_len = if *old(out_len) < raw@.len() { *old(out_len) as int } else { raw@.len() as int };
            &&& *final(out_len) == raw@.len() as u32
            &&& copy_len > old(out)@.len() ==> r == Err::<(), i32>(EFAULT) && final(out)@ == old(out)@
            &&& copy_len <= old(out)@.len() ==> r is Ok
                && final(out)@ == raw@.subrange(0, copy_len) + old(out)@.subrange(copy_len, old(out)@.len() as int)
        },
{
    let have = *out_len;
    if (have as i32) < 0 {
        return Err(EINVAL);
    }
    *out_len = raw.len() as u32;
    let copy_len: usize = if (have as usize) < raw.len() { have as usize } else { raw.len() };
    if copy_len == 0 {
        assert(out@ =~= raw@.subrange(0, 0) + out@.subrange(0, out@.len() as int));
        return Ok(());
    }
    if copy_len > out.len() {
        return Err(EFAULT);
    }
    let ghost orig = out@;
    let mut i: usize = 0;
    while i < copy_len
        invariant
            i <= copy_len,
            copy_len <= raw@.len(),
            copy_len <= orig.len(),
            out@.len() == orig.len(),
            forall|j: int| 0 <= j < out@.len() ==> #[trigger] out@[j] == if j < i { raw@[j] } else { orig[j] },
        decreases copy_len - i,
    {
        out[i] = raw[i];
        i += 1;
    }
    assert(out@ =~= raw@.subrange(0, copy_len as int) + orig.subrange(copy_len as int, orig.len() as int));
    Ok(())
}

/// Writes an address for a caller whose buffer length the kernel holds:
/// EINVAL for an address with no byte form, else as
/// [`copy_sockaddr_with_kernel_len`] on its bytes.
pub fn write_sockaddr_with_kernel_len(addr: &SockAddr, out: &mut [u8], out_len: &mut u32) -> (r: Result<(), i32>)
    ensures
        sockaddr_wire(*addr) is None ==> r == Err::<(), i32>(EINVAL) && *final(out_len) == *old(out_len)
            && final(out)@ == old(out)@,
        sockaddr_wire(*addr) matches Some(w) ==> {
            let copy_len = if *old(out_len) < w.len() { *old(out_len) as int } else { w.len() as int };
            &&& (*old(out_len) as i32) < 0 ==> r == Err::<(), i32>(EINVAL) && *final(out_len) == *old(out_len)
                && final(out)@ == old(out)@
            &&& (*old(out_len) as i32) >= 0 ==> {
                &&& *final(out_len) == w.len() as u32
                &&& copy_len > old(out)@.len() ==> r == Err::<(), i32>(EFAULT) && final(out)@ == old(out)@
                &&& copy_len <= old(out)@.len() ==> r is Ok
                    && final(out)@ == w.subrange(0, copy_len) + old(out)@.subrange(copy_len, old(out)@.len() as int)
            }
        },
{
    let raw = match sockaddr_bytes(addr) {
        Ok(v) => v,
        Err(e) => return Err(e),
    };
    copy_sockaddr_with_kernel_len(raw.as_slice(), out, out_len)
}

/// The index of the first NUL byte of `s`, or its length when it has none.
pub open spec fn first_nul(s: Seq<u8>) -> nat
    decreases s.len(),
{
    if s.len() == 0 {
        0
    } else if s[0] == 0 {
        0
    } else {
        1 + first_nul(s.drop_first())
    }
}

proof fn lemma_first_nul(s: Seq<u8>, k: int)
    requires
        0 <= k <= s.len(),
        forall|j: int| 0 <= j < k ==> s[j] != 0,
        k == s.len() || s[k] == 0,
    ensures
        first_nul(s) == k,
    decreases k,
{
    if k > 0 {
        lemma_first_nul(s.drop_first(), k - 1);
    }
}

/// The path bytes of a local address whose bytes after the family are
/// `raw`: all of them for an abstract name (first byte NUL), else those
/// before the first NUL.
pub open spec fn unix_path_of(raw: Seq<u8>) -> Seq<u8> {
    if raw.len() > 0 && raw[0] == 0 {
        raw
    } else {
        raw.take(first_nul(raw) as int)
    }
}

/// `core::str::from_utf8`: the text the bytes spell when they are valid
/// UTF-8, and nothing when they are not.
#[verifier::external_body]
pub(crate) fn str_from_utf8(bytes: &[u8]) -> (r: Option<&str>)
    ensures
        r is Some <==> valid_utf8(bytes@),
        r matches Some(s) ==> s.spec_bytes() == bytes@,
{
    core::str::from_utf8(bytes).ok()
}

/// The family field of the bytes of a socket address.
pub open spec fn wire_family(b: Seq<u8>) -> u16 {
    le16_at(b, 0)
}

/// Reads a socket address in its Linux byte form. The family decides the
/// form, and the bytes must be long enough for it: 16 for IPv4 and packet,
/// 28 for IPv6, 12 for netlink, more than 2 for local addresses, whose path
/// must be valid UTF-8. Anything else is EINVAL.
pub fn parse_sockaddr(bytes: &[u8]) -> (r: Result<SockAddr, i32>)
    ensures
        bytes@.len() < 2 ==> r == Err::<SockAddr, i32>(EINVAL),
        bytes@.len() >= 2 ==> {
            let b = bytes@;
            let fam = wire_family(b);
            &&& fam == AF_INET ==> if b.len() >= 16 {
                r == Ok::<SockAddr, i32>(SockAddr::Inet { addr: be32_at(b, 4), port: be16_at(b, 2) })
            } else {
                r == Err::<SockAddr, i32>(EINVAL)
            }
            &&& fam == AF_INET6 ==> if b.len() >= 28 {
                r matches Ok(SockAddr::Inet6 { addr, port }) && port == be16_at(b, 2)
                    && addr@ == b.subrange(8, 24)
            } else {
                r == Err::<SockAddr, i32>(EINVAL)
            }
            &&& fam == AF_UNIX ==> if b.len() <= 2 || !valid_utf8(unix_path_of(b.skip(2))) {
                r == Err::<SockAddr, i32>(EINVAL)
            } else {
                r matches Ok(SockAddr::Unix(p)) && encode_utf8(p@) == unix_path_of(b.skip(2))
            }
            &&& fam == AF_NETLINK ==> if b.len() >= 12 {
                r == Ok::<SockAddr, i32>(SockAddr::Netlink { pid: le32_at(b, 4), groups: le32_at(b, 8) })
            } else {
                r == Err::<SockAddr, i32>(EINVAL)
            }
            &&& fam == AF_PACKET ==> if b.len() >= 16 {
                r == Ok::<SockAddr, i32>(SockAddr::Packet { ifindex: le32_at(b, 4), protocol: be16_at(b, 2) })
            } else {
                r == Err::<SockAddr, i32>(EINVAL)
            }
            &&& (fam != AF_INET && fam != AF_INET6 && fam != AF_UNIX && fam != AF_NETLINK && fam != AF_PACKET)
                ==> r == Err::<SockAddr, i32>(EINVAL)
        },
{
    let len = bytes.len();
    if len < 2 {
        return Err(EINVAL);
    }
    let family = read_le16(bytes, 0);
    if family == AF_INET {
        if len < 16 {
            return Err(EINVAL);
        }
        let raw = LinuxSockAddrIn::from_bytes(bytes);
        Ok(SockAddr::Inet { addr: raw.host_addr(), port: raw.host_port() })
    } else if family == AF_INET6 {
        if len < 28 {
            return Err(EINVAL);
        }
        let raw = LinuxSockAddrIn6::from_bytes(bytes);
        assert(raw.addr@ =~= raw.wire().subrange(8, 24));
        Ok(SockAddr::Inet6 { addr: raw.addr, port: raw.host_port() })
    } else if family == AF_UNIX {
        if len <= 2 {
            return Err(EINVAL);
        }
        let raw = slice_from(bytes, 2);
        assert(raw@ == bytes@.skip(2));
        let end: usize = if raw[0] == 0 {
            raw.len()
        } else {
            let mut i: usize = 0;
            while i < raw.len() && raw[i] != 0
                invariant
                    i <= raw@.len(),
                    forall|j: int| 0 <= j < i ==> raw@[j] != 0,
                decreases raw@.len() - i,
            {
                i += 1;
            }
            proof {
                lemma_first_nul(raw@, i as int);
            }
            i
        };
        let path_bytes = slice_to(raw, end);
        assert(path_bytes@ == unix_path_of(raw@)) by {
            if raw@[0] == 0 {
                assert(raw@.take(raw@.len() as int) =~= raw@);
            }
        }
        match str_from_utf8(path_bytes) {
            Some(text) => Ok(SockAddr::Unix(text.to_owned())),
            None => Err(EINVAL),
        }
    } else if family == AF_NETLINK {
        if len < 12 {
            return Err(EINVAL);
        }
        let raw = LinuxSockAddrNetlink::from_bytes(bytes);
        Ok(SockAddr::Netlink { pid: raw.pid, groups: raw.groups })
    } else if family == AF_PACKET {
        if len < 16 {
            return Err(EINVAL);
        }
        let raw = LinuxSockAddr::from_bytes(bytes);
        assert(raw.data@ =~= raw.wire().subrange(2, 16));
        Ok(SockAddr::Packet { ifindex: read_le32(&raw.data, 2), protocol: read_be16(&raw.data, 0) })
    } else {
        Err(EINVAL)
    }
}

/// The bytes of `s` from `start` on.
pub(crate) fn slice_from(s: &[u8], start: usize) -> (r: &[u8])
    requires
        start <= s@.len(),
    ensures
        r@ == s@.skip(start as int),
{
    &s[start..s.len()]
}

/// The first `end` bytes of `s`.
fn slice_to(s: &[u8], end: usize) -> (r: &[u8])
    requires
        end <= s@.len(),
    ensures
        r@ == s@.take(end as int),
{
    &s[0..end]
}

pub const NLMSG_HDRLEN: usize = 16;
pub const NLMSG_ERROR: u16 = 2;
pub const NLMSG_DONE: u16 = 3;
pub const NLM_F_MULTI: u16 = 0x2;
pub const NLM_F_ACK: u16 = 0x4;
/// The length of an error or acknowledgement message: a header, the error
/// word, and the header of the request it answers.
pub const NLMSG_ACK_LEN: usize = 36;

pub const ARPHRD_ETHER: u16 = 1;
pub const ARPHRD_LOOPBACK: u16 = 772;
pub const IFF_LOOPBACK: u32 = 0x8;
pub const ETH_MIN_MTU: u32 = 68;
pub const ETH_MAX_MTU: u32 = 0xffff;
pub const IFLA_ADDRESS: u16 = 1;
pub const IFLA_BROADCAST: u16 = 2;
pub const IFLA_IFNAME: u16 = 3;
pub const IFLA_MTU: u16 = 4;
pub const IFLA_TXQLEN: u16 = 13;
pub const IFLA_OPERSTATE: u16 = 16;
pub const IFLA_LINKMODE: u16 = 17;
pub const IFLA_GROUP: u16 = 27;
pub const IFLA_NUM_TX_QUEUES: u16 = 31;
pub const IFLA_NUM_RX_QUEUES: u16 = 32;
pub const IFLA_CARRIER: u16 = 33;
pub const IFLA_MIN_MTU: u16 = 50;
pub const IFLA_MAX_MTU: u16 = 51;
pub const IFLA_PERM_ADDRESS: u16 = 54;
pub const IF_OPER_DOWN: u8 = 2;
pub const IF_OPER_UP: u8 = 6;

/// `n` rounded up to a multiple of four.
pub open spec fn nl_align(n: int) -> int {
    (n + 3) / 4 * 4
}

/// Rounds a netlink length up to the next multiple of four.
pub fn nlmsg_align(len: usize) -> (r: usize)
    requires
        len + 3 <= usize::MAX,
    ensures
        r == nl_align(len as int),
{
    let x: usize = len + 3;
    assert((x & !3usize) == x / 4 * 4) by (bit_vector);
    x & !3usize
}

/// The header of a netlink message.
#[derive(Clone, Copy, Debug, PartialEq, Eq, Structural)]
pub struct NetlinkHeader {
    pub len: usize,
    pub msg_type: u16,
    pub flags: u16,
    pub seq: u32,
    pub pid: u32,
}

impl NetlinkHeader {
    /// The header at the start of `b`, when `b` holds one whose length is
    /// at least a header and at most `b`.
    pub open spec fn parsed(b: Seq<u8>) -> Option<NetlinkHeader> {
        if b.len() < NLMSG_HDRLEN || le32_at(b, 0) < NLMSG_HDRLEN || le32_at(b, 0) > b.len() {
            None
        } else {
            Some(NetlinkHeader {
                len: le32_at(b, 0) as usize,
                msg_type: le16_at(b, 4),
                flags: le16_at(b, 6),
                seq: le32_at(b, 8),
                pid: le32_at(b, 12),
            })
        }
    }

    /// Reads the header of the netlink message `bytes` starts with.
    pub fn parse(bytes: &[u8]) -> (r: Option<Self>)
        ensures
            r == Self::parsed(bytes@),
    {
        if bytes.len() < NLMSG_HDRLEN {
            return None;
        }
        let len = read_le32(bytes, 0) as usize;
        if len < NLMSG_HDRLEN || len > bytes.len() {
            return None;
        }
        Some(NetlinkHeader {
            len,
            msg_type: read_le16(bytes, 4),
            flags: read_le16(bytes, 6),
            seq: read_le32(bytes, 8),
            pid: read_le32(bytes, 12),
        })
    }
}

/// The error message answering `request` with `error` (0 acknowledges): it
/// echoes the request's sequence number and header and is addressed to
/// `portid`; a request shorter than a header leaves those fields zero.
pub open spec fn netlink_ack_bytes(request: Seq<u8>, error: i32, portid: u32) -> Seq<u8> {
    if request.len() >= NLMSG_HDRLEN {
        le32_bytes(NLMSG_ACK_LEN as u32) + le16_bytes(NLMSG_ERROR) + zeros(2) + request.subrange(8, 12)
            + le32_bytes(portid) + le32_bytes(error as u32) + request.subrange(0, 16)
    } else {
        le32_bytes(NLMSG_ACK_LEN as u32) + le16_bytes(NLMSG_ERROR) + zeros(10) + le32_bytes(error as u32)
            + zeros(16)
    }
}

/// Builds the netlink error message that answers `request`.
pub fn netlink_ack_message(request: &[u8], error: i32, portid: u32) -> (r: Vec<u8>)
    ensures
        r@ == netlink_ack_bytes(request@, error, portid),
        r@.len() == NLMSG_ACK_LEN,
{
    let mut out: Vec<u8> = Vec::new();
    push_bytes(&mut out, &u32_to_le_bytes(NLMSG_ACK_LEN as u32));
    push_bytes(&mut out, &u16_to_le_bytes(NLMSG_ERROR));
    if request.len() >= NLMSG_HDRLEN {
        push_zeros(&mut out, 2);
        push_bytes(&mut out, slice_range(request, 8, 12));
        push_bytes(&mut out, &u32_to_le_bytes(portid));
        push_bytes(&mut out, &u32_to_le_bytes(error as u32));
        push_bytes(&mut out, slice_range(request, 0, 16));
    } else {
        push_zeros(&mut out, 10);
        push_bytes(&mut out, &u32_to_le_bytes(error as u32));
        push_zeros(&mut out, 16);
    }
    out
}

/// The message that ends a multipart dump: a bare header of type DONE.
pub open spec fn netlink_done_bytes(seq: u32, portid: u32) -> Seq<u8> {
    le32_bytes(NLMSG_HDRLEN as u32) + le16_bytes(NLMSG_DONE) + le16_bytes(NLM_F_MULTI) + le32_bytes(seq)
        + le32_bytes(portid)
}

/// Builds the message that ends the dump answering request `seq`.
pub fn netlink_done_message(seq: u32, portid: u32) -> (r: Vec<u8>)
    ensures
        r@ == netlink_done_bytes(seq, portid),
{
    let mut out: Vec<u8> = Vec::new();
    push_bytes(&mut out, &u32_to_le_bytes(NLMSG_HDRLEN as u32));
    push_bytes(&mut out, &u16_to_le_bytes(NLMSG_DONE));
    push_bytes(&mut out, &u16_to_le_bytes(NLM_F_MULTI));
    push_bytes(&mut out, &u32_to_le_bytes(seq));
    push_bytes(&mut out, &u32_to_le_bytes(portid));
    out
}

/// A netlink message of the given type carrying `payload`, padded to a
/// multiple of four bytes; its length field counts header and payload.
pub open spec fn netlink_message_bytes(msg_type: u16, seq: u32, pid: u32, payload: Seq<u8>, flags: u16) -> Seq<u8> {
    let len = NLMSG_HDRLEN + payload.len();
    le32_bytes(len as u32) + le16_bytes(msg_type) + le16_bytes(flags) + le32_bytes(seq) + le32_bytes(pid)
        + payload + zeros((nl_align(len) - len) as nat)
}

/// Builds a netlink message carrying `payload`.
pub fn netlink_payload_message(msg_type: u16, seq: u32, pid: u32, payload: &[u8], flags: u16) -> (r: Vec<u8>)
    requires
        payload@.len() + NLMSG_HDRLEN + 3 <= usize::MAX,
    ensures
        r@ == netlink_message_bytes(msg_type, seq, pid, payload@, flags),
        r@.len() == nl_align(NLMSG_HDRLEN + payload@.len()),
{
    let len = NLMSG_HDRLEN + payload.len();
    let aligned = nlmsg_align(len);
    let mut out: Vec<u8> = Vec::new();
    push_bytes(&mut out, &u32_to_le_bytes(len as u32));
    push_bytes(&mut out, &u16_to_le_bytes(msg_type));
    push_bytes(&mut out, &u16_to_le_bytes(flags));
    push_bytes(&mut out, &u32_to_le_bytes(seq));
    push_bytes(&mut out, &u32_to_le_bytes(pid));
    push_bytes(&mut out, payload);
    push_zeros(&mut out, aligned - len);
    out
}

/// A route attribute of type `t` holding `value`, with a NUL after it when
/// `nul` is set, padded to a multiple of four bytes.
pub open spec fn rta_bytes(t: u16, value: Seq<u8>, nul: bool) -> Seq<u8> {
    let rta_len = 4 + value.len() + if nul { 1int } else { 0int };
    le16_bytes(rta_len as u16) + le16_bytes(t) + value + zeros((nl_align(rta_len) - 4 - value.len()) as nat)
}

/// Appends a route attribute holding `value` to `msg`.
pub fn push_rta_bytes(msg: &mut Vec<u8>, rta_type: u16, value: &[u8], nul: bool)
    requires
        old(msg)@.len() + value@.len() + 8 <= usize::MAX,
    ensures
        final(msg)@ == old(msg)@ + rta_bytes(rta_type, value@, nul),
{
    let payload_len: usize = if nul { value.len() + 1 } else { value.len() };
    let rta_len: usize = 4 + payload_len;
    let aligned = nlmsg_align(rta_len);
    push_bytes(msg, &u16_to_le_bytes(rta_len as u16));
    push_bytes(msg, &u16_to_le_bytes(rta_type));
    push_bytes(msg, value);
    push_zeros(msg, aligned - 4 - value.len());
}

/// Appends a one-byte route attribute.
pub fn push_rta_u8(msg: &mut Vec<u8>, rta_type: u16, value: u8)
    requires
        old(msg)@.len() + 9 <= usize::MAX,
    ensures
        final(msg)@ == old(msg)@ + rta_bytes(rta_type, seq![value], false),
{
    let v = [value];
    assert(v@ =~= seq![value]);
    push_rta_bytes(msg, rta_type, &v, false);
}

/// Appends a four-byte route attribute in host order.
pub fn push_rta_u32(msg: &mut Vec<u8>, rta_type: u16, value: u32)
    requires
        old(msg)@.len() + 12 <= usize::MAX,
    ensures
        final(msg)@ == old(msg)@ + rta_bytes(rta_type, le32_bytes(value), false),
{
    let v = u32_to_le_bytes(value);
    push_rta_bytes(msg, rta_type, &v, false);
}

/// The link type a device reports: loopback for a loopback device, else
/// Ethernet.
pub open spec fn link_type(flags: u32) -> u16 {
    if flags & IFF_LOOPBACK != 0 { ARPHRD_LOOPBACK } else { ARPHRD_ETHER }
}

/// The attributes of a link message, in the order they are sent.
pub open spec fn link_attrs(dev: NetDevice, carrier: bool) -> Seq<u8> {
    let loopback = link_type(dev.flags) == ARPHRD_LOOPBACK;
    rta_bytes(IFLA_IFNAME, encode_utf8(dev.name@), true)
        + rta_bytes(IFLA_MTU, le32_bytes(dev.mtu), false)
        + rta_bytes(IFLA_TXQLEN, le32_bytes(1000), false)
        + rta_bytes(IFLA_GROUP, le32_bytes(0), false)
        + rta_bytes(IFLA_NUM_TX_QUEUES, le32_bytes(1), false)
        + rta_bytes(IFLA_NUM_RX_QUEUES, le32_bytes(1), false)
        + rta_bytes(IFLA_CARRIER, seq![if carrier { 1u8 } else { 0u8 }], false)
        + rta_bytes(IFLA_OPERSTATE, seq![if carrier { IF_OPER_UP } else { IF_OPER_DOWN }], false)
        + rta_bytes(IFLA_LINKMODE, seq![0u8], false)
        + rta_bytes(IFLA_ADDRESS, dev.dev_addr@, false)
        + rta_bytes(IFLA_BROADCAST, Seq::new(6, |i: int| 0xffu8), false)
        + rta_bytes(IFLA_PERM_ADDRESS, dev.dev_addr@, false)
        + rta_bytes(IFLA_MIN_MTU, le32_bytes(if loopback { 0 } else { ETH_MIN_MTU }), false)
        + rta_bytes(IFLA_MAX_MTU, le32_bytes(if loopback { 0 } else { ETH_MAX_MTU }), false)
}

/// The link message describing `dev` in a dump answering request `seq`.
pub open spec fn link_message_bytes(seq: u32, dev: NetDevice, carrier: bool, portid: u32) -> Seq<u8> {
    let attrs = link_attrs(dev, carrier);
    le32_bytes((32 + attrs.len()) as u32) + le16_bytes(RTM_NEWLINK) + le16_bytes(NLM_F_MULTI)
        + le32_bytes(seq) + le32_bytes(portid) + zeros(2) + le16_bytes(link_type(dev.flags))
        + le32_bytes(dev.ifindex) + le32_bytes(dev.flags) + zeros(4) + attrs
}

fn build_link_attrs(dev: &NetDevice, carrier: bool) -> (r: Vec<u8>)
    requires
        encode_utf8(dev.name@).len() + 1024 <= usize::MAX,
    ensures
        r@ == link_attrs(*dev, carrier),
        r@.len() <= encode_utf8(dev.name@).len() + 200,
{
    let ifi_type: u16 = if dev.flags & IFF_LOOPBACK != 0 { ARPHRD_LOOPBACK } else { ARPHRD_ETHER };
    let loopback = ifi_type == ARPHRD_LOOPBACK;
    let name: &[u8] = dev.name.as_str().as_bytes();
    let mut attrs: Vec<u8> = Vec::new();
    push_rta_bytes(&mut attrs, IFLA_IFNAME, name, true);
    push_rta_u32(&mut attrs, IFLA_MTU, dev.mtu);
    push_rta_u32(&mut attrs, IFLA_TXQLEN, 1000);
    push_rta_u32(&mut attrs, IFLA_GROUP, 0);
    push_rta_u32(&mut attrs, IFLA_NUM_TX_QUEUES, 1);
    push_rta_u32(&mut attrs, IFLA_NUM_RX_QUEUES, 1);
    push_rta_u8(&mut attrs, IFLA_CARRIER, if carrier { 1 } else { 0 });
    push_rta_u8(&mut attrs, IFLA_OPERSTATE, if carrier { IF_OPER_UP } else { IF_OPER_DOWN });
    push_rta_u8(&mut attrs, IFLA_LINKMODE, 0);
    push_rta_bytes(&mut attrs, IFLA_ADDRESS, &dev.dev_addr, false);
    let broadcast = [0xffu8; 6];
    assert(broadcast@ =~= Seq::new(6, |i: int| 0xffu8));
    push_rta_bytes(&mut attrs, IFLA_BROADCAST, &broadcast, false);
    push_rta_bytes(&mut attrs, IFLA_PERM_ADDRESS, &dev.dev_addr, false);
    push_rta_u32(&mut attrs, IFLA_MIN_MTU, if loopback { 0 } else { ETH_MIN_MTU });
    push_rta_u32(&mut attrs, IFLA_MAX_MTU, if loopback { 0 } else { ETH_MAX_MTU });
    assert(attrs@ =~= link_attrs(*dev, carrier));
    attrs
}

/// Builds the NEWLINK message that a link dump sends for `dev`.
pub fn build_rtnl_link_message(seq: u32, dev: &NetDevice, carrier: bool, reply_portid: u32) -> (r: Vec<u8>)
    requires
        encode_utf8(dev.name@).len() + 1024 <= usize::MAX,
    ensures
        r@ == link_message_bytes(seq, *dev, carrier, reply_portid),
{
    let ifi_type: u16 = if dev.flags & IFF_LOOPBACK != 0 { ARPHRD_LOOPBACK } else { ARPHRD_ETHER };
    let attrs = build_link_attrs(dev, carrier);
    let total: usize = 32 + attrs.len();
    let mut msg: Vec<u8> = Vec::new();
    push_bytes(&mut msg, &u32_to_le_bytes(total as u32));
    push_bytes(&mut msg, &u16_to_le_bytes(RTM_NEWLINK));
    push_bytes(&mut msg, &u16_to_le_bytes(NLM_F_MULTI));
    push_bytes(&mut msg, &u32_to_le_bytes(seq));
    push_bytes(&mut msg, &u32_to_le_bytes(reply_portid));
    push_zeros(&mut msg, 2);
    push_bytes(&mut msg, &u16_to_le_bytes(ifi_type));
    push_bytes(&mut msg, &u32_to_le_bytes(dev.ifindex));
    push_bytes(&mut msg, &u32_to_le_bytes(dev.flags));
    push_zeros(&mut msg, 4);
    push_bytes(&mut msg, attrs.as_slice());
    msg
}

/// The bytes of `s` from `start` to `end`.
fn slice_range(s: &[u8], start: usize, end: usize) -> (r: &[u8])
    requires
        start <= end <= s@.len(),
    ensures
        r@ == s@.subrange(start as int, end as int),
{
    &s[start..end]
}

pub const AUDIT_GET: u16 = 1000;
pub const AUDIT_SET: u16 = 1001;
pub const AUDIT_USER: u16 = 1005;
pub const AUDIT_SIGNAL_INFO: u16 = 1010;
pub const AUDIT_ADD_RULE: u16 = 1011;
pub const AUDIT_DEL_RULE: u16 = 1012;
pub const AUDIT_LIST_RULES: u16 = 1013;
pub const AUDIT_SET_FEATURE: u16 = 1018;
pub const AUDIT_GET_FEATURE: u16 = 1019;
pub const AUDIT_KERNEL: u16 = 2000;
pub const AUDIT_FIRST_USER_MSG: u16 = 1100;
pub const AUDIT_LAST_USER_MSG: u16 = 1199;
pub const AUDIT_FIRST_USER_MSG2: u16 = 2100;
pub const AUDIT_LAST_USER_MSG2: u16 = 2999;
pub const AUDIT_NLGRP_READLOG: u32 = 1;
pub const CAP_AUDIT_WRITE: u32 = 29;
pub const CAP_AUDIT_CONTROL: u32 = 30;
pub const CAP_AUDIT_READ: u32 = 37;

/// The capability an audit netlink request of this type needs, if any.
pub open spec fn audit_cap_for(msg_type: u16) -> Option<u32> {
    if msg_type == AUDIT_SET || msg_type == AUDIT_ADD_RULE || msg_type == AUDIT_DEL_RULE
        || msg_type == AUDIT_SET_FEATURE || msg_type == AUDIT_SIGNAL_INFO {
        Some(CAP_AUDIT_CONTROL)
    } else if msg_type == AUDIT_USER || (AUDIT_FIRST_USER_MSG <= msg_type <= AUDIT_LAST_USER_MSG)
        || (AUDIT_FIRST_USER_MSG2 <= msg_type <= AUDIT_LAST_USER_MSG2) {
        Some(CAP_AUDIT_WRITE)
    } else {
        None
    }
}

/// Requests that change the audit state need CAP_AUDIT_CONTROL, user
/// messages CAP_AUDIT_WRITE, the others nothing.
pub fn audit_netlink_required_cap(msg_type: u16) -> (r: Option<u32>)
    ensures
        r == audit_cap_for(msg_type),
{
    if msg_type == AUDIT_SET || msg_type == AUDIT_ADD_RULE || msg_type == AUDIT_DEL_RULE
        || msg_type == AUDIT_SET_FEATURE || msg_type == AUDIT_SIGNAL_INFO {
        Some(CAP_AUDIT_CONTROL)
    } else if msg_type == AUDIT_USER || (AUDIT_FIRST_USER_MSG <= msg_type && msg_type <= AUDIT_LAST_USER_MSG)
        || (AUDIT_FIRST_USER_MSG2 <= msg_type && msg_type <= AUDIT_LAST_USER_MSG2) {
        Some(CAP_AUDIT_WRITE)
    } else {
        None
    }
}

/// The group bit of the audit log readers.
pub fn audit_readlog_group_mask() -> (r: u32)
    ensures
        r == 1,
{
    assert(1u32 << (AUDIT_NLGRP_READLOG - 1) == 1) by (bit_vector);
    1u32 << (AUDIT_NLGRP_READLOG - 1)
}

/// Whether a group set holds the audit log readers' group.
pub fn audit_netlink_readlog_groups(groups: u32) -> (r: bool)
    ensures
        r == (groups & 1 != 0),
{
    groups & audit_readlog_group_mask() != 0
}

/// Whether binding to `addr` subscribes an audit netlink socket to the log:
/// only such a subscription needs CAP_AUDIT_READ.
pub fn audit_netlink_readlog_addr_requires_cap(family: u16, protocol: u16, addr: &SockAddr) -> (r: bool)
    ensures
        r == (family == AF_NETLINK && protocol == NETLINK_AUDIT && match *addr {
            SockAddr::Netlink { groups, .. } => groups & 1 != 0,
            _ => false,
        }),
{
    match addr {
        SockAddr::Netlink { groups, .. } => {
            audit_netlink_readlog_groups(*groups) && family == AF_NETLINK && protocol == NETLINK_AUDIT
        },
        _ => false,
    }
}

/// Whether a socket with this family, protocol and local address receives
/// the audit log.
pub fn audit_netlink_readlog_subscribed(family: u16, protocol: u16, local: &Option<SockAddr>) -> (r: bool)
    ensures
        r == (family == AF_NETLINK && protocol == NETLINK_AUDIT && match *local {
            Some(SockAddr::Netlink { groups, .. }) => groups & 1 != 0,
            _ => false,
        }),
{
    if family != AF_NETLINK || protocol != NETLINK_AUDIT {
        return false;
    }
    match local {
        Some(SockAddr::Netlink { groups, .. }) => audit_netlink_readlog_groups(*groups),
        _ => false,
    }
}

/// Whether a socket with this family, protocol and local address is handed
/// an audit record: it reads the audit log, or it is the audit daemon's
/// socket (the daemon runs, as port `auditd_pid`, non-zero).
pub fn audit_record_listener(family: u16, protocol: u16, local: &Option<SockAddr>, auditd_pid: u32) -> (r: bool)
    ensures
        r == ((family == AF_NETLINK && protocol == NETLINK_AUDIT && match *local {
            Some(SockAddr::Netlink { groups, .. }) => groups & 1 != 0,
            _ => false,
        }) || (auditd_pid != 0 && family == AF_NETLINK && protocol == NETLINK_AUDIT && match *local {
            Some(SockAddr::Netlink { pid, .. }) => pid == auditd_pid,
            _ => false,
        })),
{
    let readlog = audit_netlink_readlog_subscribed(family, protocol, local);
    let auditd = auditd_pid != 0 && family == AF_NETLINK && protocol == NETLINK_AUDIT && match local {
        Some(SockAddr::Netlink { pid, .. }) => *pid == auditd_pid,
        _ => false,
    };
    readlog || auditd
}

/// Whether a socket with this family, protocol and local address receives
/// kernel uevents: a uevent netlink socket bound to some group.
pub fn kobject_uevent_subscribed(family: u16, protocol: u16, local: &Option<SockAddr>) -> (r: bool)
    ensures
        r == (family == AF_NETLINK && protocol == NETLINK_KOBJECT_UEVENT && match *local {
            Some(SockAddr::Netlink { groups, .. }) => groups != 0,
            _ => false,
        }),
{
    if family != AF_NETLINK || protocol != NETLINK_KOBJECT_UEVENT {
        return false;
    }
    match local {
        Some(SockAddr::Netlink { groups, .. }) => *groups != 0,
        _ => false,
    }
}

/// Whether the sender of an audit request asked for an acknowledgement.
pub fn audit_ack_requested(header: &NetlinkHeader) -> (r: bool)
    ensures
        r == (header.flags & NLM_F_ACK != 0),
{
    header.flags & NLM_F_ACK != 0
}

/// The address the built-in resolver answers every A query with.
pub open spec fn dns_answer_addr() -> Seq<u8> {
    seq![93u8, 184u8, 216u8, 34u8]
}

/// Where the name that starts at `pos` of a DNS query ends: after its empty
/// label, or at the end of the query when it has none; nothing for a label
/// of 64 bytes or more (a compression pointer) or one that runs past the
/// end.
pub open spec fn dns_name_end(q: Seq<u8>, pos: int) -> Option<int>
    decreases q.len() - pos,
{
    if pos < 0 || pos >= q.len() {
        Some(pos)
    } else if q[pos] == 0 {
        Some(pos + 1)
    } else if q[pos] >= 64 || pos + 1 + q[pos] > q.len() {
        None
    } else {
        dns_name_end(q, pos + 1 + q[pos])
    }
}

/// The answer of the built-in resolver to a DNS query: the query's id, the
/// flags of a recursive answer without error, one question, and one answer
/// pointing at the question's name when the question asks for an A record.
/// Nothing when the query is shorter than a header, has another question
/// count, or its question does not parse.
pub open spec fn dns_a_response_bytes(q: Seq<u8>) -> Option<Seq<u8>> {
    if q.len() < 12 || be16_at(q, 4) != 1 {
        None
    } else {
        match dns_name_end(q, 12) {
            None => None,
            Some(pos) => if pos + 4 > q.len() {
                None
            } else {
                let is_a = be16_at(q, pos) == 1;
                let head = q.subrange(0, 2) + seq![0x81u8, 0x80u8] + be16_bytes(1) + be16_bytes(
                    if is_a { 1 } else { 0 },
                ) + zeros(4) + q.subrange(12, pos + 4);
                if is_a {
                    Some(head + seq![0xc0u8, 0x0cu8] + be16_bytes(1) + be16_bytes(1) + be32_bytes(60)
                        + be16_bytes(4) + dns_answer_addr())
                } else {
                    Some(head)
                }
            },
        }
    }
}

/// Answers a DNS query sent to the built-in resolver.
pub fn build_dns_a_response(query: &[u8]) -> (r: Option<Vec<u8>>)
    ensures
        dns_a_response_bytes(query@) matches Some(b) ==> r matches Some(v) && v@ == b,
        dns_a_response_bytes(query@) is None ==> r is None,
{
    let n = query.len();
    if n < 12 {
        return None;
    }
    let qdcount = read_be16(query, 4);
    if qdcount != 1 {
        return None;
    }
    let mut pos: usize = 12;
    while pos < n
        invariant_except_break
            dns_name_end(query@, 12) == dns_name_end(query@, pos as int),
        invariant
            12 <= pos <= n,
            n == query@.len(),
        ensures
            dns_name_end(query@, 12) == Some(pos as int),
        decreases n - pos,
    {
        let label_len = query[pos] as usize;
        if label_len == 0 {
            pos += 1;
            break;
        }
        if label_len >= 64 || label_len > n - pos - 1 {
            return None;
        }
        pos += 1 + label_len;
    }
    assert(dns_name_end(query@, 12) == Some(pos as int));
    if pos > n || n - pos < 4 {
        return None;
    }
    let qtype = read_be16(query, pos);
    let question_end = pos + 4;
    let answer_count: u16 = if qtype == 1 { 1 } else { 0 };
    let mut response: Vec<u8> = Vec::new();
    push_bytes(&mut response, slice_range(query, 0, 2));
    push_bytes(&mut response, &u16_to_be_bytes(0x8180));
    push_bytes(&mut response, &u16_to_be_bytes(qdcount));
    push_bytes(&mut response, &u16_to_be_bytes(answer_count));
    push_zeros(&mut response, 4);
    push_bytes(&mut response, slice_range(query, 12, question_end));
    assert(be16_bytes(0x8180) =~= seq![0x81u8, 0x80u8]);
    assert(be16_bytes(0) =~= zeros(2));
    if answer_count != 0 {
        push_bytes(&mut response, &[0xc0u8, 0x0cu8]);
        push_bytes(&mut response, &u16_to_be_bytes(1));
        push_bytes(&mut response, &u16_to_be_bytes(1));
        push_bytes(&mut response, &u32_to_be_bytes(60));
        push_bytes(&mut response, &u16_to_be_bytes(4));
        push_bytes(&mut response, &[93u8, 184u8, 216u8, 34u8]);
    }
    Some(response)
}

/// The echo reply to an ICMP echo request: type 0, the rest of the packet
/// kept, and the checksum computed over the packet with a zero checksum
/// field. Nothing for a packet shorter than the header or of another type.
pub open spec fn echo_reply_bytes(p: Seq<u8>) -> Option<Seq<u8>> {
    if p.len() < 8 || p[0] != 8 {
        None
    } else {
        let z = p.update(0, 0u8).update(2, 0u8).update(3, 0u8);
        let c = be16_bytes(inet_checksum(z));
        Some(z.update(2, c[0]).update(3, c[1]))
    }
}

/// Answers an ICMP echo request sent to an outside address.
pub fn build_icmp_echo_reply(packet: &[u8]) -> (r: Option<Vec<u8>>)
    ensures
        echo_reply_bytes(packet@) matches Some(b) ==> r matches Some(v) && v@ == b,
        echo_reply_bytes(packet@) is None ==> r is None,
{
    if packet.len() < 8 || packet[0] != 8 {
        return None;
    }
    let mut reply: Vec<u8> = Vec::new();
    push_bytes(&mut reply, packet);
    reply.set(0, 0);
    reply.set(2, 0);
    reply.set(3, 0);
    let c = u16_to_be_bytes(checksum(reply.as_slice()));
    reply.set(2, c[0]);
    reply.set(3, c[1]);
    Some(reply)
}

pub const SOL_IP: i32 = 0;
pub const SOL_SOCKET: i32 = 1;
pub const SCM_RIGHTS: i32 = 1;
pub const SCM_CREDENTIALS: i32 = 2;
pub const IP_TTL: i32 = 2;
pub const IP_PKTINFO: i32 = 8;
/// The length of a control message header: the 64-bit length, the level
/// and the type.
pub const CMSG_HDR_LEN: usize = 16;
/// The most descriptors one message may carry.
pub const SCM_MAX_FD: usize = 253;
/// The longest control buffer a sender may hand in.
pub const SCM_MAX_CONTROL_LEN: usize = 65536;

/// The credentials a sender names in an SCM_CREDENTIALS message, as sent.
#[derive(Clone, Copy, Debug, Default, PartialEq, Eq, Structural)]
pub struct ScmCredentials {
    pub pid: i32,
    pub uid: u32,
    pub gid: u32,
}

/// What the IP control messages of a send ask for: the outgoing interface,
/// the source address and the time to live.
#[derive(Clone, Copy, Debug, Default, PartialEq, Eq, Structural)]
pub struct PacketMeta {
    pub ifindex: u32,
    pub local_inet_addr: Option<u32>,
    pub ttl: Option<u8>,
    pub netlink_group: u32,
}

/// The control messages of a send that the socket layer honours.
#[derive(Clone, Debug, Default, PartialEq, Eq)]
pub struct SendMsgControl {
    pub scm_fds: Vec<i32>,
    pub scm_cred: Option<ScmCredentials>,
    pub inet_meta: Option<PacketMeta>,
}

/// The parse of control messages so far: the descriptors, the named
/// credentials, and the IP metadata.
pub type CmsgState = (Seq<i32>, Option<ScmCredentials>, Option<PacketMeta>);

impl SendMsgControl {
    pub open spec fn state(&self) -> CmsgState {
        (self.scm_fds@, self.scm_cred, self.inet_meta)
    }
}

/// The metadata with nothing set.
pub open spec fn empty_meta() -> PacketMeta {
    PacketMeta { ifindex: 0, local_inet_addr: None, ttl: None, netlink_group: 0 }
}

/// The 64-bit host-order length field at `off`.
pub open spec fn le64_at(c: Seq<u8>, off: int) -> int {
    le32_at(c, off) + le32_at(c, off + 4) * 4294967296
}

/// `n` rounded up to a multiple of eight.
pub open spec fn cmsg_aligned(n: int) -> int {
    (n + 7) / 8 * 8
}

/// The `n` descriptors that start at `start`.
pub open spec fn fds_at(c: Seq<u8>, start: int, n: int) -> Seq<i32> {
    Seq::new(n as nat, |i: int| le32_at(c, start + 4 * i) as i32)
}

/// What the control message at `off`, `len` bytes long, adds to the parse.
pub open spec fn cmsg_apply(c: Seq<u8>, off: int, len: int, st: CmsgState) -> Result<CmsgState, i32> {
    let level = le32_at(c, off + 8) as i32;
    let kind = le32_at(c, off + 12) as i32;
    let meta = match st.2 {
        Some(m) => m,
        None => empty_meta(),
    };
    if level == SOL_SOCKET && kind == SCM_RIGHTS {
        let data_len = len - CMSG_HDR_LEN;
        if data_len % 4 != 0 || st.0.len() + data_len / 4 > SCM_MAX_FD {
            Err(EINVAL)
        } else {
            Ok((st.0 + fds_at(c, off + CMSG_HDR_LEN, data_len / 4), st.1, st.2))
        }
    } else if level == SOL_SOCKET && kind == SCM_CREDENTIALS {
        if len != CMSG_HDR_LEN + 12 {
            Err(EINVAL)
        } else {
            Ok((st.0, Some(ScmCredentials {
                pid: le32_at(c, off + 16) as i32,
                uid: le32_at(c, off + 20),
                gid: le32_at(c, off + 24),
            }), st.2))
        }
    } else if level == SOL_IP && kind == IP_PKTINFO {
        if len != CMSG_HDR_LEN + 12 {
            Err(EINVAL)
        } else {
            let ifindex = le32_at(c, off + 16);
            let spec_dst = be32_at(c, off + 20);
            Ok((st.0, st.1, Some(PacketMeta {
                ifindex: if ifindex != 0 { ifindex } else { meta.ifindex },
                local_inet_addr: if spec_dst != 0 { Some(spec_dst) } else { meta.local_inet_addr },
                ..meta
            })))
        }
    } else if level == SOL_IP && kind == IP_TTL {
        let ttl = le32_at(c, off + 16) as i32;
        if len != CMSG_HDR_LEN + 4 || ttl < 1 || ttl > 255 {
            Err(EINVAL)
        } else {
            Ok((st.0, st.1, Some(PacketMeta { ttl: Some(ttl as u8), ..meta })))
        }
    } else {
        Ok(st)
    }
}

/// The parse of the control messages from `off` on: each needs a length
/// of at least a header that stays inside the buffer; the walk ends when
/// less than a header is left.
pub open spec fn cmsg_walk(c: Seq<u8>, off: int, st: CmsgState) -> Result<CmsgState, i32>
    decreases c.len() - off,
{
    if off < 0 || off > c.len() || c.len() - off < CMSG_HDR_LEN {
        Ok(st)
    } else {
        let len = le64_at(c, off);
        if len < CMSG_HDR_LEN || off + len > c.len() {
            Err(EINVAL)
        } else {
            match cmsg_apply(c, off, len, st) {
                Err(e) => Err(e),
                Ok(next) => if off + cmsg_aligned(len) > c.len() {
                    Ok(next)
                } else {
                    cmsg_walk(c, off + cmsg_aligned(len), next)
                },
            }
        }
    }
}

/// The parse of a whole control buffer.
pub open spec fn sendmsg_control_spec(c: Seq<u8>) -> Result<CmsgState, i32> {
    if c.len() == 0 {
        Ok((Seq::empty(), None, None))
    } else if c.len() > SCM_MAX_CONTROL_LEN {
        Err(EINVAL)
    } else {
        cmsg_walk(c, 0, (Seq::empty(), None, None))
    }
}

/// Rounds a control message length up to a multiple of eight, or gives the
/// largest length when that overflows.
pub fn cmsg_align(n: usize) -> (r: usize)
    ensures
        n + 7 <= usize::MAX ==> r == cmsg_aligned(n as int),
        n + 7 > usize::MAX ==> r == usize::MAX,
{
    if n > usize::MAX - 7 {
        return usize::MAX;
    }
    let x: usize = n + 7;
    assert((x & !7usize) == x / 8 * 8) by (bit_vector);
    x & !7usize
}

/// Adds the control message at `off`, `len` bytes long, to the parse.
fn apply_cmsg(control: &[u8], off: usize, len: usize, parsed: &mut SendMsgControl) -> (r: Result<(), i32>)
    requires
        CMSG_HDR_LEN <= len,
        off + len <= control@.len(),
        old(parsed).scm_fds@.len() <= SCM_MAX_FD,
    ensures
        match cmsg_apply(control@, off as int, len as int, old(parsed).state()) {
            Ok(st) => r is Ok && final(parsed).state() == st,
            Err(e) => r == Err::<(), i32>(e),
        },
        final(parsed).scm_fds@.len() <= SCM_MAX_FD,
{
    let n = control.len();
    let level = read_le32(control, off + 8) as i32;
    let kind = read_le32(control, off + 12) as i32;
    let ghost before = parsed.state();
    if level == SOL_SOCKET && kind == SCM_RIGHTS {
        let data_len = len - CMSG_HDR_LEN;
        if data_len % 4 != 0 {
            return Err(EINVAL);
        }
        let nfds = data_len / 4;
        if parsed.scm_fds.len() + nfds > SCM_MAX_FD {
            return Err(EINVAL);
        }
        let start = off + CMSG_HDR_LEN;
        let mut i: usize = 0;
        while i < nfds
            invariant
                i <= nfds,
                start + 4 * nfds <= n,
                n == control@.len(),
                parsed.scm_fds@ == before.0 + fds_at(control@, start as int, i as int),
                parsed.scm_cred == before.1,
                parsed.inet_meta == before.2,
            decreases nfds - i,
        {
            let fd = read_le32(control, start + 4 * i) as i32;
            parsed.scm_fds.push(fd);
            i += 1;
            assert(parsed.scm_fds@ =~= before.0 + fds_at(control@, start as int, i as int));
        }
        Ok(())
    } else if level == SOL_SOCKET && kind == SCM_CREDENTIALS {
        if len != CMSG_HDR_LEN + 12 {
            return Err(EINVAL);
        }
        parsed.scm_cred = Some(ScmCredentials {
            pid: read_le32(control, off + 16) as i32,
            uid: read_le32(control, off + 20),
            gid: read_le32(control, off + 24),
        });
        Ok(())
    } else if level == SOL_IP && kind == IP_PKTINFO {
        if len != CMSG_HDR_LEN + 12 {
            return Err(EINVAL);
        }
        let ifindex = read_le32(control, off + 16);
        let spec_dst = read_be32(control, off + 20);
        let mut m = match parsed.inet_meta {
            Some(m) => m,
            None => PacketMeta { ifindex: 0, local_inet_addr: None, ttl: None, netlink_group: 0 },
        };
        if ifindex != 0 {
            m.ifindex = ifindex;
        }
        if spec_dst != 0 {
            m.local_inet_addr = Some(spec_dst);
        }
        parsed.inet_meta = Some(m);
        Ok(())
    } else if level == SOL_IP && kind == IP_TTL {
        if len != CMSG_HDR_LEN + 4 {
            return Err(EINVAL);
        }
        let ttl = read_le32(control, off + 16) as i32;
        if ttl < 1 || ttl > 255 {
            return Err(EINVAL);
        }
        let mut m = match parsed.inet_meta {
            Some(m) => m,
            None => PacketMeta { ifindex: 0, local_inet_addr: None, ttl: None, netlink_group: 0 },
        };
        m.ttl = Some(ttl as u8);
        parsed.inet_meta = Some(m);
        Ok(())
    } else {
        Ok(())
    }
}

/// Reads the control messages a sender attached: descriptors to pass
/// (SCM_RIGHTS, at most 253 in all), named credentials (SCM_CREDENTIALS),
/// and the IPv4 interface, source address (IP_PKTINFO) and time to live
/// (IP_TTL, 1 to 255). Other messages are skipped; a buffer over 64 KiB, a
/// message that does not fit, or one of the wrong size is EINVAL.
pub fn parse_sendmsg_control(control: &[u8]) -> (r: Result<SendMsgControl, i32>)
    ensures
        match sendmsg_control_spec(control@) {
            Ok(st) => r matches Ok(p) && p.state() == st,
            Err(e) => r == Err::<SendMsgControl, i32>(e),
        },
{
    let n = control.len();
    let mut parsed = SendMsgControl { scm_fds: Vec::new(), scm_cred: None, inet_meta: None };
    if n == 0 {
        return Ok(parsed);
    }
    if n > SCM_MAX_CONTROL_LEN {
        return Err(EINVAL);
    }
    let ghost c = control@;
    let mut off: usize = 0;
    while off <= n && n - off >= CMSG_HDR_LEN
        invariant
            n == c.len(),
            c == control@,
            0 < n <= SCM_MAX_CONTROL_LEN,
            off <= n + 7,
            parsed.scm_fds@.len() <= SCM_MAX_FD,
            cmsg_walk(c, 0, (Seq::empty(), None, None)) == cmsg_walk(c, off as int, parsed.state()),
        decreases n + 8 - off,
    {
        let lo = read_le32(control, off) as u64;
        let hi = read_le32(control, off + 4) as u64;
        if hi != 0 {
            return Err(EINVAL);
        }
        let cmsg_len: usize = lo as usize;
        assert(cmsg_len == le64_at(c, off as int));
        if cmsg_len < CMSG_HDR_LEN || cmsg_len > n - off {
            return Err(EINVAL);
        }
        match apply_cmsg(control, off, cmsg_len, &mut parsed) {
            Ok(()) => {},
            Err(e) => return Err(e),
        }
        let step = cmsg_align(cmsg_len);
        off = off + step;
    }
    Ok(parsed)
}

/// An SCM_RIGHTS control message passing `fds`, padded to eight bytes.
pub open spec fn rights_cmsg(fds: Seq<i32>) -> Seq<u8> {
    let total = CMSG_HDR_LEN + 4 * fds.len();
    cmsg_bytes(SOL_SOCKET, SCM_RIGHTS, fds_bytes(fds)) + zeros((cmsg_aligned(total) - total) as nat)
}

/// A control buffer of SCM_RIGHTS messages, one for each group of
/// descriptors, in order.
pub open spec fn rights_control(groups: Seq<Seq<i32>>) -> Seq<u8>
    decreases groups.len(),
{
    if groups.len() == 0 {
        Seq::empty()
    } else {
        rights_cmsg(groups[0]) + rights_control(groups.drop_first())
    }
}

/// The descriptors of all the groups, in order.
pub open spec fn fds_of(groups: Seq<Seq<i32>>) -> Seq<i32>
    decreases groups.len(),
{
    if groups.len() == 0 {
        Seq::empty()
    } else {
        groups[0] + fds_of(groups.drop_first())
    }
}

proof fn lemma_fds_bytes_at(fds: Seq<i32>, i: int)
    requires
        0 <= i < fds.len(),
    ensures
        fds_bytes(fds).len() == 4 * fds.len(),
        crate::bytes::le32(
            fds_bytes(fds)[4 * i],
            fds_bytes(fds)[4 * i + 1],
            fds_bytes(fds)[4 * i + 2],
            fds_bytes(fds)[4 * i + 3],
        ) as i32 == fds[i],
    decreases fds.len(),
{
    lemma_fds_bytes_len(fds);
    let x = fds[i];
    if i < fds.len() - 1 {
        lemma_fds_bytes_at(fds.drop_last(), i);
        lemma_fds_bytes_len(fds.drop_last());
    } else {
        lemma_fds_bytes_len(fds.drop_last());
        crate::bytes::lemma_le32_roundtrip(x as u32);
    }
    assert((x as u32) as i32 == x) by (bit_vector);
}

proof fn lemma_fds_bytes_len(fds: Seq<i32>)
    ensures
        fds_bytes(fds).len() == 4 * fds.len(),
    decreases fds.len(),
{
    if fds.len() > 0 {
        lemma_fds_bytes_len(fds.drop_last());
    }
}

/// What a reader finds in an SCM_RIGHTS message: its length in the two
/// length words, the socket level and rights type, then the descriptors.
proof fn lemma_rights_cmsg_shape(g: Seq<i32>)
    requires
        CMSG_HDR_LEN + 4 * g.len() < 4294967296,
    ensures
        ({
            let m = rights_cmsg(g);
            let total = CMSG_HDR_LEN + 4 * g.len();
            &&& m.len() == cmsg_aligned(total)
            &&& total <= m.len() < total + 8
            &&& le32_at(m, 0) == total
            &&& le32_at(m, 4) == 0
            &&& le32_at(m, 8) == 1
            &&& le32_at(m, 12) == 1
            &&& forall|i: int| 0 <= i < g.len() ==> (#[trigger] le32_at(m, 16 + 4 * i)) as i32 == g[i]
        }),
{
    let total = CMSG_HDR_LEN + 4 * g.len();
    let t32 = total as u32;
    lemma_fds_bytes_len(g);
    let h0 = le32_bytes(t32);
    let h1 = le32_bytes((total / 4294967296) as u32);
    let h2 = le32_bytes(SOL_SOCKET as u32);
    let h3 = le32_bytes(SCM_RIGHTS as u32);
    let d = fds_bytes(g);
    let m = rights_cmsg(g);
    assert(m == h0 + h1 + h2 + h3 + d + zeros((cmsg_aligned(total) - total) as nat));
    assert((total / 4294967296) as u32 == 0u32);
    crate::bytes::lemma_le32_roundtrip(t32);
    crate::bytes::lemma_le32_roundtrip(0u32);
    crate::bytes::lemma_le32_roundtrip(1u32);
    assert(m.subrange(0, 4) =~= h0);
    assert(m.subrange(4, 8) =~= h1);
    assert(m.subrange(8, 12) =~= h2);
    assert(m.subrange(12, 16) =~= h3);
    assert(le32_at(m, 0) == t32);
    assert(le32_at(m, 4) == 0);
    assert(le32_at(m, 8) == 1);
    assert(le32_at(m, 12) == 1);
    assert forall|i: int| 0 <= i < g.len() implies (#[trigger] le32_at(m, 16 + 4 * i)) as i32 == g[i] by {
        lemma_fds_bytes_at(g, i);
        assert(m[16 + 4 * i] == d[4 * i]);
        assert(m[16 + 4 * i + 1] == d[4 * i + 1]);
        assert(m[16 + 4 * i + 2] == d[4 * i + 2]);
        assert(m[16 + 4 * i + 3] == d[4 * i + 3]);
    }
}

/// Reading at `off + j` of a buffer that holds `m` at `off` reads `m` at `j`.
proof fn lemma_read_inside(c: Seq<u8>, off: int, m: Seq<u8>, rest: Seq<u8>, j: int)
    requires
        0 <= off <= c.len(),
        c.subrange(off, c.len() as int) == m + rest,
        0 <= j,
        j + 4 <= m.len(),
    ensures
        le32_at(c, off + j) == le32_at(m, j),
{
    let t = c.subrange(off, c.len() as int);
    assert(t.len() == m.len() + rest.len());
    assert forall|x: int| 0 <= x < m.len() implies c[off + x] == m[x] by {
        assert(t[x] == c[off + x]);
        assert((m + rest)[x] == m[x]);
    }
    assert(c[off + j] == m[j]);
    assert(c[off + j + 1] == m[j + 1]);
    assert(c[off + j + 2] == m[j + 2]);
    assert(c[off + j + 3] == m[j + 3]);
}

/// The walk meets the SCM_RIGHTS message for `g` at `off`: its length is
/// read whole, and applying it adds `g` or refuses the count.
proof fn lemma_rights_apply(c: Seq<u8>, off: int, g: Seq<i32>, rest: Seq<u8>, st: CmsgState)
    requires
        0 <= off <= c.len(),
        c.len() <= SCM_MAX_CONTROL_LEN,
        c.subrange(off, c.len() as int) == rights_cmsg(g) + rest,
    ensures
        ({
            let total = CMSG_HDR_LEN + 4 * g.len();
            &&& rights_cmsg(g).len() == cmsg_aligned(total)
            &&& total <= rights_cmsg(g).len()
            &&& le64_at(c, off) == total
            &&& cmsg_apply(c, off, total, st) == if st.0.len() + g.len() <= SCM_MAX_FD {
                Ok::<CmsgState, i32>((st.0 + g, st.1, st.2))
            } else {
                Err::<CmsgState, i32>(EINVAL)
            }
        }),
{
    let k = g.len();
    let total = CMSG_HDR_LEN + 4 * k;
    let m = rights_cmsg(g);
    assert(c.subrange(off, c.len() as int).len() == m.len() + rest.len());
    lemma_fds_bytes_len(g);
    assert(total <= m.len()) by {
        assert(m.len() >= cmsg_bytes(SOL_SOCKET, SCM_RIGHTS, fds_bytes(g)).len());
    }
    lemma_rights_cmsg_shape(g);
    lemma_read_inside(c, off, m, rest, 0);
    lemma_read_inside(c, off, m, rest, 4);
    lemma_read_inside(c, off, m, rest, 8);
    lemma_read_inside(c, off, m, rest, 12);
    let fds = fds_at(c, off + CMSG_HDR_LEN, k as int);
    assert forall|i: int| 0 <= i < k implies fds[i] == g[i] by {
        lemma_read_inside(c, off, m, rest, 16 + 4 * i);
        assert(le32_at(m, 16 + 4 * i) as i32 == g[i]);
    }
    assert(fds =~= g);
}

#[verifier::rlimit(60)]
proof fn lemma_rights_walk(c: Seq<u8>, off: int, groups: Seq<Seq<i32>>, st: CmsgState)
    requires
        0 <= off <= c.len(),
        c.len() <= SCM_MAX_CONTROL_LEN,
        c.subrange(off, c.len() as int) == rights_control(groups),
        st.0.len() <= SCM_MAX_FD,
    ensures
        cmsg_walk(c, off, st) == if st.0.len() + fds_of(groups).len() <= SCM_MAX_FD {
            Ok::<CmsgState, i32>((st.0 + fds_of(groups), st.1, st.2))
        } else {
            Err::<CmsgState, i32>(EINVAL)
        },
    decreases groups.len(),
{
    if groups.len() == 0 {
        assert(st.0 + fds_of(groups) =~= st.0);
        assert(rights_control(groups).len() == 0);
        assert(c.subrange(off, c.len() as int).len() == c.len() - off);
    } else {
        let g = groups[0];
        let m = rights_cmsg(g);
        let rest = rights_control(groups.drop_first());
        assert(c.subrange(off, c.len() as int) == m + rest);
        lemma_rights_apply(c, off, g, rest, st);
        let total = CMSG_HDR_LEN + 4 * g.len();
        assert(fds_of(groups) == g + fds_of(groups.drop_first()));
        assert(c.len() - off == m.len() + rest.len());
        if st.0.len() + g.len() <= SCM_MAX_FD {
            let next: CmsgState = (st.0 + g, st.1, st.2);
            let off2 = off + m.len();
            assert(c.subrange(off2, c.len() as int) =~= rest) by {
                assert forall|j: int| 0 <= j < rest.len() implies c.subrange(off2, c.len() as int)[j] == rest[j] by {
                    assert(c.subrange(off, c.len() as int)[m.len() + j] == (m + rest)[m.len() + j]);
                }
            }
            lemma_rights_walk(c, off2, groups.drop_first(), next);
            assert(st.0 + g + fds_of(groups.drop_first()) =~= st.0 + fds_of(groups));
            assert(cmsg_walk(c, off, st) == cmsg_walk(c, off2, next));
        }
    }
}

/// Descriptors sent in SCM_RIGHTS messages arrive in message order, each
/// message's in its own order, as long as there are at most 253 of them in
/// all, whether in one message or spread over several; more is EINVAL.
pub proof fn lemma_scm_rights_in_order(groups: Seq<Seq<i32>>)
    requires
        0 < rights_control(groups).len() <= SCM_MAX_CONTROL_LEN,
    ensures
        sendmsg_control_spec(rights_control(groups)) == if fds_of(groups).len() <= SCM_MAX_FD {
            Ok::<CmsgState, i32>((fds_of(groups), None, None))
        } else {
            Err::<CmsgState, i32>(EINVAL)
        },
{
    let c = rights_control(groups);
    assert(c.subrange(0, c.len() as int) =~= c);
    lemma_rights_walk(c, 0, groups, (Seq::empty(), None, None));
    assert(Seq::<i32>::empty() + fds_of(groups) =~= fds_of(groups));
}

/// The buffer size every socket reports.
pub const SOCKET_BUFFER_SIZE: u32 = 212992;

/// The part of a socket that its options read and write.
#[derive(Clone, Copy, Debug, PartialEq, Eq, Structural)]
pub struct SocketOptions {
    pub family: u16,
    pub sock_type: u16,
    pub protocol: u16,
    pub state: SocketState,
    pub reuseaddr: bool,
    pub passcred: bool,
    pub passpidfd: bool,
    pub passrights: bool,
    pub timestamp_old: bool,
    pub timestamp_new: bool,
    pub recv_ttl: bool,
}

impl SocketOptions {
    /// The options of a new socket: all off, in the created state.
    pub fn new(family: u16, sock_type: u16, protocol: u16) -> (r: Self)
        ensures
            r == (SocketOptions {
                family,
                sock_type,
                protocol,
                state: SocketState::Created,
                reuseaddr: false,
                passcred: false,
                passpidfd: false,
                passrights: false,
                timestamp_old: false,
                timestamp_new: false,
                recv_ttl: false,
            }),
    {
        SocketOptions {
            family,
            sock_type,
            protocol,
            state: SocketState::Created,
            reuseaddr: false,
            passcred: false,
            passpidfd: false,
            passrights: false,
            timestamp_old: false,
            timestamp_new: false,
            recv_ttl: false,
        }
    }
}

/// What setting a socket-level option does to the options.
pub open spec fn setsockopt_result(o: SocketOptions, opt: u32, value: u32) -> Result<SocketOptions, i32> {
    let on = value != 0;
    if opt == SO_REUSEADDR {
        Ok(SocketOptions { reuseaddr: on, ..o })
    } else if opt == SO_SNDBUF || opt == SO_RCVBUF || opt == SO_SNDBUFFORCE || opt == SO_RCVBUFFORCE
        || opt == SO_RCVTIMEO_OLD || opt == SO_RCVTIMEO_NEW || opt == SO_SNDTIMEO_OLD || opt == SO_SNDTIMEO_NEW {
        Ok(o)
    } else if opt == SO_PASSCRED {
        Ok(SocketOptions { passcred: on, ..o })
    } else if opt == SO_PASSPIDFD {
        if o.family != AF_UNIX { Err(EOPNOTSUPP) } else { Ok(SocketOptions { passpidfd: on, ..o }) }
    } else if opt == SO_PASSRIGHTS {
        if o.family != AF_UNIX { Err(EOPNOTSUPP) } else { Ok(SocketOptions { passrights: on, ..o }) }
    } else if opt == SO_PASSSEC {
        Err(EOPNOTSUPP)
    } else if opt == SO_TIMESTAMP_OLD {
        Ok(SocketOptions { timestamp_old: on, timestamp_new: if on { false } else { o.timestamp_new }, ..o })
    } else if opt == SO_TIMESTAMP_NEW {
        Ok(SocketOptions { timestamp_new: on, timestamp_old: if on { false } else { o.timestamp_old }, ..o })
    } else if o.family == AF_INET || o.family == AF_INET6 || o.family == AF_NETLINK {
        Ok(o)
    } else {
        Err(EINVAL)
    }
}

/// Sets a socket-level option. The two timestamp formats exclude each
/// other; descriptor and pid passing exist on local sockets only; security
/// labels are not supported; other options are accepted and ignored on
/// internet and netlink sockets and EINVAL elsewhere. On error the options
/// stay as they were.
pub fn setsockopt(opts: &mut SocketOptions, opt: u32, value: u32) -> (r: Result<(), i32>)
    ensures
        match setsockopt_result(*old(opts), opt, value) {
            Ok(o) => r is Ok && *final(opts) == o,
            Err(e) => r == Err::<(), i32>(e) && *final(opts) == *old(opts),
        },
{
    let on = value != 0;
    if opt == SO_REUSEADDR {
        opts.reuseaddr = on;
        Ok(())
    } else if opt == SO_SNDBUF || opt == SO_RCVBUF || opt == SO_SNDBUFFORCE || opt == SO_RCVBUFFORCE
        || opt == SO_RCVTIMEO_OLD || opt == SO_RCVTIMEO_NEW || opt == SO_SNDTIMEO_OLD || opt == SO_SNDTIMEO_NEW {
        Ok(())
    } else if opt == SO_PASSCRED {
        opts.passcred = on;
        Ok(())
    } else if opt == SO_PASSPIDFD {
        if opts.family != AF_UNIX {
            return Err(EOPNOTSUPP);
        }
        opts.passpidfd = on;
        Ok(())
    } else if opt == SO_PASSRIGHTS {
        if opts.family != AF_UNIX {
            return Err(EOPNOTSUPP);
        }
        opts.passrights = on;
        Ok(())
    } else if opt == SO_PASSSEC {
        Err(EOPNOTSUPP)
    } else if opt == SO_TIMESTAMP_OLD {
        opts.timestamp_old = on;
        if on {
            opts.timestamp_new = false;
        }
        Ok(())
    } else if opt == SO_TIMESTAMP_NEW {
        opts.timestamp_new = on;
        if on {
            opts.timestamp_old = false;
        }
        Ok(())
    } else if opts.family == AF_INET || opts.family == AF_INET6 || opts.family == AF_NETLINK {
        Ok(())
    } else {
        Err(EINVAL)
    }
}

/// 1 for a set flag, 0 for a clear one.
pub open spec fn flag_word(b: bool) -> u32 {
    if b { 1 } else { 0 }
}

fn flag_value(b: bool) -> (r: u32)
    ensures
        r == flag_word(b),
{
    if b { 1 } else { 0 }
}

/// The value a socket-level option reads.
pub open spec fn getsockopt_result(o: SocketOptions, opt: u32) -> Result<u32, i32> {
    if opt == SO_REUSEADDR {
        Ok(flag_word(o.reuseaddr))
    } else if opt == SO_TYPE {
        Ok(o.sock_type as u32)
    } else if opt == SO_ERROR {
        Ok(0)
    } else if opt == SO_SNDBUF || opt == SO_RCVBUF || opt == SO_SNDBUFFORCE || opt == SO_RCVBUFFORCE {
        Ok(SOCKET_BUFFER_SIZE)
    } else if opt == SO_PASSCRED {
        Ok(flag_word(o.passcred))
    } else if opt == SO_PASSPIDFD {
        Ok(flag_word(o.passpidfd))
    } else if opt == SO_PASSRIGHTS && o.family == AF_UNIX {
        Ok(flag_word(o.passrights))
    } else if opt == SO_PASSRIGHTS || opt == SO_PASSSEC {
        Err(EOPNOTSUPP)
    } else if opt == SO_TIMESTAMP_OLD {
        Ok(flag_word(o.timestamp_old))
    } else if opt == SO_TIMESTAMP_NEW {
        Ok(flag_word(o.timestamp_new))
    } else if opt == SO_ACCEPTCONN {
        Ok(flag_word(o.state == SocketState::Listening))
    } else if opt == SO_PROTOCOL {
        Ok(o.protocol as u32)
    } else if opt == SO_DOMAIN {
        Ok(o.family as u32)
    } else {
        Err(EINVAL)
    }
}

/// Reads a socket-level option: the flags as 0 or 1, the type, protocol
/// and family, no pending error, a fixed buffer size, and whether the
/// socket listens; EOPNOTSUPP for descriptor passing off local sockets and
/// for security labels, EINVAL for the rest.
pub fn getsockopt(opts: &SocketOptions, opt: u32) -> (r: Result<u32, i32>)
    ensures
        r == getsockopt_result(*opts, opt),
{
    if opt == SO_REUSEADDR {
        Ok(flag_value(opts.reuseaddr))
    } else if opt == SO_TYPE {
        Ok(opts.sock_type as u32)
    } else if opt == SO_ERROR {
        Ok(0)
    } else if opt == SO_SNDBUF || opt == SO_RCVBUF || opt == SO_SNDBUFFORCE || opt == SO_RCVBUFFORCE {
        Ok(SOCKET_BUFFER_SIZE)
    } else if opt == SO_PASSCRED {
        Ok(flag_value(opts.passcred))
    } else if opt == SO_PASSPIDFD {
        Ok(flag_value(opts.passpidfd))
    } else if opt == SO_PASSRIGHTS && opts.family == AF_UNIX {
        Ok(flag_value(opts.passrights))
    } else if opt == SO_PASSRIGHTS || opt == SO_PASSSEC {
        Err(EOPNOTSUPP)
    } else if opt == SO_TIMESTAMP_OLD {
        Ok(flag_value(opts.timestamp_old))
    } else if opt == SO_TIMESTAMP_NEW {
        Ok(flag_value(opts.timestamp_new))
    } else if opt == SO_ACCEPTCONN {
        Ok(flag_value(opts.state == SocketState::Listening))
    } else if opt == SO_PROTOCOL {
        Ok(opts.protocol as u32)
    } else if opt == SO_DOMAIN {
        Ok(opts.family as u32)
    } else {
        Err(EINVAL)
    }
}

/// Turns the TTL control message of received IPv4 packets on or off; only
/// IPv4 sockets have it.
pub fn set_recv_ttl(opts: &mut SocketOptions, value: u32) -> (r: Result<(), i32>)
    ensures
        old(opts).family != AF_INET ==> r == Err::<(), i32>(EINVAL) && *final(opts) == *old(opts),
        old(opts).family == AF_INET ==> r is Ok && *final(opts) == (SocketOptions { recv_ttl: value != 0, ..*old(opts) }),
{
    if opts.family != AF_INET {
        return Err(EINVAL);
    }
    opts.recv_ttl = value != 0;
    Ok(())
}

/// Whether received IPv4 packets carry their TTL, as 0 or 1.
pub fn get_recv_ttl(opts: &SocketOptions) -> (r: Result<u32, i32>)
    ensures
        opts.family != AF_INET ==> r == Err::<u32, i32>(EINVAL),
        opts.family == AF_INET ==> r == Ok::<u32, i32>(flag_word(opts.recv_ttl)),
{
    if opts.family != AF_INET {
        return Err(EINVAL);
    }
    Ok(flag_value(opts.recv_ttl))
}

/// A value that is read back as it was set: reading a flag option after
/// setting it gives 1 for a non-zero value and 0 for zero, on every socket
/// that accepts the option.
pub proof fn lemma_setsockopt_then_getsockopt(o: SocketOptions, opt: u32, value: u32)
    requires
        opt == SO_REUSEADDR || opt == SO_PASSCRED || opt == SO_PASSPIDFD || opt == SO_PASSRIGHTS
            || opt == SO_TIMESTAMP_OLD || opt == SO_TIMESTAMP_NEW,
        setsockopt_result(o, opt, value) is Ok,
    ensures
        getsockopt_result(setsockopt_result(o, opt, value)->Ok_0, opt) == Ok::<u32, i32>(flag_word(value != 0)),
{
}

/// The credentials a packet carries: sender's process, user and group.
#[derive(Clone, Copy, Debug, Default, PartialEq, Eq, Structural)]
pub struct SocketCred {
    pub pid: i32,
    pub uid: u32,
    pub gid: u32,
}

/// A packet waiting in a socket's receive queue, with the descriptors `F`
/// passed along with it.
pub struct QueuedPacket<F> {
    pub bytes: Vec<u8>,
    pub peer: Option<SockAddr>,
    pub fds: Vec<F>,
    pub cred: SocketCred,
}

/// What a connected socket knows of its peer endpoint.
#[derive(Clone, Copy, Debug, PartialEq, Eq, Structural)]
pub enum PeerStatus {
    /// No peer endpoint is linked.
    Unlinked,
    /// The peer endpoint no longer exists.
    Dropped,
    /// The peer endpoint exists and is in this state.
    Open(SocketState),
    /// The peer endpoint exists but is locked by someone else.
    Busy,
}

/// Whether a stream socket has hung up: it was shut down, or it is
/// connected and its peer is gone or closed.
pub open spec fn stream_hangup(sock_type: u16, state: SocketState, peer: PeerStatus) -> bool {
    if sock_type != SOCK_STREAM && sock_type != SOCK_SEQPACKET {
        false
    } else if state == SocketState::Closed {
        true
    } else if state != SocketState::Connected {
        false
    } else {
        match peer {
            PeerStatus::Dropped => true,
            PeerStatus::Open(s) => s == SocketState::Closed,
            _ => false,
        }
    }
}

/// True when a stream or seqpacket socket has hung up, so that reads drain
/// to end of file instead of waiting; a peer locked by someone else is
/// alive.
pub fn stream_hangup_locked(sock_type: u16, state: SocketState, peer: PeerStatus) -> (r: bool)
    ensures
        r == stream_hangup(sock_type, state, peer),
{
    if sock_type != SOCK_STREAM && sock_type != SOCK_SEQPACKET {
        return false;
    }
    if state == SocketState::Closed {
        return true;
    }
    if state != SocketState::Connected {
        return false;
    }
    match peer {
        PeerStatus::Dropped => true,
        PeerStatus::Open(s) => s == SocketState::Closed,
        _ => false,
    }
}

/// A copy of an address.
pub fn clone_sockaddr(a: &SockAddr) -> (r: SockAddr)
    ensures
        r == *a,
{
    match a {
        SockAddr::Inet { addr, port } => SockAddr::Inet { addr: *addr, port: *port },
        SockAddr::Inet6 { addr, port } => SockAddr::Inet6 { addr: *addr, port: *port },
        SockAddr::Unix(path) => SockAddr::Unix(path.clone()),
        SockAddr::Netlink { pid, groups } => SockAddr::Netlink { pid: *pid, groups: *groups },
        SockAddr::Packet { ifindex, protocol } => SockAddr::Packet { ifindex: *ifindex, protocol: *protocol },
    }
}

fn clone_opt_sockaddr(a: &Option<SockAddr>) -> (r: Option<SockAddr>)
    ensures
        r == *a,
{
    match a {
        Some(x) => Some(clone_sockaddr(x)),
        None => None,
    }
}

/// Copies the first `n` bytes of `src` over the start of `out`.
fn copy_prefix(out: &mut [u8], src: &[u8], n: usize)
    requires
        n <= src@.len(),
        n <= old(out)@.len(),
    ensures
        final(out)@ == src@.take(n as int) + old(out)@.skip(n as int),
{
    let ghost orig = out@;
    let mut i: usize = 0;
    while i < n
        invariant
            i <= n,
            n <= src@.len(),
            n <= orig.len(),
            out@.len() == orig.len(),
            forall|j: int| 0 <= j < out@.len() ==> #[trigger] out@[j] == if j < i { src@[j] } else { orig[j] },
        decreases n - i,
    {
        out[i] = src[i];
        i += 1;
    }
    assert(out@ =~= src@.take(n as int) + orig.skip(n as int));
}

/// The bytes of `src` from `start` on, as a new vector.
fn tail_bytes(src: &Vec<u8>, start: usize) -> (r: Vec<u8>)
    requires
        start <= src@.len(),
    ensures
        r@ == src@.skip(start as int),
{
    let mut r: Vec<u8> = Vec::new();
    let mut i: usize = start;
    while i < src.len()
        invariant
            start <= i <= src@.len(),
            r@ == src@.subrange(start as int, i as int),
        decreases src@.len() - i,
    {
        r.push(src[i]);
        i += 1;
        assert(r@ =~= src@.subrange(start as int, i as int));
    }
    assert(src@.subrange(start as int, src@.len() as int) =~= src@.skip(start as int));
    r
}

/// How many bytes a receive into `out_len` bytes copies of a packet of
/// `whole` bytes.
pub open spec fn recv_copy_len(out_len: int, whole: int) -> int {
    if out_len < whole { out_len } else { whole }
}

/// Receives from a socket's queue into `out`. An empty queue is end of
/// file on a stream that hung up and EAGAIN otherwise. Else the front
/// packet is copied as far as `out` holds it, with its sender address and
/// credentials; the last value is the length the caller reports, the
/// copied length on a stream and the packet's whole length otherwise. A
/// peek leaves the queue as it was and hands out no descriptors. A receive
/// takes the packet off the queue with its descriptors, except that a
/// stream packet read only in part goes back to the front with the bytes
/// not read and no descriptors.
pub fn recvmsg_full<F>(
    recvq: &mut VecDeque<QueuedPacket<F>>,
    sock_type: u16,
    state: SocketState,
    peer: PeerStatus,
    out: &mut [u8],
    flags: i32,
) -> (r: Result<(usize, Option<SockAddr>, Vec<F>, SocketCred, usize), i32>)
    ensures
        old(recvq)@.len() == 0 ==> final(out)@ == old(out)@ && final(recvq)@ == old(recvq)@,
        old(recvq)@.len() == 0 && stream_hangup(sock_type, state, peer) ==> (r matches Ok((n, p, fds, c, whole))
            && n == 0 && p is None && fds@.len() == 0 && c == (SocketCred { pid: 0, uid: 0, gid: 0 }) && whole == 0),
        old(recvq)@.len() == 0 && !stream_hangup(sock_type, state, peer) ==> r is Err && r->Err_0 == EAGAIN,
        old(recvq)@.len() > 0 ==> {
            let m = old(recvq)@[0];
            let whole = m.bytes@.len() as int;
            let n = recv_copy_len(old(out)@.len() as int, whole);
            let stream = sock_type == SOCK_STREAM;
            &&& r matches Ok((len, p, fds, c, reported)) && len == n && p == m.peer && c == m.cred
                && reported == (if stream { n } else { whole })
                && (flags & MSG_PEEK != 0 ==> fds@.len() == 0)
                && (flags & MSG_PEEK == 0 ==> fds@ == m.fds@)
            &&& final(out)@ == m.bytes@.take(n) + old(out)@.skip(n)
            &&& flags & MSG_PEEK != 0 ==> final(recvq)@ == old(recvq)@
            &&& (flags & MSG_PEEK == 0 && !(stream && n < whole)) ==> final(recvq)@ == old(recvq)@.skip(1)
            &&& (flags & MSG_PEEK == 0 && stream && n < whole) ==> {
                &&& final(recvq)@.len() == old(recvq)@.len()
                &&& final(recvq)@.skip(1) == old(recvq)@.skip(1)
                &&& final(recvq)@[0].bytes@ == m.bytes@.skip(n)
                &&& final(recvq)@[0].peer == m.peer
                &&& final(recvq)@[0].cred == m.cred
                &&& final(recvq)@[0].fds@.len() == 0
            }
        },
{
    let peek = flags & MSG_PEEK != 0;
    let is_stream = sock_type == SOCK_STREAM;
    if recvq.len() == 0 {
        if stream_hangup_locked(sock_type, state, peer) {
            return Ok((0, None, Vec::new(), SocketCred { pid: 0, uid: 0, gid: 0 }, 0));
        }
        return Err(EAGAIN);
    }
    if peek {
        let msg = &recvq[0];
        let real_len = msg.bytes.len();
        let len = if out.len() < real_len { out.len() } else { real_len };
        copy_prefix(out, msg.bytes.as_slice(), len);
        let reported = if is_stream { len } else { real_len };
        Ok((len, clone_opt_sockaddr(&msg.peer), Vec::new(), msg.cred, reported))
    } else {
        let mut msg = match recvq.pop_front() {
            Some(m) => m,
            None => return Err(EAGAIN),
        };
        let ghost first = msg;
        let real_len = msg.bytes.len();
        let len = if out.len() < real_len { out.len() } else { real_len };
        copy_prefix(out, msg.bytes.as_slice(), len);
        let peer_addr = clone_opt_sockaddr(&msg.peer);
        let cred = msg.cred;
        let mut fds: Vec<F> = Vec::new();
        std::mem::swap(&mut fds, &mut msg.fds);
        if is_stream && len < real_len {
            let rest = tail_bytes(&msg.bytes, len);
            msg.bytes = rest;
            recvq.push_front(msg);
            assert(recvq@.skip(1) =~= old(recvq)@.skip(1));
        } else {
            assert(recvq@ =~= old(recvq)@.skip(1));
        }
        let reported = if is_stream { len } else { real_len };
        Ok((len, peer_addr, fds, cred, reported))
    }
}

/// How a connect proceeds once the listener (if any) is known.
#[derive(Clone, Copy, Debug, PartialEq, Eq, Structural)]
pub enum ConnectAction {
    /// A fresh server-side socket is created, connected to the caller and
    /// queued on the listener for accept.
    Rendezvous,
    /// The socket records its peer and is connected.
    Direct,
}

/// Whether connecting this socket type meets a listener and needs a
/// server-side socket: local stream and seqpacket sockets, internet
/// stream sockets.
pub open spec fn stream_rendezvous(family: u16, sock_type: u16) -> bool {
    if family == AF_UNIX {
        sock_type == SOCK_STREAM || sock_type == SOCK_SEQPACKET
    } else if family == AF_INET || family == AF_INET6 {
        sock_type == SOCK_STREAM
    } else {
        false
    }
}

/// The address a stream connect falls back to when no socket is bound to
/// the exact address: the wildcard address on the same port.
pub fn wildcard_listener_addr(family: u16, sock_type: u16, peer: &SockAddr) -> (r: Option<SockAddr>)
    ensures
        r == (if (family == AF_INET || family == AF_INET6) && sock_type == SOCK_STREAM {
            match *peer {
                SockAddr::Inet { port, .. } => Some(SockAddr::Inet { addr: 0, port }),
                _ => None,
            }
        } else {
            None
        }),
{
    if (family == AF_INET || family == AF_INET6) && sock_type == SOCK_STREAM {
        match peer {
            SockAddr::Inet { port, .. } => Some(SockAddr::Inet { addr: 0, port: *port }),
            _ => None,
        }
    } else {
        None
    }
}

/// The outcome of a connect, given the state of the listener found at the
/// peer address (none when nothing is bound there).
pub open spec fn connect_outcome(family: u16, sock_type: u16, peer: SockAddr, listener: Option<SocketState>) -> Result<
    ConnectAction,
    i32,
> {
    if peer is Unix && listener is None {
        Err(ECONNREFUSED)
    } else if (family == AF_INET || family == AF_INET6) && sock_type == SOCK_STREAM && listener is None
        && is_loopback_dest(peer) {
        Err(ECONNREFUSED)
    } else if stream_rendezvous(family, sock_type) && listener is Some {
        if listener->Some_0 != SocketState::Listening {
            Err(ECONNREFUSED)
        } else {
            Ok(ConnectAction::Rendezvous)
        }
    } else {
        Ok(ConnectAction::Direct)
    }
}

/// Decides a connect: a local address with nothing bound, or a loopback
/// stream connect with no listener, is refused; a stream connect that
/// finds a socket needs it to be listening and meets it there; anything
/// else just records the peer.
pub fn connect_action(family: u16, sock_type: u16, peer: &SockAddr, listener: Option<SocketState>) -> (r: Result<
    ConnectAction,
    i32,
>)
    ensures
        r == connect_outcome(family, sock_type, *peer, listener),
{
    let is_unix = match peer {
        SockAddr::Unix(_) => true,
        _ => false,
    };
    if is_unix && listener.is_none() {
        return Err(ECONNREFUSED);
    }
    if (family == AF_INET || family == AF_INET6) && sock_type == SOCK_STREAM && listener.is_none()
        && inet_loopback_dest(peer) {
        return Err(ECONNREFUSED);
    }
    let rendezvous = if family == AF_UNIX {
        sock_type == SOCK_STREAM || sock_type == SOCK_SEQPACKET
    } else if family == AF_INET || family == AF_INET6 {
        sock_type == SOCK_STREAM
    } else {
        false
    };
    match listener {
        Some(state) if rendezvous => {
            if state != SocketState::Listening {
                Err(ECONNREFUSED)
            } else {
                Ok(ConnectAction::Rendezvous)
            }
        },
        _ => Ok(ConnectAction::Direct),
    }
}

/// The local address of the server-side socket a rendezvous creates: the
/// address the client dialled for internet sockets, the listener's own
/// address otherwise.
pub fn accepted_local_addr(family: u16, peer: &SockAddr, listener_local: &Option<SockAddr>) -> (r: Option<SockAddr>)
    ensures
        (family == AF_INET || family == AF_INET6) ==> r == Some(*peer),
        !(family == AF_INET || family == AF_INET6) ==> r == *listener_local,
{
    if family == AF_INET || family == AF_INET6 {
        Some(clone_sockaddr(peer))
    } else {
        clone_opt_sockaddr(listener_local)
    }
}

/// Where the port id of a netlink bind comes from.
#[derive(Clone, Copy, Debug, PartialEq, Eq, Structural)]
pub enum NetlinkAutobind {
    /// The address is used as given.
    Given,
    /// The caller's preferred port id (its process id), which is free.
    Preferred,
    /// The next id of the descending autobind counter.
    FromCounter,
}

/// How a bind to `addr` on a socket of `family` gets its port id: a netlink
/// socket binding port 0 takes `preferred` when that is non-zero and no
/// socket is bound at it with the same groups (`preferred_free`), else the
/// autobind counter's next id; any other bind uses the address as given.
pub open spec fn netlink_autobind_spec(family: u16, addr: SockAddr, preferred: u32, preferred_free: bool) -> NetlinkAutobind {
    if addr matches SockAddr::Netlink { pid, .. } && pid == 0 && family == AF_NETLINK {
        if preferred != 0 && preferred_free {
            NetlinkAutobind::Preferred
        } else {
            NetlinkAutobind::FromCounter
        }
    } else {
        NetlinkAutobind::Given
    }
}

/// See `netlink_autobind_spec`.
pub fn netlink_autobind_plan(family: u16, addr: &SockAddr, preferred: u32, preferred_free: bool) -> (r: NetlinkAutobind)
    ensures
        r == netlink_autobind_spec(family, *addr, preferred, preferred_free),
{
    match addr {
        SockAddr::Netlink { pid, .. } => {
            if *pid == 0 && family == AF_NETLINK {
                if preferred != 0 && preferred_free {
                    NetlinkAutobind::Preferred
                } else {
                    NetlinkAutobind::FromCounter
                }
            } else {
                NetlinkAutobind::Given
            }
        },
        _ => NetlinkAutobind::Given,
    }
}

/// The netlink address `addr` with port id `pid`, keeping its groups; any
/// other address unchanged.
pub fn netlink_with_pid(addr: &SockAddr, pid: u32) -> (r: SockAddr)
    ensures
        r == match *addr {
            SockAddr::Netlink { groups, .. } => SockAddr::Netlink { pid, groups },
            _ => *addr,
        },
{
    match addr {
        SockAddr::Netlink { groups, .. } => SockAddr::Netlink { pid, groups: *groups },
        _ => clone_sockaddr(addr),
    }
}

/// One end of a connection as connect sees it: its options, its local and
/// peer addresses, and the credentials of its peer.
pub struct ConnectEnd {
    pub opts: SocketOptions,
    pub local: Option<SockAddr>,
    pub peer: Option<SockAddr>,
    pub peer_cred: Option<SocketCred>,
}

/// The listening socket a connect found at the peer address.
pub struct ConnectListener {
    pub opts: SocketOptions,
    pub local: Option<SockAddr>,
    pub cred: SocketCred,
}

/// Whether connecting first binds the socket to an ephemeral address: an
/// unbound IPv4 socket does so when it meets a listener, and on a direct
/// connect toward an internet address.
pub open spec fn connect_autobinds_spec(opts: SocketOptions, local: Option<SockAddr>, peer: SockAddr, action: ConnectAction) -> bool {
    opts.family == AF_INET && local is None && (action == ConnectAction::Rendezvous || peer is Inet)
}

/// See `connect_autobinds_spec`.
pub fn connect_autobinds(end: &ConnectEnd, peer: &SockAddr, action: ConnectAction) -> (r: bool)
    ensures
        r == connect_autobinds_spec(end.opts, end.local, *peer, action),
{
    let to_inet = match peer {
        SockAddr::Inet { .. } => true,
        _ => false,
    };
    let rendezvous = match action {
        ConnectAction::Rendezvous => true,
        ConnectAction::Direct => false,
    };
    end.opts.family == AF_INET && end.local.is_none() && (rendezvous || to_inet)
}

/// The local address after connecting: `ephemeral` when the connect binds
/// the socket, else the one it had.
pub open spec fn connect_local(end: ConnectEnd, peer: SockAddr, action: ConnectAction, ephemeral: Option<SockAddr>) -> Option<SockAddr> {
    if connect_autobinds_spec(end.opts, end.local, peer, action) {
        ephemeral
    } else {
        end.local
    }
}

/// The connecting end afterwards: connected to `peer`, bound as
/// `connect_local` says. It learns the peer's credentials from the listener
/// it met; a direct local connect takes those of the socket bound at the
/// address, when there is one; other direct connects keep what they had.
pub open spec fn connect_client_spec(
    end: ConnectEnd,
    peer: SockAddr,
    action: ConnectAction,
    ephemeral: Option<SockAddr>,
    listener: Option<ConnectListener>,
) -> ConnectEnd {
    ConnectEnd {
        opts: SocketOptions { state: SocketState::Connected, ..end.opts },
        local: connect_local(end, peer, action, ephemeral),
        peer: Some(peer),
        peer_cred: if action == ConnectAction::Rendezvous || end.opts.family == AF_UNIX {
            match listener {
                Some(l) => Some(l.cred),
                None => None,
            }
        } else {
            end.peer_cred
        },
    }
}

/// The server-side end a rendezvous creates from a fresh socket with
/// options `accepted`: connected, at `accepted_local_addr`'s address, its
/// peer the client's local address and credentials `client_cred`, and the
/// listener's credential, rights and timestamp options inherited.
pub open spec fn connect_server_spec(
    client: ConnectEnd,
    peer: SockAddr,
    l: ConnectListener,
    accepted: SocketOptions,
    client_cred: SocketCred,
) -> ConnectEnd {
    ConnectEnd {
        opts: SocketOptions {
            state: SocketState::Connected,
            passcred: l.opts.passcred,
            passpidfd: l.opts.passpidfd,
            passrights: l.opts.passrights,
            timestamp_old: l.opts.timestamp_old,
            timestamp_new: l.opts.timestamp_new,
            ..accepted
        },
        local: if client.opts.family == AF_INET || client.opts.family == AF_INET6 {
            Some(peer)
        } else {
            l.local
        },
        peer: client.local,
        peer_cred: Some(client_cred),
    }
}

/// The state a connect leaves behind, once `connect_action` has chosen
/// `action`: the connecting end, and for a rendezvous the server-side end
/// to queue on the listener. A rendezvous with no listener is EINVAL.
pub fn connect_ends(
    end: ConnectEnd,
    peer: &SockAddr,
    action: ConnectAction,
    ephemeral: Option<SockAddr>,
    listener: Option<ConnectListener>,
    accepted: SocketOptions,
    client_cred: SocketCred,
) -> (r: Result<(ConnectEnd, Option<ConnectEnd>), i32>)
    ensures
        action == ConnectAction::Rendezvous && listener is None ==> r == Err::<(ConnectEnd, Option<ConnectEnd>), i32>(
            EINVAL,
        ),
        (action == ConnectAction::Rendezvous && listener is Some) ==> (r matches Ok((c, Some(srv))) && c
            == connect_client_spec(end, *peer, action, ephemeral, listener) && srv == connect_server_spec(
            c,
            *peer,
            listener->Some_0,
            accepted,
            client_cred,
        )),
        action == ConnectAction::Direct ==> (r matches Ok((c, None)) && c == connect_client_spec(
            end,
            *peer,
            action,
            ephemeral,
            listener,
        )),
{
    let autobinds = connect_autobinds(&end, peer, action);
    let local = if autobinds {
        ephemeral
    } else {
        end.local
    };
    let opts = SocketOptions { state: SocketState::Connected, ..end.opts };
    match action {
        ConnectAction::Rendezvous => {
            let l = match listener {
                Some(l) => l,
                None => return Err(EINVAL),
            };
            let server_local = accepted_local_addr(end.opts.family, peer, &l.local);
            let server = ConnectEnd {
                opts: SocketOptions {
                    state: SocketState::Connected,
                    passcred: l.opts.passcred,
                    passpidfd: l.opts.passpidfd,
                    passrights: l.opts.passrights,
                    timestamp_old: l.opts.timestamp_old,
                    timestamp_new: l.opts.timestamp_new,
                    ..accepted
                },
                local: server_local,
                peer: clone_opt_sockaddr(&local),
                peer_cred: Some(client_cred),
            };
            let client = ConnectEnd { opts, local, peer: Some(clone_sockaddr(peer)), peer_cred: Some(l.cred) };
            Ok((client, Some(server)))
        },
        ConnectAction::Direct => {
            let peer_cred = if end.opts.family == AF_UNIX {
                match listener {
                    Some(l) => Some(l.cred),
                    None => None,
                }
            } else {
                end.peer_cred
            };
            Ok((ConnectEnd { opts, local, peer: Some(clone_sockaddr(peer)), peer_cred }, None))
        },
    }
}

/// Takes the oldest pending connection of a listening socket: EINVAL when
/// the socket does not listen, EAGAIN when nothing is pending.
pub fn accept4<T>(state: SocketState, backlog: &mut VecDeque<T>) -> (r: Result<T, i32>)
    ensures
        state != SocketState::Listening ==> r == Err::<T, i32>(EINVAL) && final(backlog)@ == old(backlog)@,
        state == SocketState::Listening && old(backlog)@.len() == 0 ==> r == Err::<T, i32>(EAGAIN)
            && final(backlog)@ == old(backlog)@,
        state == SocketState::Listening && old(backlog)@.len() > 0 ==> r == Ok::<T, i32>(old(backlog)@[0])
            && final(backlog)@ == old(backlog)@.skip(1),
{
    if state != SocketState::Listening {
        return Err(EINVAL);
    }
    match backlog.pop_front() {
        Some(s) => {
            assert(backlog@ =~= old(backlog)@.skip(1));
            Ok(s)
        },
        None => Err(EAGAIN),
    }
}

/// The checks of `socketpair(2)`: local sockets only, of a type and
/// protocol a local socket may have.
pub fn socketpair_check(family: u16, sock_type: u16, protocol: u16) -> (r: Result<(), i32>)
    ensures
        family != AF_UNIX ==> r == Err::<(), i32>(EAFNOSUPPORT),
        family == AF_UNIX ==> r == unix_socket_check(sock_type, protocol),
{
    if family != AF_UNIX {
        return Err(EAFNOSUPPORT);
    }
    validate_unix_socket(sock_type, protocol)
}

/// The descriptors a send to `dest` passes on: all of them to a local
/// address, none elsewhere.
pub fn sendto_fds<F>(dest: &SockAddr, fds: Vec<F>) -> (r: Vec<F>)
    ensures
        dest is Unix ==> r@ == fds@,
        !(dest is Unix) ==> r@.len() == 0,
{
    match dest {
        SockAddr::Unix(_) => fds,
        _ => Vec::new(),
    }
}

/// A socket already bound to an address, as far as a new bind to that
/// address cares.
#[derive(Clone, Copy, Debug, PartialEq, Eq, Structural)]
pub struct BoundSocket {
    pub id: u64,
    pub reuseaddr: bool,
    pub family: u16,
    pub sock_type: u16,
    pub protocol: u16,
}

/// Whether socket `me` may share an address with `other`: both asked for
/// address reuse and they agree on family, type and protocol.
pub open spec fn may_share(me: BoundSocket, other: BoundSocket) -> bool {
    me.reuseaddr && other.reuseaddr && other.family == me.family && other.sock_type == me.sock_type
        && other.protocol == me.protocol
}

/// Whether binding `me` to an address that `bound` already hold is
/// refused with EADDRINUSE: some other socket there may not share it.
pub fn bind_conflict(me: BoundSocket, bound: &Vec<BoundSocket>) -> (r: Result<(), i32>)
    ensures
        r is Ok <==> (forall|i: int| 0 <= i < bound@.len() && bound@[i].id != me.id ==> may_share(me, #[trigger] bound@[i])),
        r is Err ==> r->Err_0 == EADDRINUSE,
{
    let mut i: usize = 0;
    while i < bound.len()
        invariant
            i <= bound@.len(),
            forall|j: int| 0 <= j < i && bound@[j].id != me.id ==> may_share(me, #[trigger] bound@[j]),
        decreases bound@.len() - i,
    {
        let other = bound[i];
        if other.id != me.id && (!me.reuseaddr || !other.reuseaddr || other.family != me.family
            || other.sock_type != me.sock_type || other.protocol != me.protocol) {
            return Err(EADDRINUSE);
        }
        i += 1;
    }
    Ok(())
}

/// The most segments one vectored call may name.
pub const UIO_MAXIOV: usize = 1024;
/// The most bytes one send gathers.
pub const MAX_RW: usize = 1048576;

/// The lengths of the first `k` segments added, stopping at the largest
/// `usize`.
pub open spec fn saturating_total(lens: Seq<usize>, k: int) -> int
    decreases k,
{
    if k <= 0 {
        0
    } else {
        let t = saturating_total(lens, k - 1) + lens[k - 1];
        if t > usize::MAX { usize::MAX as int } else { t }
    }
}

/// The total length of the segments of a vectored call, saturating at the
/// largest `usize`; EINVAL for more than 1024 segments.
pub fn iov_total_bytes(lens: &[usize]) -> (r: Result<usize, i32>)
    ensures
        lens@.len() > UIO_MAXIOV ==> r == Err::<usize, i32>(EINVAL),
        lens@.len() <= UIO_MAXIOV ==> r == Ok::<usize, i32>(saturating_total(lens@, lens@.len() as int) as usize),
{
    if lens.len() > UIO_MAXIOV {
        return Err(EINVAL);
    }
    let mut total: usize = 0;
    let mut i: usize = 0;
    while i < lens.len()
        invariant
            i <= lens@.len(),
            total == saturating_total(lens@, i as int),
        decreases lens@.len() - i,
    {
        total = if total > usize::MAX - lens[i] { usize::MAX } else { total + lens[i] };
        i += 1;
    }
    Ok(total)
}

/// The bytes of the first `k` segments, one after the other.
pub open spec fn gathered(segs: Seq<Vec<u8>>, k: int) -> Seq<u8>
    decreases k,
{
    if k <= 0 {
        Seq::empty()
    } else {
        gathered(segs, k - 1) + segs[k - 1]@
    }
}

proof fn lemma_gathered_grows(segs: Seq<Vec<u8>>, i: int, k: int)
    requires
        0 <= i <= k,
    ensures
        gathered(segs, i).len() <= gathered(segs, k).len(),
    decreases k - i,
{
    if i < k {
        lemma_gathered_grows(segs, i, k - 1);
    }
}

/// Gathers the bytes a vectored send names, segment after segment; EINVAL
/// when they come to more than 1 MiB.
pub fn copy_iov_bytes(segs: &Vec<Vec<u8>>) -> (r: Result<Vec<u8>, i32>)
    ensures
        gathered(segs@, segs@.len() as int).len() > MAX_RW ==> r == Err::<Vec<u8>, i32>(EINVAL),
        gathered(segs@, segs@.len() as int).len() <= MAX_RW ==> (r matches Ok(v) && v@ == gathered(
            segs@,
            segs@.len() as int,
        )),
{
    let mut bytes: Vec<u8> = Vec::new();
    let mut n: usize = 0;
    while n < segs.len()
        invariant
            n <= segs@.len(),
            bytes@ == gathered(segs@, n as int),
            bytes@.len() <= MAX_RW,
        decreases segs@.len() - n,
    {
        let seg = &segs[n];
        if seg.len() > MAX_RW - bytes.len() {
            proof {
                lemma_gathered_grows(segs@, n + 1, segs@.len() as int);
            }
            return Err(EINVAL);
        }
        push_bytes(&mut bytes, seg.as_slice());
        n += 1;
    }
    Ok(bytes)
}

/// Where the `i`-th segment starts in a gathered stream, and how many bytes
/// of `total` it takes.
pub open spec fn scatter_start(lens: Seq<int>, i: int, total: int) -> int
    decreases i,
{
    if i <= 0 {
        0
    } else {
        let prev = scatter_start(lens, i - 1, total);
        prev + scatter_take(lens[i - 1], prev, total)
    }
}

/// How many bytes a segment of `len` bytes takes when `start` bytes of
/// `total` are already placed.
pub open spec fn scatter_take(len: int, start: int, total: int) -> int {
    if total - start < len { total - start } else { len }
}

/// The lengths of the segment buffers.
pub open spec fn seg_lens(segs: Seq<Vec<u8>>) -> Seq<int> {
    Seq::new(segs.len(), |i: int| segs[i]@.len() as int)
}

/// Spreads `bytes` over the segment buffers in order, each filled from its
/// start as far as the bytes go; returns how many bytes were placed.
pub fn scatter_iov_bytes(segs: &mut Vec<Vec<u8>>, bytes: &[u8]) -> (r: usize)
    ensures
        final(segs)@.len() == old(segs)@.len(),
        r == scatter_start(seg_lens(old(segs)@), old(segs)@.len() as int, bytes@.len() as int),
        forall|i: int|
            0 <= i < old(segs)@.len() ==> {
                let start = scatter_start(seg_lens(old(segs)@), i, bytes@.len() as int);
                let take = scatter_take(old(segs)@[i]@.len() as int, start, bytes@.len() as int);
                #[trigger] final(segs)@[i]@ == bytes@.subrange(start, start + take) + old(segs)@[i]@.skip(take)
            },
{
    let ghost lens = seg_lens(segs@);
    let ghost orig = segs@;
    let total = bytes.len();
    let mut copied: usize = 0;
    let mut n: usize = 0;
    while n < segs.len()
        invariant
            n <= orig.len(),
            segs@.len() == orig.len(),
            lens == seg_lens(orig),
            total == bytes@.len(),
            copied == scatter_start(lens, n as int, total as int),
            copied <= total,
            forall|i: int| n <= i < orig.len() ==> #[trigger] segs@[i] == orig[i],
            forall|i: int|
                0 <= i < n ==> {
                    let start = scatter_start(lens, i, total as int);
                    let take = scatter_take(orig[i]@.len() as int, start, total as int);
                    #[trigger] segs@[i]@ == bytes@.subrange(start, start + take) + orig[i]@.skip(take)
                },
        decreases orig.len() - n,
    {
        let len = segs[n].len();
        let take: usize = if total - copied < len { total - copied } else { len };
        let mut seg: Vec<u8> = Vec::new();
        push_bytes(&mut seg, slice_range(bytes, copied, copied + take));
        let old_seg = &segs[n];
        let rest = tail_bytes(old_seg, take);
        push_bytes(&mut seg, rest.as_slice());
        let ghost s = seg@;
        segs.set(n, seg);
        assert(segs@[n as int]@ == s);
        copied = copied + take;
        n += 1;
    }
    copied
}

/// Who answers a netlink send.
#[derive(Clone, Copy, Debug, PartialEq, Eq, Structural)]
pub enum NetlinkSend {
    /// Not addressed to the kernel: it goes to a bound socket.
    Peer,
    /// The kernel's audit service answers.
    Audit,
    /// The kernel's routing service answers.
    Route,
    /// The kernel answers with EOPNOTSUPP.
    Unsupported,
}

/// Who answers a send on a socket of this family and protocol to `dest`
/// (none for a connected send): netlink sends to port 0 or without an
/// address go to the kernel.
pub fn netlink_send_target(family: u16, protocol: u16, dest: &Option<SockAddr>) -> (r: NetlinkSend)
    ensures
        r == (if family != AF_NETLINK || !(match *dest {
            None => true,
            Some(SockAddr::Netlink { pid, .. }) => pid == 0,
            _ => false,
        }) {
            NetlinkSend::Peer
        } else if protocol == NETLINK_AUDIT {
            NetlinkSend::Audit
        } else if protocol == NETLINK_ROUTE {
            NetlinkSend::Route
        } else {
            NetlinkSend::Unsupported
        }),
{
    let to_kernel = match dest {
        None => true,
        Some(SockAddr::Netlink { pid, .. }) => *pid == 0,
        _ => false,
    };
    if family != AF_NETLINK || !to_kernel {
        NetlinkSend::Peer
    } else if protocol == NETLINK_AUDIT {
        NetlinkSend::Audit
    } else if protocol == NETLINK_ROUTE {
        NetlinkSend::Route
    } else {
        NetlinkSend::Unsupported
    }
}

/// How the routing service answers a request.
#[derive(Clone, Copy, Debug, PartialEq, Eq, Structural)]
pub enum RouteReply {
    /// One link message per device, then DONE.
    LinkDump,
    /// An empty dump: DONE alone.
    Done,
    /// An error message carrying this (negative) errno, or 0 to acknowledge.
    Error(i32),
}

/// The routing service's answer to a request of this type: link dumps,
/// empty dumps for addresses, neighbours, next hops and routes,
/// acknowledgements for link and address changes, and EOPNOTSUPP for the
/// rest.
pub fn route_netlink_reply(msg_type: u16) -> (r: RouteReply)
    ensures
        r == (if msg_type == RTM_GETLINK {
            RouteReply::LinkDump
        } else if msg_type == RTM_GETADDR || msg_type == RTM_GETNEIGH || msg_type == RTM_GETNEXTHOP
            || msg_type == RTM_GETROUTE {
            RouteReply::Done
        } else if msg_type == RTM_SETLINK || msg_type == RTM_NEWLINK || msg_type == RTM_DELLINK
            || msg_type == RTM_NEWADDR || msg_type == RTM_DELADDR {
            RouteReply::Error(0)
        } else {
            RouteReply::Error((-EOPNOTSUPP) as i32)
        }),
{
    if msg_type == RTM_GETLINK {
        RouteReply::LinkDump
    } else if msg_type == RTM_GETADDR || msg_type == RTM_GETNEIGH || msg_type == RTM_GETNEXTHOP
        || msg_type == RTM_GETROUTE {
        RouteReply::Done
    } else if msg_type == RTM_SETLINK || msg_type == RTM_NEWLINK || msg_type == RTM_DELLINK
        || msg_type == RTM_NEWADDR || msg_type == RTM_DELADDR {
        RouteReply::Error(0)
    } else {
        RouteReply::Error(-EOPNOTSUPP)
    }
}

/// Whether joining `group` needs CAP_AUDIT_READ: joining the audit log
/// readers on an audit netlink socket.
pub fn membership_needs_audit_read(family: u16, protocol: u16, group: u32, add: bool) -> (r: bool)
    ensures
        r == (add && group == AUDIT_NLGRP_READLOG && family == AF_NETLINK && protocol == NETLINK_AUDIT),
{
    add && group == AUDIT_NLGRP_READLOG && family == AF_NETLINK && protocol == NETLINK_AUDIT
}

/// The local address after joining (`add`) or leaving netlink multicast
/// group `group`, 1 to 32: its bit in the group set is set or cleared.
/// EINVAL for another group, a socket of another family, or one without a
/// netlink address.
pub fn netlink_membership_update(family: u16, local: &Option<SockAddr>, group: u32, add: bool) -> (r: Result<
    SockAddr,
    i32,
>)
    ensures
        (group == 0 || group > 32 || family != AF_NETLINK || !(local matches Some(SockAddr::Netlink { .. })))
            ==> r == Err::<SockAddr, i32>(EINVAL),
        !(group == 0 || group > 32 || family != AF_NETLINK) ==> match *local {
            Some(SockAddr::Netlink { pid, groups }) => r == Ok::<SockAddr, i32>(SockAddr::Netlink {
                pid,
                groups: if add { groups | (1u32 << (group - 1)) } else { groups & !(1u32 << (group - 1)) },
            }),
            _ => true,
        },
{
    if group == 0 || group > 32 {
        return Err(EINVAL);
    }
    if family != AF_NETLINK {
        return Err(EINVAL);
    }
    let mask: u32 = 1u32 << (group - 1);
    match local {
        Some(SockAddr::Netlink { pid, groups }) => {
            let next = if add { *groups | mask } else { *groups & !mask };
            Ok(SockAddr::Netlink { pid: *pid, groups: next })
        },
        _ => Err(EINVAL),
    }
}

/// `SCM_PIDFD`, the pidfd control message type.
pub const SCM_PIDFD: i32 = 4;

/// A control message: the 64-bit length (header and data), level, type,
/// and data.
pub open spec fn cmsg_bytes(level: i32, kind: i32, data: Seq<u8>) -> Seq<u8> {
    let total = CMSG_HDR_LEN + data.len();
    le32_bytes(total as u32) + le32_bytes((total / 4294967296) as u32) + le32_bytes(level as u32)
        + le32_bytes(kind as u32) + data
}

/// Where a control message goes in a receiver's control buffer of
/// `controllen` bytes (none when there is no buffer).
pub struct CmsgPlacement {
    /// The offset after the message, aligned to eight bytes.
    pub next: usize,
    /// Whether the message was dropped for want of room.
    pub truncated: bool,
    /// The bytes to write at the old offset (empty when dropped).
    pub bytes: Vec<u8>,
}

/// Places a control message at `offset` of a control buffer of
/// `controllen` bytes: without a buffer, or when the whole message does not
/// fit, it is dropped and marked truncated (no partial message is
/// written); else its bytes go at `offset` and the next offset is the end
/// rounded up to eight.
pub fn place_cmsg(has_buffer: bool, controllen: usize, offset: usize, level: i32, kind: i32, data: &[u8]) -> (r:
    CmsgPlacement)
    requires
        offset <= controllen,
        controllen + 8 <= usize::MAX,
        data@.len() + CMSG_HDR_LEN + 8 <= usize::MAX,
    ensures
        (!has_buffer || offset + CMSG_HDR_LEN + data@.len() > controllen) ==> r.next == offset && r.truncated
            && r.bytes@.len() == 0,
        !(!has_buffer || offset + CMSG_HDR_LEN + data@.len() > controllen) ==> !r.truncated && r.bytes@ == cmsg_bytes(
            level,
            kind,
            data@,
        ) && r.next == offset + cmsg_aligned(CMSG_HDR_LEN + data@.len()),
{
    let total = CMSG_HDR_LEN + data.len();
    if !has_buffer || total > controllen - offset {
        return CmsgPlacement { next: offset, truncated: true, bytes: Vec::new() };
    }
    let mut bytes: Vec<u8> = Vec::new();
    let t64 = total as u64;
    push_bytes(&mut bytes, &u32_to_le_bytes((t64 % 4294967296) as u32));
    push_bytes(&mut bytes, &u32_to_le_bytes((t64 / 4294967296) as u32));
    push_bytes(&mut bytes, &u32_to_le_bytes(level as u32));
    push_bytes(&mut bytes, &u32_to_le_bytes(kind as u32));
    push_bytes(&mut bytes, data);
    assert((total as u32) == ((t64 % 4294967296) as u32)) by (bit_vector)
        requires
            t64 == total,
    ;
    let step = cmsg_align(total);
    CmsgPlacement { next: offset + step, truncated: false, bytes }
}

pub const MSG_CTRUNC: i32 = 0x0008;

/// A control message that a receive can attach.
#[derive(Clone, Copy, Debug, PartialEq, Eq, Structural)]
pub enum CmsgKind {
    /// SCM_CREDENTIALS: the sender's credentials.
    Credentials,
    /// SCM_PIDFD: a pidfd of the sender.
    Pidfd,
    /// NETLINK_PKTINFO: the multicast group the message came on.
    NetlinkPktinfo,
    /// IP_PKTINFO: the interface and addresses the datagram came by.
    Ipv4Pktinfo,
    /// IP_TTL: the datagram's time to live.
    Ttl,
    /// SCM_RIGHTS: the descriptors passed along.
    Rights,
}

/// The control messages a receive attaches, in the order they are placed:
/// credentials and pidfd when asked for, the netlink packet info for a
/// netlink message on a netlink socket, the IPv4 packet info (when the
/// local address is known) and TTL for an internet datagram on an IPv4
/// socket, and the descriptors last. All but the descriptors need a
/// received packet.
pub open spec fn recv_cmsg_kinds(
    opts: SocketOptions,
    recv_pktinfo: bool,
    had_packet: bool,
    peer: Option<SockAddr>,
    meta: PacketMeta,
    nfds: nat,
) -> Seq<CmsgKind> {
    let nl_peer = peer is Some && peer->Some_0 is Netlink;
    let inet_peer = peer is Some && peer->Some_0 is Inet;
    (if opts.passcred && had_packet { seq![CmsgKind::Credentials] } else { Seq::empty() })
        + (if opts.passpidfd && had_packet { seq![CmsgKind::Pidfd] } else { Seq::empty() })
        + (if had_packet && recv_pktinfo && nl_peer && opts.family == AF_NETLINK {
        seq![CmsgKind::NetlinkPktinfo]
    } else {
        Seq::empty()
    }) + (if had_packet && recv_pktinfo && inet_peer && opts.family == AF_INET && meta.local_inet_addr is Some {
        seq![CmsgKind::Ipv4Pktinfo]
    } else {
        Seq::empty()
    }) + (if had_packet && opts.recv_ttl && inet_peer && opts.family == AF_INET {
        seq![CmsgKind::Ttl]
    } else {
        Seq::empty()
    }) + (if nfds > 0 { seq![CmsgKind::Rights] } else { Seq::empty() })
}

/// Which control messages a receive attaches, in order; see
/// `recv_cmsg_kinds`.
pub fn recvmsg_control_plan(
    opts: &SocketOptions,
    recv_pktinfo: bool,
    had_packet: bool,
    peer: &Option<SockAddr>,
    meta: &PacketMeta,
    nfds: usize,
) -> (r: Vec<CmsgKind>)
    ensures
        r@ == recv_cmsg_kinds(*opts, recv_pktinfo, had_packet, *peer, *meta, nfds as nat),
{
    let nl_peer = match peer {
        Some(SockAddr::Netlink { .. }) => true,
        _ => false,
    };
    let inet_peer = match peer {
        Some(SockAddr::Inet { .. }) => true,
        _ => false,
    };
    let mut r: Vec<CmsgKind> = Vec::new();
    if opts.passcred && had_packet {
        r.push(CmsgKind::Credentials);
    }
    if opts.passpidfd && had_packet {
        r.push(CmsgKind::Pidfd);
    }
    if had_packet && recv_pktinfo && nl_peer && opts.family == AF_NETLINK {
        r.push(CmsgKind::NetlinkPktinfo);
    }
    if had_packet && recv_pktinfo && inet_peer && opts.family == AF_INET && meta.local_inet_addr.is_some() {
        r.push(CmsgKind::Ipv4Pktinfo);
    }
    if had_packet && opts.recv_ttl && inet_peer && opts.family == AF_INET {
        r.push(CmsgKind::Ttl);
    }
    if nfds > 0 {
        r.push(CmsgKind::Rights);
    }
    assert(r@ =~= recv_cmsg_kinds(*opts, recv_pktinfo, had_packet, *peer, *meta, nfds as nat));
    r
}

/// A control message to place: its level, type and data.
pub struct CmsgItem {
    pub level: i32,
    pub kind: i32,
    pub data: Vec<u8>,
}

/// Bytes to write at an offset of the receiver's control buffer.
pub struct CmsgWrite {
    pub offset: usize,
    pub bytes: Vec<u8>,
}

/// Where a receive's control messages go.
pub struct CmsgLayout {
    /// The messages that fit, each at its offset.
    pub writes: Vec<CmsgWrite>,
    /// The control length reported back: the end of the last placed
    /// message, aligned to eight.
    pub written: usize,
    /// Whether some message was dropped for want of room (MSG_CTRUNC).
    pub truncated: bool,
}

/// The layout of `items` in a control buffer of `controllen` bytes (none
/// when `has_buffer` is false): each in turn goes at the current offset
/// when it fits whole, moving the offset on by its aligned length;
/// otherwise it is dropped and the layout marked truncated.
pub open spec fn cmsg_layout(has_buffer: bool, controllen: int, items: Seq<CmsgItem>) -> (Seq<(int, Seq<u8>)>, int, bool)
    decreases items.len(),
{
    if items.len() == 0 {
        (Seq::empty(), 0, false)
    } else {
        let prev = cmsg_layout(has_buffer, controllen, items.drop_last());
        let m = items.last();
        let total = CMSG_HDR_LEN + m.data@.len();
        if !has_buffer || prev.1 + total > controllen {
            (prev.0, prev.1, true)
        } else {
            (prev.0.push((prev.1, cmsg_bytes(m.level, m.kind, m.data@))), prev.1 + cmsg_aligned(total), prev.2)
        }
    }
}

/// The view of placed writes.
pub open spec fn cmsg_writes_view(w: Seq<CmsgWrite>) -> Seq<(int, Seq<u8>)> {
    w.map_values(|x: CmsgWrite| (x.offset as int, x.bytes@))
}

proof fn lemma_cmsg_layout_offset(has_buffer: bool, controllen: int, items: Seq<CmsgItem>)
    requires
        controllen >= 0,
    ensures
        0 <= cmsg_layout(has_buffer, controllen, items).1 <= controllen + 7,
    decreases items.len(),
{
    if items.len() > 0 {
        lemma_cmsg_layout_offset(has_buffer, controllen, items.drop_last());
    }
}

/// Lays out a receive's control messages; see `cmsg_layout`.
pub fn recvmsg_control_layout(has_buffer: bool, controllen: usize, items: &Vec<CmsgItem>) -> (r: CmsgLayout)
    requires
        controllen <= usize::MAX - 8,
    ensures
        (cmsg_writes_view(r.writes@), r.written as int, r.truncated) == cmsg_layout(has_buffer, controllen as int, items@),
{
    let mut writes: Vec<CmsgWrite> = Vec::new();
    let mut offset: usize = 0;
    let mut truncated = false;
    let mut i: usize = 0;
    while i < items.len()
        invariant
            i <= items@.len(),
            controllen <= usize::MAX - 8,
            (cmsg_writes_view(writes@), offset as int, truncated) == cmsg_layout(has_buffer, controllen as int, items@.take(i as int)),
        decreases items@.len() - i,
    {
        assert(items@.take(i + 1).drop_last() =~= items@.take(i as int));
        proof {
            lemma_cmsg_layout_offset(has_buffer, controllen as int, items@.take(i as int));
        }
        let m = &items[i];
        let fits = has_buffer && m.data.len() <= controllen && CMSG_HDR_LEN <= controllen - m.data.len()
            && offset <= controllen - CMSG_HDR_LEN - m.data.len();
        if fits {
            let total = CMSG_HDR_LEN + m.data.len();
            let p = place_cmsg(true, controllen, offset, m.level, m.kind, m.data.as_slice());
            let ghost before = writes@;
            writes.push(CmsgWrite { offset, bytes: p.bytes });
            assert(cmsg_writes_view(writes@) =~= cmsg_writes_view(before).push((offset as int, cmsg_bytes(m.level, m.kind, m.data@))));
            offset = p.next;
            assert(total as int == CMSG_HDR_LEN + m.data@.len());
        } else {
            truncated = true;
        }
        i += 1;
    }
    assert(items@.take(items@.len() as int) =~= items@);
    CmsgLayout { writes, written: offset, truncated }
}

/// The flags a receive reports: MSG_TRUNC when the message was longer than
/// the caller's buffers, MSG_CTRUNC when a control message was dropped.
pub fn recvmsg_out_flags(real_len: usize, buffer_len: usize, control_truncated: bool) -> (r: i32)
    ensures
        r == (if real_len > buffer_len { MSG_TRUNC } else { 0 }) | (if control_truncated { MSG_CTRUNC } else { 0 }),
{
    let t: i32 = if real_len > buffer_len { MSG_TRUNC } else { 0 };
    let c: i32 = if control_truncated { MSG_CTRUNC } else { 0 };
    t | c
}

/// The data of an SCM_RIGHTS message: the descriptors in host order.
pub open spec fn fds_bytes(fds: Seq<i32>) -> Seq<u8>
    decreases fds.len(),
{
    if fds.len() == 0 { Seq::empty() } else { fds_bytes(fds.drop_last()) + le32_bytes(fds.last() as u32) }
}

/// The data of an SCM_RIGHTS message.
pub fn scm_rights_payload(fds: &[i32]) -> (r: Vec<u8>)
    ensures
        r@ == fds_bytes(fds@),
{
    let mut out: Vec<u8> = Vec::new();
    let mut i: usize = 0;
    while i < fds.len()
        invariant
            i <= fds@.len(),
            out@ == fds_bytes(fds@.take(i as int)),
        decreases fds@.len() - i,
    {
        push_bytes(&mut out, &u32_to_le_bytes(fds[i] as u32));
        i += 1;
        assert(fds@.take(i as int).drop_last() =~= fds@.take(i - 1));
    }
    assert(fds@.take(fds@.len() as int) =~= fds@);
    out
}

/// The data of an SCM_CREDENTIALS message: pid, uid, gid in host order.
pub fn ucred_payload(cred: SocketCred) -> (r: Vec<u8>)
    ensures
        r@ == le32_bytes(cred.pid as u32) + le32_bytes(cred.uid) + le32_bytes(cred.gid),
{
    let mut out: Vec<u8> = Vec::new();
    push_bytes(&mut out, &u32_to_le_bytes(cred.pid as u32));
    push_bytes(&mut out, &u32_to_le_bytes(cred.uid));
    push_bytes(&mut out, &u32_to_le_bytes(cred.gid));
    out
}

/// The data of an IP_PKTINFO message: the interface, then the local address
/// twice in network order (zero when unknown).
pub fn ipv4_pktinfo_payload(meta: PacketMeta) -> (r: Vec<u8>)
    ensures
        r@ == le32_bytes(meta.ifindex) + (match meta.local_inet_addr {
            Some(a) => be32_bytes(a) + be32_bytes(a),
            None => zeros(8),
        }),
{
    let mut out: Vec<u8> = Vec::new();
    push_bytes(&mut out, &u32_to_le_bytes(meta.ifindex));
    match meta.local_inet_addr {
        Some(a) => {
            push_bytes(&mut out, &u32_to_be_bytes(a));
            push_bytes(&mut out, &u32_to_be_bytes(a));
        },
        None => push_zeros(&mut out, 8),
    }
    out
}

pub const POLLIN: u32 = 0x1;
pub const POLLOUT: u32 = 0x4;
pub const POLLERR: u32 = 0x8;
pub const POLLHUP: u32 = 0x10;
pub const POLLRDNORM: u32 = 0x40;
pub const POLLWRNORM: u32 = 0x100;
pub const POLLRDHUP: u32 = 0x2000;
pub const RCV_SHUTDOWN: u32 = 1;
pub const SEND_SHUTDOWN: u32 = 2;
pub const SHUTDOWN_MASK: u32 = 3;

/// What a socket's readiness depends on.
#[derive(Clone, Copy, Debug, PartialEq, Eq, Structural)]
pub struct PollState {
    pub state: SocketState,
    pub sock_type: u16,
    pub recvq_empty: bool,
    pub backlog_empty: bool,
    pub shutdown: u32,
    pub hung_up: bool,
    pub pending_error: bool,
}

/// The poll mask of a socket: readable when something waits (a connection
/// on a listener, data otherwise), when reads are shut down, when a stream
/// hung up, or on an error; writable when connected, and for datagram and
/// raw sockets that are neither closed nor listening; read hang-up on a
/// read shutdown or hang-up; hang-up when fully shut down, closed or hung
/// up; error on a pending error.
pub open spec fn poll_mask(p: PollState) -> u32 {
    let rd_shut = p.shutdown & RCV_SHUTDOWN != 0;
    let readable = if p.state == SocketState::Listening {
        !p.backlog_empty || rd_shut || p.pending_error
    } else {
        !p.recvq_empty || rd_shut || p.hung_up || p.pending_error
    };
    let dgram_writable = (p.sock_type == SOCK_DGRAM || p.sock_type == SOCK_RAW) && p.state != SocketState::Closed
        && p.state != SocketState::Listening;
    (if readable || rd_shut || p.hung_up { POLLIN | POLLRDNORM } else { 0 })
        | (if p.state == SocketState::Connected || dgram_writable { POLLOUT | POLLWRNORM } else { 0 })
        | (if rd_shut || p.hung_up { POLLRDHUP } else { 0 })
        | (if p.shutdown == SHUTDOWN_MASK || p.state == SocketState::Closed || p.hung_up { POLLHUP } else { 0 })
        | (if p.pending_error { POLLERR } else { 0 })
}

/// The poll mask of a socket in this state.
pub fn socket_poll_mask(p: PollState) -> (r: u32)
    ensures
        r == poll_mask(p),
{
    let rd_shut = p.shutdown & RCV_SHUTDOWN != 0;
    let readable = if p.state == SocketState::Listening {
        !p.backlog_empty || rd_shut || p.pending_error
    } else {
        !p.recvq_empty || rd_shut || p.hung_up || p.pending_error
    };
    let dgram_writable = (p.sock_type == SOCK_DGRAM || p.sock_type == SOCK_RAW) && p.state != SocketState::Closed
        && p.state != SocketState::Listening;
    let a: u32 = if readable || rd_shut || p.hung_up { POLLIN | POLLRDNORM } else { 0 };
    let b: u32 = if p.state == SocketState::Connected || dgram_writable { POLLOUT | POLLWRNORM } else { 0 };
    let c: u32 = if rd_shut || p.hung_up { POLLRDHUP } else { 0 };
    let d: u32 = if p.shutdown == SHUTDOWN_MASK || p.state == SocketState::Closed || p.hung_up { POLLHUP } else { 0 };
    let e: u32 = if p.pending_error { POLLERR } else { 0 };
    a | b | c | d | e
}

/// The byte form of an internet or netlink address reads back as that
/// address: its family, length and fields are where the reader looks for
/// them.
pub proof fn lemma_sockaddr_wire_reads_back(a: SockAddr)
    requires
        !(a is Unix),
        !(a is Packet),
    ensures
        match a {
            SockAddr::Inet { addr, port } => {
                let w = sockaddr_wire(a)->Some_0;
                &&& w.len() == 16 && wire_family(w) == AF_INET
                &&& be32_at(w, 4) == addr && be16_at(w, 2) == port
            },
            SockAddr::Inet6 { addr, port } => {
                let w = sockaddr_wire(a)->Some_0;
                &&& w.len() == 28 && wire_family(w) == AF_INET6
                &&& w.subrange(8, 24) == addr@ && be16_at(w, 2) == port
            },
            SockAddr::Netlink { pid, groups } => {
                let w = sockaddr_wire(a)->Some_0;
                &&& w.len() == 12 && wire_family(w) == AF_NETLINK
                &&& le32_at(w, 4) == pid && le32_at(w, 8) == groups
            },
            _ => true,
        },
{
    match a {
        SockAddr::Inet { addr, port } => {
            let w = sockaddr_wire(a)->Some_0;
            crate::bytes::lemma_be32_roundtrip(addr);
            crate::bytes::lemma_be16_roundtrip(port);
            crate::bytes::lemma_le16_roundtrip(AF_INET);
            assert(w.subrange(4, 8) =~= be32_bytes(addr));
            assert(w[4] == be32_bytes(addr)[0] && w[5] == be32_bytes(addr)[1]);
            assert(w[6] == be32_bytes(addr)[2] && w[7] == be32_bytes(addr)[3]);
            assert(w[2] == be16_bytes(port)[0] && w[3] == be16_bytes(port)[1]);
            assert(w[0] == le16_bytes(AF_INET)[0] && w[1] == le16_bytes(AF_INET)[1]);
        },
        SockAddr::Inet6 { addr, port } => {
            let w = sockaddr_wire(a)->Some_0;
            crate::bytes::lemma_be16_roundtrip(port);
            crate::bytes::lemma_le16_roundtrip(AF_INET6);
            assert(w.subrange(8, 24) =~= addr@);
            assert(w[2] == be16_bytes(port)[0] && w[3] == be16_bytes(port)[1]);
            assert(w[0] == le16_bytes(AF_INET6)[0] && w[1] == le16_bytes(AF_INET6)[1]);
        },
        SockAddr::Netlink { pid, groups } => {
            let w = sockaddr_wire(a)->Some_0;
            crate::bytes::lemma_le32_roundtrip(pid);
            crate::bytes::lemma_le32_roundtrip(groups);
            crate::bytes::lemma_le16_roundtrip(AF_NETLINK);
            assert(w[4] == le32_bytes(pid)[0] && w[5] == le32_bytes(pid)[1]);
            assert(w[6] == le32_bytes(pid)[2] && w[7] == le32_bytes(pid)[3]);
            assert(w[8] == le32_bytes(groups)[0] && w[9] == le32_bytes(groups)[1]);
            assert(w[10] == le32_bytes(groups)[2] && w[11] == le32_bytes(groups)[3]);
            assert(w[0] == le16_bytes(AF_NETLINK)[0] && w[1] == le16_bytes(AF_NETLINK)[1]);
        },
        _ => {},
    }
}

/// The `mask` bit that asks to set the audit daemon's pid.
pub const AUDIT_STATUS_PID: u32 = 0x4;

/// The audit status record exchanged by AUDIT_GET and AUDIT_SET.
#[derive(Clone, Copy, Debug, Default, PartialEq, Eq, Structural)]
pub struct AuditStatus {
    pub mask: u32,
    pub enabled: u32,
    pub failure: u32,
    pub pid: u32,
    pub rate_limit: u32,
    pub backlog_limit: u32,
    pub lost: u32,
    pub backlog: u32,
    pub feature_bitmap: u32,
    pub backlog_wait_time: u32,
    pub backlog_wait_time_actual: u32,
}

/// The status record's fields, in wire order.
pub open spec fn audit_fields(s: AuditStatus) -> Seq<u32> {
    seq![
        s.mask,
        s.enabled,
        s.failure,
        s.pid,
        s.rate_limit,
        s.backlog_limit,
        s.lost,
        s.backlog,
        s.feature_bitmap,
        s.backlog_wait_time,
        s.backlog_wait_time_actual,
    ]
}

/// The host-order bytes of a sequence of words.
pub open spec fn words_bytes(w: Seq<u32>) -> Seq<u8>
    decreases w.len(),
{
    if w.len() == 0 { Seq::empty() } else { words_bytes(w.drop_last()) + le32_bytes(w.last()) }
}

fn push_words(out: &mut Vec<u8>, w: &[u32])
    ensures
        final(out)@ == old(out)@ + words_bytes(w@),
{
    let mut i: usize = 0;
    while i < w.len()
        invariant
            i <= w@.len(),
            out@ == old(out)@ + words_bytes(w@.take(i as int)),
        decreases w@.len() - i,
    {
        push_bytes(out, &u32_to_le_bytes(w[i]));
        i += 1;
        assert(w@.take(i as int).drop_last() =~= w@.take(i - 1));
        assert(out@ =~= old(out)@ + words_bytes(w@.take(i as int)));
    }
    assert(w@.take(w@.len() as int) =~= w@);
}

/// The 44 bytes of an audit status record.
pub fn audit_status_to_bytes(status: AuditStatus) -> (r: Vec<u8>)
    ensures
        r@ == words_bytes(audit_fields(status)),
{
    let fields = [
        status.mask,
        status.enabled,
        status.failure,
        status.pid,
        status.rate_limit,
        status.backlog_limit,
        status.lost,
        status.backlog,
        status.feature_bitmap,
        status.backlog_wait_time,
        status.backlog_wait_time_actual,
    ];
    assert(fields@ =~= audit_fields(status));
    let mut out: Vec<u8> = Vec::new();
    push_words(&mut out, &fields);
    out
}

/// The audit features record: version 1, no features.
pub fn audit_features_to_bytes() -> (r: Vec<u8>)
    ensures
        r@ == words_bytes(seq![1u32, 0u32, 0u32, 0u32]),
{
    let fields = [1u32, 0u32, 0u32, 0u32];
    assert(fields@ =~= seq![1u32, 0u32, 0u32, 0u32]);
    let mut out: Vec<u8> = Vec::new();
    push_words(&mut out, &fields);
    out
}

/// Field `idx` of an AUDIT_SET payload, 0 when the payload is too short.
pub open spec fn payload_field(payload: Seq<u8>, idx: int) -> u32 {
    if payload.len() < idx * 4 + 4 { 0 } else { le32_at(payload, idx * 4) }
}

fn read_field(payload: &[u8], idx: usize) -> (r: u32)
    requires
        idx < 11,
    ensures
        r == payload_field(payload@, idx as int),
{
    let off = idx * 4;
    if payload.len() < off + 4 {
        0
    } else {
        read_le32(payload, off)
    }
}

/// The status an AUDIT_SET payload asks for: each field read in turn
/// (0 past the end of the payload), and `fallback_pid` as the daemon's pid
/// when the pid bit is set with pid 0.
pub open spec fn audit_set_status(payload: Seq<u8>, fallback_pid: u32) -> AuditStatus {
    AuditStatus {
        mask: payload_field(payload, 0),
        enabled: payload_field(payload, 1),
        failure: payload_field(payload, 2),
        pid: if payload_field(payload, 0) & AUDIT_STATUS_PID != 0 && payload_field(payload, 3) == 0 {
            fallback_pid
        } else {
            payload_field(payload, 3)
        },
        rate_limit: payload_field(payload, 4),
        backlog_limit: payload_field(payload, 5),
        lost: payload_field(payload, 6),
        backlog: payload_field(payload, 7),
        feature_bitmap: payload_field(payload, 8),
        backlog_wait_time: payload_field(payload, 9),
        backlog_wait_time_actual: payload_field(payload, 10),
    }
}

/// See `audit_set_status`.
pub fn audit_status_from_payload(payload: &[u8], fallback_pid: u32) -> (r: AuditStatus)
    ensures
        r == audit_set_status(payload@, fallback_pid),
        r.mask == payload_field(payload@, 0),
        r.enabled == payload_field(payload@, 1),
        r.failure == payload_field(payload@, 2),
        r.pid == (if payload_field(payload@, 0) & AUDIT_STATUS_PID != 0 && payload_field(payload@, 3) == 0 {
            fallback_pid
        } else {
            payload_field(payload@, 3)
        }),
        r.rate_limit == payload_field(payload@, 4),
        r.backlog_limit == payload_field(payload@, 5),
        r.lost == payload_field(payload@, 6),
        r.backlog == payload_field(payload@, 7),
        r.feature_bitmap == payload_field(payload@, 8),
        r.backlog_wait_time == payload_field(payload@, 9),
        r.backlog_wait_time_actual == payload_field(payload@, 10),
{
    let mut status = AuditStatus {
        mask: read_field(payload, 0),
        enabled: read_field(payload, 1),
        failure: read_field(payload, 2),
        pid: read_field(payload, 3),
        rate_limit: read_field(payload, 4),
        backlog_limit: read_field(payload, 5),
        lost: read_field(payload, 6),
        backlog: read_field(payload, 7),
        feature_bitmap: read_field(payload, 8),
        backlog_wait_time: read_field(payload, 9),
        backlog_wait_time_actual: read_field(payload, 10),
    };
    if status.mask & AUDIT_STATUS_PID != 0 && status.pid == 0 {
        status.pid = fallback_pid;
    }
    status
}

/// Reading back the bytes of a status record gives the record.
pub proof fn lemma_audit_status_roundtrip(status: AuditStatus)
    ensures
        ({
            let b = words_bytes(audit_fields(status));
            &&& b.len() == 44
            &&& forall|i: int| 0 <= i < 11 ==> #[trigger] payload_field(b, i) == audit_fields(status)[i]
        }),
{
    let f = audit_fields(status);
    assert forall|k: int| 0 <= k <= 11 implies #[trigger] words_bytes(f.take(k)).len() == 4 * k by {
        lemma_words_len(f.take(k));
    }
    assert(f.take(11) =~= f);
    assert forall|i: int| 0 <= i < 11 implies #[trigger] payload_field(words_bytes(f), i) == f[i] by {
        lemma_words_at(f, i);
    }
}

proof fn lemma_words_len(w: Seq<u32>)
    ensures
        words_bytes(w).len() == 4 * w.len(),
    decreases w.len(),
{
    if w.len() > 0 {
        lemma_words_len(w.drop_last());
    }
}

proof fn lemma_words_at(w: Seq<u32>, i: int)
    requires
        0 <= i < w.len(),
    ensures
        words_bytes(w).len() == 4 * w.len(),
        le32_at(words_bytes(w), 4 * i) == w[i],
    decreases w.len(),
{
    lemma_words_len(w);
    lemma_words_len(w.drop_last());
    let b = words_bytes(w);
    if i == w.len() - 1 {
        crate::bytes::lemma_le32_roundtrip(w.last());
        let e = le32_bytes(w.last());
        assert(b[4 * i] == e[0] && b[4 * i + 1] == e[1] && b[4 * i + 2] == e[2] && b[4 * i + 3] == e[3]);
    } else {
        lemma_words_at(w.drop_last(), i);
        let p = words_bytes(w.drop_last());
        assert(b[4 * i] == p[4 * i] && b[4 * i + 1] == p[4 * i + 1]);
        assert(b[4 * i + 2] == p[4 * i + 2] && b[4 * i + 3] == p[4 * i + 3]);
    }
}

/// The byte form of a local address reads back as that address when its
/// path is named (not empty) and has no NUL byte past an abstract name's
/// leading one: the reader finds the local family, keeps exactly the
/// path's bytes, and those bytes spell only that path.
pub proof fn lemma_unix_sockaddr_reads_back(path: Seq<char>)
    requires
        encode_utf8(path).len() > 0,
        encode_utf8(path)[0] != 0 ==> forall|i: int|
            0 <= i < encode_utf8(path).len() ==> #[trigger] encode_utf8(path)[i] != 0,
    ensures
        ({
            let w = le16_bytes(AF_UNIX) + unix_path_wire(encode_utf8(path));
            &&& w.len() > 2 && wire_family(w) == AF_UNIX
            &&& unix_path_of(w.skip(2)) == encode_utf8(path)
            &&& valid_utf8(unix_path_of(w.skip(2)))
            &&& forall|q: Seq<char>| #[trigger] encode_utf8(q) == unix_path_of(w.skip(2)) ==> q == path
        }),
{
    let b = encode_utf8(path);
    let w = le16_bytes(AF_UNIX) + unix_path_wire(b);
    crate::bytes::lemma_le16_roundtrip(AF_UNIX);
    assert(w[0] == le16_bytes(AF_UNIX)[0] && w[1] == le16_bytes(AF_UNIX)[1]);
    let raw = w.skip(2);
    assert(raw =~= unix_path_wire(b));
    if b[0] != 0 {
        assert(raw =~= b.push(0u8));
        lemma_first_nul(raw, b.len() as int);
        assert(raw.take(b.len() as int) =~= b);
    }
    vstd::utf8::encode_utf8_valid_utf8(path);
    assert forall|q: Seq<char>| #[trigger] encode_utf8(q) == unix_path_of(raw) implies q == path by {
        vstd::utf8::encode_utf8_decode_utf8(q);
        vstd::utf8::encode_utf8_decode_utf8(path);
    }
}


/// One thing the kernel does in answer to an audit netlink request, in the
/// order it does them.
#[derive(Clone, Copy, Debug, PartialEq, Eq, Structural)]
pub enum AuditStep {
    /// Log the request's user text (see `audit_user_text`).
    LogUserText,
    /// Log a user message with the placeholder text "netlink-audit".
    LogPlaceholder,
    /// Make this the audit status.
    ApplyStatus(AuditStatus),
    /// Queue a netlink error message with this code (0 acknowledges).
    Reply(i32),
    /// Queue an AUDIT_GET reply carrying the current status.
    StatusReply,
    /// Queue an AUDIT_GET_FEATURE reply carrying the features.
    FeatureReply,
    /// Queue the end of a dump.
    Done,
}

/// Whether a request of this type is a user message.
pub open spec fn audit_user_type(t: u16) -> bool {
    t == AUDIT_USER || (AUDIT_FIRST_USER_MSG <= t <= AUDIT_LAST_USER_MSG) || (AUDIT_FIRST_USER_MSG2 <= t
        <= AUDIT_LAST_USER_MSG2)
}

/// The answer to the audit netlink request `b` from a sender that holds
/// CAP_AUDIT_CONTROL when `can_control` and CAP_AUDIT_WRITE when
/// `can_write`, on a socket answering as `portid`.
///
/// A request without a readable header is logged and acknowledged for a
/// sender that may write the log, refused with EPERM otherwise. A request
/// whose type needs a capability the sender lacks is refused with EPERM.
/// Otherwise the acknowledgement (when the request asks for one) comes
/// first for queries, which are then answered with the status, the
/// features, or an empty rule dump; it comes after the change for AUDIT_SET
/// (whose status names `portid` as the daemon when the request carries no
/// pid) and after logging for user messages; rule and feature changes and
/// signal-info requests are only acknowledged; any other type is refused
/// with EOPNOTSUPP.
pub open spec fn audit_reply_steps(b: Seq<u8>, can_control: bool, can_write: bool, portid: u32) -> Seq<AuditStep> {
    match NetlinkHeader::parsed(b) {
        None => if can_write {
            seq![AuditStep::LogPlaceholder, AuditStep::Reply(0)]
        } else {
            seq![AuditStep::Reply((-EPERM) as i32)]
        },
        Some(h) => {
            let ack = if h.flags & NLM_F_ACK != 0 { seq![AuditStep::Reply(0)] } else { Seq::<AuditStep>::empty() };
            let allowed = match audit_cap_for(h.msg_type) {
                Some(c) => if c == CAP_AUDIT_CONTROL { can_control } else { can_write },
                None => true,
            };
            if !allowed {
                seq![AuditStep::Reply((-EPERM) as i32)]
            } else if h.msg_type == AUDIT_GET {
                ack.push(AuditStep::StatusReply)
            } else if h.msg_type == AUDIT_SET {
                seq![AuditStep::ApplyStatus(audit_set_status(
                    b.subrange(NLMSG_HDRLEN as int, h.len as int),
                    if h.pid != 0 { h.pid } else { portid },
                ))] + ack
            } else if h.msg_type == AUDIT_GET_FEATURE {
                ack.push(AuditStep::FeatureReply)
            } else if h.msg_type == AUDIT_LIST_RULES {
                ack.push(AuditStep::Done)
            } else if h.msg_type == AUDIT_ADD_RULE || h.msg_type == AUDIT_DEL_RULE || h.msg_type == AUDIT_SET_FEATURE
                || h.msg_type == AUDIT_SIGNAL_INFO {
                ack
            } else if audit_user_type(h.msg_type) {
                seq![AuditStep::LogUserText] + ack
            } else {
                seq![AuditStep::Reply((-EOPNOTSUPP) as i32)]
            }
        },
    }
}

/// Decides the answer to an audit netlink request; see `audit_reply_steps`.
pub fn audit_netlink_reply(bytes: &[u8], can_control: bool, can_write: bool, portid: u32) -> (r: Vec<AuditStep>)
    ensures
        r@ == audit_reply_steps(bytes@, can_control, can_write, portid),
{
    let mut r: Vec<AuditStep> = Vec::new();
    let header = match NetlinkHeader::parse(bytes) {
        Some(h) => h,
        None => {
            if can_write {
                r.push(AuditStep::LogPlaceholder);
                r.push(AuditStep::Reply(0));
            } else {
                r.push(AuditStep::Reply(-EPERM));
            }
            assert(r@ =~= audit_reply_steps(bytes@, can_control, can_write, portid));
            return r;
        },
    };
    let ack = audit_ack_requested(&header);
    let allowed = match audit_netlink_required_cap(header.msg_type) {
        Some(c) => if c == CAP_AUDIT_CONTROL {
            can_control
        } else {
            can_write
        },
        None => true,
    };
    let t = header.msg_type;
    if !allowed {
        r.push(AuditStep::Reply(-EPERM));
    } else if t == AUDIT_GET {
        if ack {
            r.push(AuditStep::Reply(0));
        }
        r.push(AuditStep::StatusReply);
    } else if t == AUDIT_SET {
        let fallback = if header.pid != 0 {
            header.pid
        } else {
            portid
        };
        let payload = slice_range(bytes, NLMSG_HDRLEN, header.len);
        r.push(AuditStep::ApplyStatus(audit_status_from_payload(payload, fallback)));
        if ack {
            r.push(AuditStep::Reply(0));
        }
    } else if t == AUDIT_GET_FEATURE {
        if ack {
            r.push(AuditStep::Reply(0));
        }
        r.push(AuditStep::FeatureReply);
    } else if t == AUDIT_LIST_RULES {
        if ack {
            r.push(AuditStep::Reply(0));
        }
        r.push(AuditStep::Done);
    } else if t == AUDIT_ADD_RULE || t == AUDIT_DEL_RULE || t == AUDIT_SET_FEATURE || t == AUDIT_SIGNAL_INFO {
        if ack {
            r.push(AuditStep::Reply(0));
        }
    } else if t == AUDIT_USER || (AUDIT_FIRST_USER_MSG <= t && t <= AUDIT_LAST_USER_MSG) || (AUDIT_FIRST_USER_MSG2
        <= t && t <= AUDIT_LAST_USER_MSG2) {
        r.push(AuditStep::LogUserText);
        if ack {
            r.push(AuditStep::Reply(0));
        }
    } else {
        r.push(AuditStep::Reply(-EOPNOTSUPP));
    }
    assert(r@ =~= audit_reply_steps(bytes@, can_control, can_write, portid));
    r
}

/// The text bytes of a user message: its payload (after the header, up to
/// the message's length) up to the first NUL.
pub open spec fn audit_user_bytes(b: Seq<u8>, len: int) -> Seq<u8> {
    let payload = b.subrange(NLMSG_HDRLEN as int, len);
    payload.take(first_nul(payload) as int)
}

/// The text a user message logs: its text bytes when they are UTF-8, the
/// placeholder "netlink-audit" otherwise.
pub fn audit_user_text(bytes: &[u8], header: &NetlinkHeader) -> (r: String)
    requires
        NetlinkHeader::parsed(bytes@) == Some(*header),
    ensures
        valid_utf8(audit_user_bytes(bytes@, header.len as int)) ==> encode_utf8(r@) == audit_user_bytes(
            bytes@,
            header.len as int,
        ),
        !valid_utf8(audit_user_bytes(bytes@, header.len as int)) ==> r@ == "netlink-audit"@,
{
    let payload = slice_range(bytes, NLMSG_HDRLEN, header.len);
    let mut i: usize = 0;
    while i < payload.len() && payload[i] != 0
        invariant
            i <= payload@.len(),
            forall|j: int| 0 <= j < i ==> payload@[j] != 0,
        decreases payload@.len() - i,
    {
        i += 1;
    }
    proof {
        lemma_first_nul(payload@, i as int);
    }
    let text = slice_to(payload, i);
    match str_from_utf8(text) {
        Some(t) => t.to_owned(),
        None => "netlink-audit".to_owned(),
    }
}

/// The payload of the AUDIT_KERNEL message that hands audit record `seq`
/// with `text` to a listener: "audit(<seq>): <text>" and a NUL.
pub open spec fn audit_record_bytes(seq: u64, text: Seq<char>) -> Seq<u8> {
    encode_utf8("audit("@) + encode_utf8(decimal(seq as nat)) + encode_utf8("): "@) + encode_utf8(text) + seq![0u8]
}

/// See `audit_record_bytes`.
pub fn audit_record_payload(seq: u64, text: &str) -> (r: Vec<u8>)
    ensures
        r@ == audit_record_bytes(seq, text@),
{
    let mut out: Vec<u8> = Vec::new();
    push_bytes(&mut out, "audit(".as_bytes());
    let digits = decimal_string(seq);
    push_bytes(&mut out, digits.as_str().as_bytes());
    push_bytes(&mut out, "): ".as_bytes());
    push_bytes(&mut out, text.as_bytes());
    out.push(0);
    assert(out@ =~= audit_record_bytes(seq, text@));
    out
}

/// A socket that is not listening and has something in its receive queue
/// polls readable (POLLIN and POLLRDNORM), whatever its state, type,
/// shutdown, hang-up or error.
pub proof fn lemma_queued_data_polls_readable(p: PollState)
    requires
        p.state != SocketState::Listening,
        !p.recvq_empty,
    ensures
        poll_mask(p) & (POLLIN | POLLRDNORM) == POLLIN | POLLRDNORM,
{
    let rd_shut = p.shutdown & RCV_SHUTDOWN != 0;
    let dgram_writable = (p.sock_type == SOCK_DGRAM || p.sock_type == SOCK_RAW) && p.state != SocketState::Closed
        && p.state != SocketState::Listening;
    let b: u32 = if p.state == SocketState::Connected || dgram_writable { POLLOUT | POLLWRNORM } else { 0 };
    let c: u32 = if rd_shut || p.hung_up { POLLRDHUP } else { 0 };
    let d: u32 = if p.shutdown == SHUTDOWN_MASK || p.state == SocketState::Closed || p.hung_up { POLLHUP } else { 0 };
    let e: u32 = if p.pending_error { POLLERR } else { 0 };
    let a: u32 = POLLIN | POLLRDNORM;
    assert(poll_mask(p) == (a | b | c | d | e));
    assert((a | b | c | d | e) & a == a) by (bit_vector);
}

/// A stream connect that finds a socket at the peer address meets it when
/// it listens (a server-side socket is made for accept) and is refused
/// otherwise: so for local stream and seqpacket sockets and for internet
/// stream sockets, whatever the address.
pub proof fn lemma_stream_connect_meets_listener(family: u16, sock_type: u16, peer: SockAddr, state: SocketState)
    requires
        (family == AF_UNIX && (sock_type == SOCK_STREAM || sock_type == SOCK_SEQPACKET)) || ((family == AF_INET
            || family == AF_INET6) && sock_type == SOCK_STREAM),
    ensures
        state == SocketState::Listening ==> connect_outcome(family, sock_type, peer, Some(state)) == Ok::<
            ConnectAction,
            i32,
        >(ConnectAction::Rendezvous),
        state != SocketState::Listening ==> connect_outcome(family, sock_type, peer, Some(state)) == Err::<
            ConnectAction,
            i32,
        >(ECONNREFUSED),
{
}

/// What each poll bit means: a listening socket with a pending connection
/// polls readable; a connected socket, and a datagram or raw socket that
/// is neither closed nor listening, polls writable; a pending error sets
/// POLLERR; a closed socket or a full shutdown sets POLLHUP; a socket with
/// nothing to read, no shutdown, hang-up or error polls not readable.
pub proof fn lemma_poll_bits(p: PollState)
    ensures
        p.state == SocketState::Listening && !p.backlog_empty ==> poll_mask(p) & (POLLIN | POLLRDNORM) == POLLIN
            | POLLRDNORM,
        (p.state == SocketState::Connected || ((p.sock_type == SOCK_DGRAM || p.sock_type == SOCK_RAW) && p.state
            != SocketState::Closed && p.state != SocketState::Listening)) ==> poll_mask(p) & (POLLOUT | POLLWRNORM)
            == POLLOUT | POLLWRNORM,
        p.pending_error ==> poll_mask(p) & POLLERR == POLLERR,
        (p.state == SocketState::Closed || p.shutdown == SHUTDOWN_MASK) ==> poll_mask(p) & POLLHUP == POLLHUP,
        (p.recvq_empty && p.backlog_empty && p.shutdown & RCV_SHUTDOWN == 0 && !p.hung_up && !p.pending_error)
            ==> poll_mask(p) & POLLIN == 0,
{
    let rd_shut = p.shutdown & RCV_SHUTDOWN != 0;
    let readable = if p.state == SocketState::Listening {
        !p.backlog_empty || rd_shut || p.pending_error
    } else {
        !p.recvq_empty || rd_shut || p.hung_up || p.pending_error
    };
    let dgram_writable = (p.sock_type == SOCK_DGRAM || p.sock_type == SOCK_RAW) && p.state != SocketState::Closed
        && p.state != SocketState::Listening;
    let a: u32 = if readable || rd_shut || p.hung_up { POLLIN | POLLRDNORM } else { 0 };
    let b: u32 = if p.state == SocketState::Connected || dgram_writable { POLLOUT | POLLWRNORM } else { 0 };
    let c: u32 = if rd_shut || p.hung_up { POLLRDHUP } else { 0 };
    let d: u32 = if p.shutdown == SHUTDOWN_MASK || p.state == SocketState::Closed || p.hung_up { POLLHUP } else { 0 };
    let e: u32 = if p.pending_error { POLLERR } else { 0 };
    let m = a | b | c | d | e;
    assert(poll_mask(p) == m);
    let rd: u32 = POLLIN | POLLRDNORM;
    let wr: u32 = POLLOUT | POLLWRNORM;
    assert(a == rd ==> m & rd == rd) by (bit_vector)
        requires
            m == a | b | c | d | e,
    ;
    assert(b == wr ==> m & wr == wr) by (bit_vector)
        requires
            m == a | b | c | d | e,
    ;
    assert(e == POLLERR ==> m & POLLERR == POLLERR) by (bit_vector)
        requires
            m == a | b | c | d | e,
    ;
    assert(d == POLLHUP ==> m & POLLHUP == POLLHUP) by (bit_vector)
        requires
            m == a | b | c | d | e,
    ;
    assert((a == 0 && (b == 0 || b == wr) && (c == 0 || c == POLLRDHUP) && (d == 0 || d == POLLHUP) && (e == 0
        || e == POLLERR)) ==> m & POLLIN == 0) by (bit_vector)
        requires
            m == a | b | c | d | e,
            wr == POLLOUT | POLLWRNORM,
    ;
}

/// A connect to a local address with nothing bound there, or a stream
/// connect to a loopback address with no listener, is refused.
pub proof fn lemma_connect_without_listener_refused(family: u16, sock_type: u16, peer: SockAddr)
    ensures
        peer is Unix ==> connect_outcome(family, sock_type, peer, None) == Err::<ConnectAction, i32>(ECONNREFUSED),
        ((family == AF_INET || family == AF_INET6) && sock_type == SOCK_STREAM && is_loopback_dest(peer))
            ==> connect_outcome(family, sock_type, peer, None) == Err::<ConnectAction, i32>(ECONNREFUSED),
{
}

} // verus!
