//! The Linux `sockaddr` structures as user memory holds them: the fields in
//! declaration order with no padding between them, integers in host
//! (little-endian) order. A field that Linux keeps in network order holds
//! the value whose host-order bytes are the network-order bytes.
use vstd::prelude::*;

use crate::bytes::{
    be16_at, be16_bytes, be32_at, be32_bytes, le16_bytes, le32, le32_bytes, lemma_le16_bytes_of_read,
    lemma_le32_bytes_of_read, read_le16, read_le32, u16_to_be_bytes, u16_to_le_bytes, u32_to_be_bytes,
    u32_to_le_bytes,
};
use crate::ip::{array16_from, push_bytes};
use crate::socket::{zeros, AF_INET, AF_INET6, AF_NETLINK};

verus! {

/// The size of `struct sockaddr`.
pub const SOCKADDR_LEN: usize = 16;
/// The size of `struct sockaddr_in`.
pub const SOCKADDR_IN_LEN: usize = 16;
/// The size of `struct sockaddr_in6`.
pub const SOCKADDR_IN6_LEN: usize = 28;
/// The size of `struct sockaddr_nl`.
pub const SOCKADDR_NL_LEN: usize = 12;

/// `struct sockaddr`: a family and fourteen bytes that the family gives a
/// meaning to.
#[derive(Clone, Copy, Debug)]
pub struct LinuxSockAddr {
    pub family: u16,
    pub data: [u8; 14],
}

/// `struct sockaddr_in`.
#[derive(Clone, Copy, Debug)]
pub struct LinuxSockAddrIn {
    pub family: u16,
    pub port: u16,
    pub addr: u32,
    pub zero: [u8; 8],
}

/// `struct sockaddr_in6`.
#[derive(Clone, Copy, Debug)]
pub struct LinuxSockAddrIn6 {
    pub family: u16,
    pub port: u16,
    pub flowinfo: u32,
    pub addr: [u8; 16],
    pub scope_id: u32,
}

/// `struct sockaddr_nl`.
#[derive(Clone, Copy, Debug)]
pub struct LinuxSockAddrNetlink {
    pub family: u16,
    pub pad: u16,
    pub pid: u32,
    pub groups: u32,
}

/// The fourteen bytes of `b` from `off` on.
fn bytes14_from(b: &[u8], off: usize) -> (r: [u8; 14])
    requires
        off + 14 <= b@.len(),
    ensures
        r@ == b@.subrange(off as int, off + 14),
{
    let mut r = [0u8; 14];
    let n = b.len();
    let mut i: usize = 0;
    while i < 14
        invariant
            i <= 14,
            n == b@.len(),
            off + 14 <= b@.len(),
            r@.len() == 14,
            forall|j: int| 0 <= j < i ==> #[trigger] r@[j] == b@[off + j],
        decreases 14 - i,
    {
        r.set(i, b[off + i]);
        i += 1;
    }
    assert(r@ =~= b@.subrange(off as int, off + 14));
    r
}

/// The eight bytes of `b` from `off` on.
fn bytes8_from(b: &[u8], off: usize) -> (r: [u8; 8])
    requires
        off + 8 <= b@.len(),
    ensures
        r@ == b@.subrange(off as int, off + 8),
{
    let mut r = [0u8; 8];
    let n = b.len();
    let mut i: usize = 0;
    while i < 8
        invariant
            i <= 8,
            n == b@.len(),
            off + 8 <= b@.len(),
            r@.len() == 8,
            forall|j: int| 0 <= j < i ==> #[trigger] r@[j] == b@[off + j],
        decreases 8 - i,
    {
        r.set(i, b[off + i]);
        i += 1;
    }
    assert(r@ =~= b@.subrange(off as int, off + 8));
    r
}

/// The host-order value of two network-order bytes, as a network-order
/// field holds them.
fn net16_field(x: u16) -> (r: u16)
    ensures
        le16_bytes(r) == be16_bytes(x),
{
    let b = u16_to_be_bytes(x);
    proof {
        lemma_le16_bytes_of_read(b[0], b[1]);
    }
    b[0] as u16 + b[1] as u16 * 256
}

/// The host-order value of four network-order bytes, as a network-order
/// field holds them.
fn net32_field(x: u32) -> (r: u32)
    ensures
        le32_bytes(r) == be32_bytes(x),
{
    let b = u32_to_be_bytes(x);
    proof {
        lemma_le32_bytes_of_read(b[0], b[1], b[2], b[3]);
    }
    b[0] as u32 + b[1] as u32 * 256 + b[2] as u32 * 65536 + b[3] as u32 * 16777216
}

impl LinuxSockAddr {
    /// The bytes of the structure.
    pub open spec fn wire(&self) -> Seq<u8> {
        le16_bytes(self.family) + self.data@
    }

    /// The structure's bytes, as user memory holds them.
    pub fn to_bytes(&self) -> (r: Vec<u8>)
        ensures
            r@ == self.wire(),
    {
        let mut out: Vec<u8> = Vec::new();
        push_bytes(&mut out, &u16_to_le_bytes(self.family));
        push_bytes(&mut out, &self.data);
        out
    }

    /// The structure at the front of `b`.
    pub fn from_bytes(b: &[u8]) -> (r: Self)
        requires
            b@.len() >= SOCKADDR_LEN,
        ensures
            r.wire() == b@.take(SOCKADDR_LEN as int),
    {
        let r = LinuxSockAddr { family: read_le16(b, 0), data: bytes14_from(b, 2) };
        proof {
            lemma_le16_bytes_of_read(b@[0], b@[1]);
        }
        assert(r.wire() =~= b@.take(SOCKADDR_LEN as int));
        r
    }
}

impl LinuxSockAddrIn {
    /// The bytes of the structure.
    pub open spec fn wire(&self) -> Seq<u8> {
        le16_bytes(self.family) + le16_bytes(self.port) + le32_bytes(self.addr) + self.zero@
    }

    /// The structure's bytes, as user memory holds them.
    pub fn to_bytes(&self) -> (r: Vec<u8>)
        ensures
            r@ == self.wire(),
    {
        let mut out: Vec<u8> = Vec::new();
        push_bytes(&mut out, &u16_to_le_bytes(self.family));
        push_bytes(&mut out, &u16_to_le_bytes(self.port));
        push_bytes(&mut out, &u32_to_le_bytes(self.addr));
        push_bytes(&mut out, &self.zero);
        out
    }

    /// The structure at the front of `b`.
    pub fn from_bytes(b: &[u8]) -> (r: Self)
        requires
            b@.len() >= SOCKADDR_IN_LEN,
        ensures
            r.wire() == b@.take(SOCKADDR_IN_LEN as int),
    {
        let r = LinuxSockAddrIn {
            family: read_le16(b, 0),
            port: read_le16(b, 2),
            addr: read_le32(b, 4),
            zero: bytes8_from(b, 8),
        };
        proof {
            lemma_le16_bytes_of_read(b@[0], b@[1]);
            lemma_le16_bytes_of_read(b@[2], b@[3]);
            lemma_le32_bytes_of_read(b@[4], b@[5], b@[6], b@[7]);
        }
        assert(r.wire() =~= b@.take(SOCKADDR_IN_LEN as int));
        r
    }

    /// The IPv4 address `addr` with port `port`, both in host order.
    pub fn inet(addr: u32, port: u16) -> (r: Self)
        ensures
            r.wire() == le16_bytes(AF_INET) + be16_bytes(port) + be32_bytes(addr) + zeros(8),
    {
        let r = LinuxSockAddrIn { family: AF_INET, port: net16_field(port), addr: net32_field(addr), zero: [0u8; 8] };
        assert(r.zero@ =~= zeros(8));
        r
    }

    /// The port, in host order.
    pub fn host_port(&self) -> (r: u16)
        ensures
            r == be16_at(self.wire(), 2),
    {
        let b = u16_to_le_bytes(self.port);
        b[0] as u16 * 256 + b[1] as u16
    }

    /// The address, in host order.
    pub fn host_addr(&self) -> (r: u32)
        ensures
            r == be32_at(self.wire(), 4),
    {
        let b = u32_to_le_bytes(self.addr);
        b[0] as u32 * 16777216 + b[1] as u32 * 65536 + b[2] as u32 * 256 + b[3] as u32
    }
}

impl LinuxSockAddrIn6 {
    /// The bytes of the structure.
    pub open spec fn wire(&self) -> Seq<u8> {
        le16_bytes(self.family) + le16_bytes(self.port) + le32_bytes(self.flowinfo) + self.addr@ + le32_bytes(
            self.scope_id,
        )
    }

    /// The structure's bytes, as user memory holds them.
    pub fn to_bytes(&self) -> (r: Vec<u8>)
        ensures
            r@ == self.wire(),
    {
        let mut out: Vec<u8> = Vec::new();
        push_bytes(&mut out, &u16_to_le_bytes(self.family));
        push_bytes(&mut out, &u16_to_le_bytes(self.port));
        push_bytes(&mut out, &u32_to_le_bytes(self.flowinfo));
        push_bytes(&mut out, &self.addr);
        push_bytes(&mut out, &u32_to_le_bytes(self.scope_id));
        out
    }

    /// The structure at the front of `b`.
    pub fn from_bytes(b: &[u8]) -> (r: Self)
        requires
            b@.len() >= SOCKADDR_IN6_LEN,
        ensures
            r.wire() == b@.take(SOCKADDR_IN6_LEN as int),
    {
        let r = LinuxSockAddrIn6 {
            family: read_le16(b, 0),
            port: read_le16(b, 2),
            flowinfo: read_le32(b, 4),
            addr: array16_from(b, 8),
            scope_id: read_le32(b, 24),
        };
        proof {
            lemma_le16_bytes_of_read(b@[0], b@[1]);
            lemma_le16_bytes_of_read(b@[2], b@[3]);
            lemma_le32_bytes_of_read(b@[4], b@[5], b@[6], b@[7]);
            lemma_le32_bytes_of_read(b@[24], b@[25], b@[26], b@[27]);
        }
        assert(r.wire() =~= b@.take(SOCKADDR_IN6_LEN as int));
        r
    }

    /// The IPv6 address `addr` with port `port` (host order), no flow
    /// label and no scope.
    pub fn inet6(addr: [u8; 16], port: u16) -> (r: Self)
        ensures
            r.wire() == le16_bytes(AF_INET6) + be16_bytes(port) + zeros(4) + addr@ + zeros(4),
    {
        let r = LinuxSockAddrIn6 { family: AF_INET6, port: net16_field(port), flowinfo: 0, addr, scope_id: 0 };
        assert(le32_bytes(0) =~= zeros(4));
        r
    }

    /// The port, in host order.
    pub fn host_port(&self) -> (r: u16)
        ensures
            r == be16_at(self.wire(), 2),
    {
        let b = u16_to_le_bytes(self.port);
        b[0] as u16 * 256 + b[1] as u16
    }
}

impl LinuxSockAddrNetlink {
    /// The bytes of the structure.
    pub open spec fn wire(&self) -> Seq<u8> {
        le16_bytes(self.family) + le16_bytes(self.pad) + le32_bytes(self.pid) + le32_bytes(self.groups)
    }

    /// The structure's bytes, as user memory holds them.
    pub fn to_bytes(&self) -> (r: Vec<u8>)
        ensures
            r@ == self.wire(),
    {
        let mut out: Vec<u8> = Vec::new();
        push_bytes(&mut out, &u16_to_le_bytes(self.family));
        push_bytes(&mut out, &u16_to_le_bytes(self.pad));
        push_bytes(&mut out, &u32_to_le_bytes(self.pid));
        push_bytes(&mut out, &u32_to_le_bytes(self.groups));
        out
    }

    /// The structure at the front of `b`.
    pub fn from_bytes(b: &[u8]) -> (r: Self)
        requires
            b@.len() >= SOCKADDR_NL_LEN,
        ensures
            r.wire() == b@.take(SOCKADDR_NL_LEN as int),
            r.pid == le32(b@[4], b@[5], b@[6], b@[7]),
            r.groups == le32(b@[8], b@[9], b@[10], b@[11]),
    {
        let r = LinuxSockAddrNetlink {
            family: read_le16(b, 0),
            pad: read_le16(b, 2),
            pid: read_le32(b, 4),
            groups: read_le32(b, 8),
        };
        proof {
            lemma_le16_bytes_of_read(b@[0], b@[1]);
            lemma_le16_bytes_of_read(b@[2], b@[3]);
            lemma_le32_bytes_of_read(b@[4], b@[5], b@[6], b@[7]);
            lemma_le32_bytes_of_read(b@[8], b@[9], b@[10], b@[11]);
        }
        assert(r.wire() =~= b@.take(SOCKADDR_NL_LEN as int));
        r
    }

    /// The netlink address of port `pid` in the groups `groups`.
    pub fn netlink(pid: u32, groups: u32) -> (r: Self)
        ensures
            r.family == AF_NETLINK,
            r.pad == 0,
            r.pid == pid,
            r.groups == groups,
    {
        LinuxSockAddrNetlink { family: AF_NETLINK, pad: 0, pid, groups }
    }
}

} // verus!
