//! RxRPC VERSION replies: the version string and the reply header built
//! from the request's header.
use vstd::prelude::*;
use vstd::string::StringSliceAdditionalSpecFns;

use crate::byteorder::{host_is_big_endian, net16, net32, to_net16, to_net32};

verus! {

pub const RXRPC_VERSION_STRING_SIZE: usize = 65;
pub const RXRPC_UTS_RELEASE_MAX: usize = 49;
pub const RXRPC_PACKET_TYPE_VERSION: u8 = 13;
pub const RXRPC_CLIENT_INITIATED: u8 = 0x01;
pub const RXRPC_LAST_PACKET: u8 = 0x04;
/// The size of the wire header on the wire.
pub const RXRPC_WIRE_HEADER_SIZE: usize = 28;

/// The flags of the request being answered.
#[derive(Clone, Copy, Debug, PartialEq, Eq)]
pub struct RxrpcHostHeader {
    pub flags: u8,
}

/// The request's header fields, in host order.
#[derive(Clone, Copy, Debug, PartialEq, Eq)]
pub struct RxrpcSkbHeader {
    pub epoch: u32,
    pub cid: u32,
    pub call_number: u32,
    pub flags: u8,
    pub service_id: u16,
}

/// The wire header of a packet (multi-byte fields in network order).
#[derive(Clone, Copy, Debug, PartialEq, Eq)]
pub struct RxrpcWireHeader {
    pub epoch: u32,
    pub cid: u32,
    pub call_number: u32,
    pub seq: u32,
    pub serial: u32,
    pub packet_type: u8,
    pub flags: u8,
    pub user_status: u8,
    pub security_index: u8,
    pub reserved: u16,
    pub service_id: u16,
}

/// A VERSION reply: header and version string, sent as two iovecs.
#[derive(Clone, Copy, Debug, PartialEq, Eq)]
pub struct VersionReply {
    pub header: RxrpcWireHeader,
    pub version_string: [u8; RXRPC_VERSION_STRING_SIZE],
    pub iov_count: usize,
    pub len: usize,
}

/// The bytes of "linux-".
pub open spec fn version_prefix() -> Seq<u8> {
    seq![108u8, 105u8, 110u8, 117u8, 120u8, 45u8]
}

/// The bytes of " AF_RXRPC".
pub open spec fn version_suffix() -> Seq<u8> {
    seq![32u8, 65u8, 70u8, 95u8, 82u8, 88u8, 82u8, 80u8, 67u8]
}

/// "linux-", at most 49 bytes of the release, " AF_RXRPC", then zero bytes
/// up to 65.
pub open spec fn version_string_spec(release: Seq<u8>) -> Seq<u8> {
    let n = if release.len() < RXRPC_UTS_RELEASE_MAX { release.len() as int } else { RXRPC_UTS_RELEASE_MAX as int };
    let text = version_prefix() + release.subrange(0, n) + version_suffix();
    text + Seq::new((RXRPC_VERSION_STRING_SIZE - text.len()) as nat, |i: int| 0u8)
}

/// The version string for kernel release `uts_release`; see `version_string_spec`.
pub fn rxrpc_gen_version_string(uts_release: &str) -> (r: [u8; RXRPC_VERSION_STRING_SIZE])
    ensures
        r@ == version_string_spec(uts_release.spec_bytes()),
{
    let rel = uts_release.as_bytes();
    let n = if rel.len() < RXRPC_UTS_RELEASE_MAX { rel.len() } else { RXRPC_UTS_RELEASE_MAX };
    let mut text: Vec<u8> = Vec::new();
    text.push(108);
    text.push(105);
    text.push(110);
    text.push(117);
    text.push(120);
    text.push(45);
    let mut i: usize = 0;
    while i < n
        invariant
            i <= n,
            n <= rel@.len(),
            n <= RXRPC_UTS_RELEASE_MAX,
            text@ == version_prefix() + rel@.subrange(0, i as int),
        decreases n - i,
    {
        text.push(rel[i]);
        i += 1;
        assert(text@ =~= version_prefix() + rel@.subrange(0, i as int));
    }
    text.push(32);
    text.push(65);
    text.push(70);
    text.push(95);
    text.push(82);
    text.push(88);
    text.push(82);
    text.push(80);
    text.push(67);
    assert(text@ =~= version_prefix() + rel@.subrange(0, n as int) + version_suffix());
    let mut out = [0u8; RXRPC_VERSION_STRING_SIZE];
    let mut j: usize = 0;
    while j < text.len()
        invariant
            j <= text@.len(),
            text@.len() <= 64,
            out@.len() == 65,
            forall|k: int| 0 <= k < j ==> out@[k] == text@[k],
            forall|k: int| j <= k < 65 ==> out@[k] == 0u8,
        decreases text@.len() - j,
    {
        out[j] = text[j];
        j += 1;
    }
    assert(out@ =~= version_string_spec(rel@));
    out
}

/// The reply to a VERSION request: the request's epoch, connection id,
/// call number and service id in network order, sequence and serial zero,
/// type VERSION, flags LAST_PACKET plus CLIENT_INITIATED when the request
/// was not client-initiated, and the version string; 28 + 65 bytes.
pub fn rxrpc_send_version_request(hdr: RxrpcHostHeader, skb_hdr: RxrpcSkbHeader, uts_release: &str) -> (r: VersionReply)
    ensures
        exists|big: bool|
            {
                &&& r.header.epoch == to_net32(big, skb_hdr.epoch)
                &&& r.header.cid == to_net32(big, skb_hdr.cid)
                &&& r.header.call_number == to_net32(big, skb_hdr.call_number)
                &&& #[trigger] r.header.service_id == to_net16(big, skb_hdr.service_id)
            },
        r.header.seq == 0,
        r.header.serial == 0,
        r.header.packet_type == RXRPC_PACKET_TYPE_VERSION,
        r.header.flags == RXRPC_LAST_PACKET | (!hdr.flags & RXRPC_CLIENT_INITIATED),
        r.header.user_status == 0,
        r.header.security_index == 0,
        r.header.reserved == 0,
        r.version_string@ == version_string_spec(uts_release.spec_bytes()),
        r.iov_count == 2,
        r.len == RXRPC_WIRE_HEADER_SIZE + RXRPC_VERSION_STRING_SIZE,
{
    let big = host_is_big_endian();
    let header = RxrpcWireHeader {
        epoch: net32(big, skb_hdr.epoch),
        cid: net32(big, skb_hdr.cid),
        call_number: net32(big, skb_hdr.call_number),
        seq: 0,
        serial: 0,
        packet_type: RXRPC_PACKET_TYPE_VERSION,
        flags: RXRPC_LAST_PACKET | (!hdr.flags & RXRPC_CLIENT_INITIATED),
        user_status: 0,
        security_index: 0,
        reserved: 0,
        service_id: net16(big, skb_hdr.service_id),
    };
    VersionReply {
        header,
        version_string: rxrpc_gen_version_string(uts_release),
        iov_count: 2,
        len: RXRPC_WIRE_HEADER_SIZE + RXRPC_VERSION_STRING_SIZE,
    }
}

} // verus!
