//! RxRPC peer addresses: the UDP source of a received IPv4 or IPv6 packet.
use vstd::prelude::*;

use crate::bytes::be16_at;
use crate::errno::{EAFNOSUPPORT, EINVAL};
use crate::ip::{parse_ipv4_packet, parse_ipv4_spec, parse_ipv6_packet, parse_ipv6_spec, ETH_P_IP, ETH_P_IPV6};
use crate::skbuff::SkBuff;

verus! {

pub const AF_INET: u16 = 2;
pub const AF_INET6: u16 = 10;
pub const SOCK_DGRAM: u16 = 2;

/// The transport address of a peer.
#[derive(Clone, Copy, Debug, PartialEq, Eq)]
pub enum RxrpcTransportAddr {
    Inet { family: u16, port: u16, addr: u32 },
    Inet6 { family: u16, port: u16, addr: [u8; 16] },
}

/// An RxRPC socket address over a UDP transport.
#[derive(Clone, Copy, Debug, PartialEq, Eq)]
pub struct SockaddrRxrpc {
    pub transport_type: u16,
    pub transport_len: usize,
    pub transport: RxrpcTransportAddr,
}

fn udp_source_port(payload: &[u8]) -> (r: Result<u16, i32>)
    ensures
        payload@.len() < 2 ==> r == Err::<u16, i32>(EINVAL),
        payload@.len() >= 2 ==> r == Ok::<u16, i32>(be16_at(payload@, 0)),
{
    if payload.len() < 2 {
        return Err(EINVAL);
    }
    Ok(crate::bytes::read_be16(payload, 0))
}

/// The sender of the packet in `skb` as an RxRPC address: its source
/// address and UDP source port. EINVAL when the packet is not of the
/// protocol named or too short for a port; EAFNOSUPPORT for protocols
/// other than IPv4 and IPv6.
pub fn rxrpc_extract_addr_from_skb(protocol: u16, skb: &SkBuff) -> (r: Result<SockaddrRxrpc, i32>)
    requires
        skb.wf(),
    ensures
        protocol != ETH_P_IP && protocol != ETH_P_IPV6 ==> r == Err::<SockaddrRxrpc, i32>(EAFNOSUPPORT),
        protocol == ETH_P_IP ==> match parse_ipv4_spec(skb@) {
            None => r == Err::<SockaddrRxrpc, i32>(EINVAL),
            Some(f) => if f.4.len() < 2 {
                r == Err::<SockaddrRxrpc, i32>(EINVAL)
            } else {
                r == Ok::<SockaddrRxrpc, i32>(SockaddrRxrpc {
                    transport_type: SOCK_DGRAM,
                    transport_len: 16,
                    transport: RxrpcTransportAddr::Inet { family: AF_INET, port: be16_at(f.4, 0), addr: f.0 },
                })
            },
        },
        protocol == ETH_P_IPV6 ==> match parse_ipv6_spec(skb@) {
            None => r == Err::<SockaddrRxrpc, i32>(EINVAL),
            Some(f) => if f.4.len() < 2 {
                r == Err::<SockaddrRxrpc, i32>(EINVAL)
            } else {
                r matches Ok(a) && a.transport_type == SOCK_DGRAM && a.transport_len == 28
                    && (a.transport matches RxrpcTransportAddr::Inet6 { family, port, addr }
                    && family == AF_INET6 && port == be16_at(f.4, 0) && addr@ == f.0)
            },
        },
{
    if protocol == ETH_P_IP {
        let ip = match parse_ipv4_packet(skb) {
            Ok(p) => p,
            Err(e) => return Err(e),
        };
        let port = match udp_source_port(ip.payload.as_slice()) {
            Ok(p) => p,
            Err(e) => return Err(e),
        };
        Ok(SockaddrRxrpc {
            transport_type: SOCK_DGRAM,
            transport_len: 16,
            transport: RxrpcTransportAddr::Inet { family: AF_INET, port, addr: ip.src },
        })
    } else if protocol == ETH_P_IPV6 {
        let ip = match parse_ipv6_packet(skb) {
            Ok(p) => p,
            Err(e) => return Err(e),
        };
        let port = match udp_source_port(ip.payload.as_slice()) {
            Ok(p) => p,
            Err(e) => return Err(e),
        };
        Ok(SockaddrRxrpc {
            transport_type: SOCK_DGRAM,
            transport_len: 28,
            transport: RxrpcTransportAddr::Inet6 { family: AF_INET6, port, addr: ip.src },
        })
    } else {
        Err(EAFNOSUPPORT)
    }
}

} // verus!
