//! RxRPC tunable defaults.
use vstd::prelude::*;

verus! {

pub const RXRPC_WIRE_HEADER_SIZE: usize = 28;
pub const RXRPC_JUMBO_HEADER_SIZE: usize = 4;
pub const RXRPC_JUMBO_DATALEN: usize = 1412;
pub const RXRPC_JUMBO_SUBPKTLEN: usize = 1416;
pub const RXRPC_MAX_BACKLOG: u32 = 10;
pub const RXRPC_SOFT_ACK_DELAY_MS: u64 = 1000;
pub const RXRPC_IDLE_ACK_DELAY_MS: u64 = 500;
pub const RXRPC_RX_WINDOW_SIZE: u32 = 255;
pub const RXRPC_RX_JUMBO_MAX: u32 = 46;

/// The size of a jumbo packet of `subpackets` subpackets: the wire header,
/// one full data area, and a jumbo header plus data area per further one.
pub open spec fn rxrpc_jumbo_spec(subpackets: int) -> int {
    RXRPC_WIRE_HEADER_SIZE + RXRPC_JUMBO_DATALEN + (subpackets - 1) * RXRPC_JUMBO_SUBPKTLEN
}

/// The tunables and their defaults.
#[derive(Clone, Copy, Debug, PartialEq, Eq)]
pub struct RxrpcTunableDefaults {
    pub max_backlog: u32,
    pub soft_ack_delay_ms: u64,
    pub idle_ack_delay_ms: u64,
    pub rx_window_size: u32,
    pub rx_mtu: usize,
    pub rx_jumbo_max: u32,
}

/// The size of a jumbo packet; see `rxrpc_jumbo_spec`.
pub fn rxrpc_jumbo(subpackets: usize) -> (r: usize)
    requires
        subpackets >= 1,
        rxrpc_jumbo_spec(subpackets as int) <= usize::MAX,
    ensures
        r == rxrpc_jumbo_spec(subpackets as int),
{
    RXRPC_WIRE_HEADER_SIZE + RXRPC_JUMBO_DATALEN + (subpackets - 1) * RXRPC_JUMBO_SUBPKTLEN
}

/// The default tunables: backlog 10, soft and idle ACK delays of 1000 and
/// 500 ms, a 255-packet window, 46 jumbo subpackets and the MTU they make.
pub fn rxrpc_tunable_defaults() -> (r: RxrpcTunableDefaults)
    ensures
        r == (RxrpcTunableDefaults {
            max_backlog: RXRPC_MAX_BACKLOG,
            soft_ack_delay_ms: RXRPC_SOFT_ACK_DELAY_MS,
            idle_ack_delay_ms: RXRPC_IDLE_ACK_DELAY_MS,
            rx_window_size: RXRPC_RX_WINDOW_SIZE,
            rx_mtu: rxrpc_jumbo_spec(RXRPC_RX_JUMBO_MAX as int) as usize,
            rx_jumbo_max: RXRPC_RX_JUMBO_MAX,
        }),
{
    RxrpcTunableDefaults {
        max_backlog: RXRPC_MAX_BACKLOG,
        soft_ack_delay_ms: RXRPC_SOFT_ACK_DELAY_MS,
        idle_ack_delay_ms: RXRPC_IDLE_ACK_DELAY_MS,
        rx_window_size: RXRPC_RX_WINDOW_SIZE,
        rx_mtu: rxrpc_jumbo(46),
        rx_jumbo_max: RXRPC_RX_JUMBO_MAX,
    }
}

} // verus!
