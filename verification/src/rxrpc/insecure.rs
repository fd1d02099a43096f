//! RxRPC null security: plain transmit buffers and refusal of challenges
//! and responses.
use vstd::prelude::*;

use crate::errno::{EINVAL, EPROTO};

verus! {

pub const RXRPC_JUMBO_DATALEN: usize = 1412;
pub const RXRPC_SECURITY_NONE: u8 = 0;
pub const RX_PROTOCOL_ERROR: i32 = -5;

/// A transmit buffer's data length, packet length and jumbo eligibility.
#[derive(Clone, Copy, Debug, PartialEq, Eq)]
pub struct RxrpcTxbuf {
    pub len: usize,
    pub pkt_len: usize,
    pub jumboable: bool,
    pub nr_subpackets: u8,
}

/// An abort: wire abort code, local error and the trace reason.
#[derive(Clone, Copy, Debug, PartialEq, Eq)]
pub struct RxrpcAbort {
    pub abort_code: i32,
    pub error: i32,
    pub why: &'static str,
}

/// A security class: its name and index.
#[derive(Clone, Copy, Debug, PartialEq, Eq)]
pub struct RxrpcSecurity {
    pub name: &'static str,
    pub security_index: u8,
}

/// Connections need no security set-up.
pub fn none_init_connection_security() -> (r: i32)
    ensures
        r == 0,
{
    0
}

/// A buffer for the next `remain` bytes: at most one jumbo subpacket's
/// worth, not yet secured.
pub fn none_alloc_txbuf(remain: usize) -> (r: RxrpcTxbuf)
    ensures
        r == (RxrpcTxbuf {
            len: if remain < RXRPC_JUMBO_DATALEN { remain } else { RXRPC_JUMBO_DATALEN },
            pkt_len: 0,
            jumboable: false,
            nr_subpackets: 1,
        }),
{
    RxrpcTxbuf {
        len: if remain < RXRPC_JUMBO_DATALEN { remain } else { RXRPC_JUMBO_DATALEN },
        pkt_len: 0,
        jumboable: false,
        nr_subpackets: 1,
    }
}

/// Securing adds nothing: the packet is the data, and a full-size buffer
/// may go into a jumbo packet.
pub fn none_secure_packet(txb: RxrpcTxbuf) -> (r: Result<RxrpcTxbuf, i32>)
    ensures
        r == Ok::<RxrpcTxbuf, i32>(RxrpcTxbuf {
            pkt_len: txb.len,
            jumboable: txb.jumboable || txb.len == RXRPC_JUMBO_DATALEN,
            ..txb
        }),
{
    let mut t = txb;
    t.pkt_len = t.len;
    if t.len == RXRPC_JUMBO_DATALEN {
        t.jumboable = true;
    }
    Ok(t)
}

/// Every packet verifies.
pub fn none_verify_packet() -> (r: i32)
    ensures
        r == 0,
{
    0
}

/// A challenge is a protocol error: the packet is consumed and the call
/// aborted.
pub fn none_validate_challenge() -> (r: (bool, RxrpcAbort))
    ensures
        r.0,
        r.1.abort_code == RX_PROTOCOL_ERROR,
        r.1.error == -EPROTO,
        r.1.why == "rxrpc_eproto_rxnull_challenge",
{
    (true, RxrpcAbort { abort_code: RX_PROTOCOL_ERROR, error: -EPROTO, why: "rxrpc_eproto_rxnull_challenge" })
}

/// Responding to a challenge is refused.
pub fn none_sendmsg_respond_to_challenge() -> (r: Result<(), i32>)
    ensures
        r == Err::<(), i32>((-EINVAL) as i32),
{
    Err(-EINVAL)
}

/// A response is a protocol error.
pub fn none_verify_response() -> (r: RxrpcAbort)
    ensures
        r.abort_code == RX_PROTOCOL_ERROR,
        r.error == -EPROTO,
        r.why == "rxrpc_eproto_rxnull_response",
{
    RxrpcAbort { abort_code: RX_PROTOCOL_ERROR, error: -EPROTO, why: "rxrpc_eproto_rxnull_response" }
}

/// The class needs no set-up.
pub fn none_init() -> (r: i32)
    ensures
        r == 0,
{
    0
}

/// The class needs no tear-down.
pub fn none_exit() {
}

/// The null security class: "none", index 0.
pub fn rxrpc_no_security() -> (r: RxrpcSecurity)
    ensures
        r.name == "none",
        r.security_index == RXRPC_SECURITY_NONE,
{
    RxrpcSecurity { name: "none", security_index: RXRPC_SECURITY_NONE }
}

} // verus!
