//! RxRPC transmit data buffers: allocation with the data area aligned
//! after the jumbo header, and reference counting.
use vstd::prelude::*;

verus! {

pub const L1_CACHE_BYTES: usize = 64;
pub const RXRPC_JUMBO_HEADER_SIZE: usize = 4;

/// The call fields a new buffer copies.
#[derive(Clone, Copy, Debug, PartialEq, Eq)]
pub struct RxrpcCall {
    pub debug_id: u32,
    pub out_clientflag: u8,
    pub send_top: u32,
}

/// A transmit buffer.
#[derive(Clone, Copy, Debug, PartialEq, Eq)]
pub struct RxrpcTxbuf {
    pub refcount: i32,
    pub call_debug_id: u32,
    pub debug_id: u32,
    pub alloc_size: usize,
    pub space: usize,
    pub offset: usize,
    pub flags: u8,
    pub seq: u32,
    pub data_offset: usize,
    pub total_alloc: usize,
    pub freed: bool,
}

/// `value` rounded up to a multiple of `align` (unchanged for zero).
pub open spec fn round_up(value: nat, align: nat) -> nat {
    if align == 0 {
        value
    } else {
        (((value + align - 1) as nat / align) * align) as nat
    }
}

fn round_up_header(align: usize) -> (r: usize)
    ensures
        r == round_up(RXRPC_JUMBO_HEADER_SIZE as nat, align as nat),
        r <= if align > 4 { align as int } else { 6 },
{
    if align == 0 {
        RXRPC_JUMBO_HEADER_SIZE
    } else if align >= RXRPC_JUMBO_HEADER_SIZE {
        let ghost a = align as nat;
        assert((4 + a - 1) as nat / a == 1) by (nonlinear_arith)
            requires
                a >= 4,
        ;
        assert(((4 + a - 1) as nat / a) * a == a);
        align
    } else if align == 3 {
        assert(((4 + 3 - 1) as nat / 3nat) * 3nat == 6nat);
        6
    } else if align == 2 {
        assert(((4 + 2 - 1) as nat / 2nat) * 2nat == 4nat);
        4
    } else {
        assert(((4 + 1 - 1) as nat / 1nat) * 1nat == 4nat);
        4
    }
}

/// A data buffer for the call's next packet: `None` when either allocation
/// fails; otherwise one reference, sequence number after the call's top,
/// the data area aligned after the jumbo header.
pub fn rxrpc_alloc_data_txbuf(
    call: RxrpcCall,
    data_size: usize,
    data_align: usize,
    alloc_txb_ok: bool,
    page_frag_ok: bool,
    next_debug_id: u32,
) -> (r: Option<RxrpcTxbuf>)
    requires
        call.send_top < u32::MAX,
        round_up(RXRPC_JUMBO_HEADER_SIZE as nat, data_align as nat) + data_size <= usize::MAX,
    ensures
        !(alloc_txb_ok && page_frag_ok) ==> r is None,
        alloc_txb_ok && page_frag_ok ==> r == Some(RxrpcTxbuf {
            refcount: 1,
            call_debug_id: call.debug_id,
            debug_id: next_debug_id,
            alloc_size: data_size,
            space: data_size,
            offset: 0,
            flags: call.out_clientflag,
            seq: (call.send_top + 1) as u32,
            data_offset: round_up(RXRPC_JUMBO_HEADER_SIZE as nat, data_align as nat) as usize,
            total_alloc: (round_up(RXRPC_JUMBO_HEADER_SIZE as nat, data_align as nat) + data_size) as usize,
            freed: false,
        }),
{
    if !alloc_txb_ok {
        return None;
    }
    let doff = round_up_header(data_align);
    let total = doff + data_size;
    if !page_frag_ok {
        return None;
    }
    Some(RxrpcTxbuf {
        refcount: 1,
        call_debug_id: call.debug_id,
        debug_id: next_debug_id,
        alloc_size: data_size,
        space: data_size,
        offset: 0,
        flags: call.out_clientflag,
        seq: call.send_top + 1,
        data_offset: doff,
        total_alloc: total,
        freed: false,
    })
}

/// The buffer's trace fields: debug id, call debug id, sequence, references.
pub fn rxrpc_see_txbuf(txb: &RxrpcTxbuf) -> (r: (u32, u32, u32, i32))
    ensures
        r == (txb.debug_id, txb.call_debug_id, txb.seq, txb.refcount),
{
    (txb.debug_id, txb.call_debug_id, txb.seq, txb.refcount)
}

/// Drops a reference (none below zero); the buffer is freed, and true
/// returned, when no reference is left.
pub fn rxrpc_put_txbuf(txb: &mut RxrpcTxbuf) -> (r: bool)
    ensures
        ({
            let rc = if old(txb).refcount > 0 { (old(txb).refcount - 1) as i32 } else { old(txb).refcount };
            &&& r == (rc == 0)
            &&& *final(txb) == (RxrpcTxbuf { refcount: rc, freed: if rc == 0 { true } else { old(txb).freed }, ..*old(txb) })
        }),
{
    if txb.refcount > 0 {
        txb.refcount = txb.refcount - 1;
    }
    if txb.refcount == 0 {
        txb.freed = true;
        true
    } else {
        false
    }
}

} // verus!
