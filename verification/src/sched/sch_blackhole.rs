//! The blackhole queue discipline: every packet is dropped on enqueue and
//! nothing is ever dequeued.
use vstd::prelude::*;

verus! {

pub const NET_XMIT_SUCCESS: u32 = 0x0000_0000;
pub const NET_XMIT_BYPASS: u32 = 0x0002_0000;
pub const BLACKHOLE_QDISC_ID: &'static str = "blackhole";

/// The queue discipline's registration record, naming its handlers.
#[derive(Clone, Copy, Debug, PartialEq, Eq)]
pub struct QdiscOps {
    pub id: &'static str,
    pub priv_size: usize,
    pub enqueue: &'static str,
    pub dequeue: &'static str,
    pub peek: &'static str,
}

/// Drops the packet: reported as sent, bypassing the queue.
pub fn blackhole_enqueue() -> (r: u32)
    ensures
        r == NET_XMIT_SUCCESS | NET_XMIT_BYPASS,
        r == NET_XMIT_BYPASS,
{
    assert(NET_XMIT_SUCCESS | NET_XMIT_BYPASS == NET_XMIT_BYPASS) by (bit_vector);
    NET_XMIT_SUCCESS | NET_XMIT_BYPASS
}

/// Nothing to dequeue (and nothing to peek at).
pub fn blackhole_dequeue() -> (r: Option<()>)
    ensures
        r is None,
{
    None
}

/// The registration record: "blackhole", no private data, dequeue serving
/// as peek.
pub fn blackhole_init_registers_qdisc() -> (r: QdiscOps)
    ensures
        r.id == BLACKHOLE_QDISC_ID,
        r.priv_size == 0,
        r.enqueue == "blackhole_enqueue",
        r.dequeue == "blackhole_dequeue",
        r.peek == "blackhole_dequeue",
{
    QdiscOps {
        id: BLACKHOLE_QDISC_ID,
        priv_size: 0,
        enqueue: "blackhole_enqueue",
        dequeue: "blackhole_dequeue",
        peek: "blackhole_dequeue",
    }
}

} // verus!
