//! NFC HCI no-op link-layer control: frames pass through unchanged.
use vstd::prelude::*;

verus! {

pub const LLC_NOP_NAME: &'static str = "nop";

/// A no-op LLC instance bound to a device and its callbacks.
#[derive(Clone, Copy)]
pub struct LlcNop<X, R, F> {
    pub hdev: u32,
    pub xmit_to_drv: X,
    pub rcv_to_hci: R,
    pub tx_headroom: i32,
    pub tx_tailroom: i32,
    pub llc_failure: F,
}

/// The operations the LLC engine registers.
#[derive(Clone, Copy, Debug, PartialEq, Eq)]
pub struct LlcRegistration {
    pub name: &'static str,
    pub has_init: bool,
    pub has_deinit: bool,
    pub has_start: bool,
    pub has_stop: bool,
    pub has_rcv_from_drv: bool,
    pub has_xmit_from_hci: bool,
}

/// Binds the engine; it needs no receive head or tail room.
pub fn llc_nop_init<X, R, F>(
    hdev: u32,
    xmit_to_drv: X,
    rcv_to_hci: R,
    tx_headroom: i32,
    tx_tailroom: i32,
    rx_headroom: &mut i32,
    rx_tailroom: &mut i32,
    llc_failure: F,
) -> (r: LlcNop<X, R, F>)
    ensures
        *final(rx_headroom) == 0,
        *final(rx_tailroom) == 0,
        r.hdev == hdev && r.xmit_to_drv == xmit_to_drv && r.rcv_to_hci == rcv_to_hci,
        r.tx_headroom == tx_headroom && r.tx_tailroom == tx_tailroom && r.llc_failure == llc_failure,
{
    *rx_headroom = 0;
    *rx_tailroom = 0;
    LlcNop { hdev, xmit_to_drv, rcv_to_hci, tx_headroom, tx_tailroom, llc_failure }
}

/// Releases the engine; gives back its device.
pub fn llc_nop_deinit<X, R, F>(llc: LlcNop<X, R, F>) -> (r: u32)
    ensures
        r == llc.hdev,
{
    llc.hdev
}

pub fn llc_nop_start() -> (r: i32)
    ensures
        r == 0,
{
    0
}

pub fn llc_nop_stop() -> (r: i32)
    ensures
        r == 0,
{
    0
}

/// Hands a received frame to HCI unchanged.
pub fn llc_nop_rcv_from_drv<X, R: Fn(u32, &[u8]) -> usize, F>(llc: &LlcNop<X, R, F>, skb: &[u8]) -> (r: usize)
    requires
        call_requires(llc.rcv_to_hci, (llc.hdev, skb)),
    ensures
        call_ensures(llc.rcv_to_hci, (llc.hdev, skb), r),
{
    (llc.rcv_to_hci)(llc.hdev, skb)
}

/// Hands a frame from HCI to the driver unchanged.
pub fn llc_nop_xmit_from_hci<X: Fn(u32, &[u8]) -> i32, R, F>(llc: &LlcNop<X, R, F>, skb: &[u8]) -> (r: i32)
    requires
        call_requires(llc.xmit_to_drv, (llc.hdev, skb)),
    ensures
        call_ensures(llc.xmit_to_drv, (llc.hdev, skb), r),
{
    (llc.xmit_to_drv)(llc.hdev, skb)
}

/// The engine's registration record.
pub fn nfc_llc_nop_register() -> (r: LlcRegistration)
    ensures
        r.name == LLC_NOP_NAME,
        r.has_init && r.has_deinit && r.has_start && r.has_stop && r.has_rcv_from_drv && r.has_xmit_from_hci,
{
    LlcRegistration {
        name: LLC_NOP_NAME,
        has_init: true,
        has_deinit: true,
        has_start: true,
        has_stop: true,
        has_rcv_from_drv: true,
        has_xmit_from_hci: true,
    }
}

} // verus!
