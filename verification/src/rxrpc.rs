//! RxRPC: call completion, null security, tunables, packet accounting,
//! transmit buffers, version replies and peer addresses.
pub mod call_state;
pub mod insecure;
pub mod misc;
pub mod local_event;
pub mod skbuff;
pub mod txbuf;
pub mod utils;
