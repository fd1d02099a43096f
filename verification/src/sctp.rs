//! SCTP.
pub mod objcnt;
