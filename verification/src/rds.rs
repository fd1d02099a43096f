//! Reliable Datagram Sockets: statistics and sysctls.
pub mod ib_stats;
pub mod sysctl;
pub mod tcp_stats;
