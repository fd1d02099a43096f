//! TIPC: Ethernet and InfiniBand bearer media, and sysctls.
pub mod eth_media;
pub mod ib_media;
pub mod sysctl;
