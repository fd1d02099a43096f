//! AF_UNIX sockets.
pub mod sysctl_net_unix;
