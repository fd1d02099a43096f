pub mod byteorder;
pub mod bytes;
pub mod decimal;
pub mod errno;
pub mod netfilter;
pub mod netlabel_user;
pub mod nfc;
pub mod niche;
pub mod openvswitch;
pub mod phonet;
pub mod rds;
pub mod rtnetlink;
pub mod rxrpc;
pub mod sched;
pub mod sctp;
pub mod sockaddr_layout;
pub mod socket;
pub mod sockopt;
pub mod skbuff;
pub mod sunrpc;
pub mod tcp;
pub mod tipc;
pub mod tls;
pub mod ifreq;
pub mod ip;
pub mod udp;
pub mod uevent;
pub mod unix;
