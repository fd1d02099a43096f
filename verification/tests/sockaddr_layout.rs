use lupos_net::sockaddr_layout::{
    LinuxSockAddr, LinuxSockAddrIn, LinuxSockAddrIn6, LinuxSockAddrNetlink, SOCKADDR_IN6_LEN, SOCKADDR_IN_LEN,
    SOCKADDR_LEN, SOCKADDR_NL_LEN,
};
use lupos_net::socket::{AF_INET, AF_INET6, AF_NETLINK, AF_PACKET};

#[test]
fn sockaddr_in_keeps_port_and_address_in_network_order() {
    let raw = LinuxSockAddrIn::inet(0x7f00_0001, 8080);
    let bytes = raw.to_bytes();
    assert_eq!(bytes.len(), SOCKADDR_IN_LEN);
    assert_eq!(bytes, vec![2, 0, 0x1f, 0x90, 127, 0, 0, 1, 0, 0, 0, 0, 0, 0, 0, 0]);
    assert_eq!(raw.family, AF_INET);
    assert_eq!(raw.host_port(), 8080);
    assert_eq!(raw.host_addr(), 0x7f00_0001);
}

#[test]
fn sockaddr_in_reads_back_what_it_wrote() {
    let bytes = [2u8, 0, 0, 53, 10, 0, 2, 3, 0, 0, 0, 0, 0, 0, 0, 0, 0xee];
    let raw = LinuxSockAddrIn::from_bytes(&bytes);
    assert_eq!(raw.host_port(), 53);
    assert_eq!(raw.host_addr(), 0x0a00_0203);
    assert_eq!(raw.to_bytes(), bytes[..16].to_vec());
}

#[test]
fn sockaddr_in6_layout_has_zero_flow_and_scope() {
    let mut addr = [0u8; 16];
    addr[15] = 1;
    let raw = LinuxSockAddrIn6::inet6(addr, 443);
    let bytes = raw.to_bytes();
    assert_eq!(bytes.len(), SOCKADDR_IN6_LEN);
    assert_eq!(&bytes[0..4], &[10, 0, 0x01, 0xbb]);
    assert_eq!(&bytes[4..8], &[0, 0, 0, 0]);
    assert_eq!(&bytes[8..24], &addr);
    assert_eq!(&bytes[24..28], &[0, 0, 0, 0]);
    assert_eq!(raw.family, AF_INET6);
    let back = LinuxSockAddrIn6::from_bytes(&bytes);
    assert_eq!(back.host_port(), 443);
    assert_eq!(back.addr, addr);
}

#[test]
fn sockaddr_nl_is_twelve_host_order_bytes() {
    let raw = LinuxSockAddrNetlink::netlink(0x0102_0304, 5);
    let bytes = raw.to_bytes();
    assert_eq!(bytes.len(), SOCKADDR_NL_LEN);
    assert_eq!(bytes, vec![16, 0, 0, 0, 4, 3, 2, 1, 5, 0, 0, 0]);
    let back = LinuxSockAddrNetlink::from_bytes(&bytes);
    assert_eq!(back.family, AF_NETLINK);
    assert_eq!(back.pid, 0x0102_0304);
    assert_eq!(back.groups, 5);
}

#[test]
fn generic_sockaddr_carries_fourteen_data_bytes() {
    let bytes = [17u8, 0, 0x08, 0x00, 2, 0, 0, 0, 0, 0, 0, 0, 0, 0, 0, 0];
    let raw = LinuxSockAddr::from_bytes(&bytes);
    assert_eq!(raw.family, AF_PACKET);
    assert_eq!(raw.data[0..2], [0x08, 0x00]);
    assert_eq!(raw.to_bytes().len(), SOCKADDR_LEN);
    assert_eq!(raw.to_bytes(), bytes.to_vec());
}
