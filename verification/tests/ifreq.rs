use lupos_net::errno::{EOPNOTSUPP, EPERM};
use lupos_net::ifreq::{
    fill_c_string, socket_ioctl_dev, socket_ioctl_ethtool, DevIoctl, LinuxIfreq, ENOTTY, ETHTOOL_GDRVINFO,
    ETHTOOL_GLINK, ETHTOOL_GLINKSETTINGS, SIOCGIFFLAGS, SIOCGIFHWADDR, SIOCGIFINDEX, SIOCGIFMTU, SIOCSIFFLAGS,
};
use lupos_net::rtnetlink::NetDevice;

fn ifreq(name: &[u8]) -> LinuxIfreq {
    let mut ifr = LinuxIfreq { ifr_name: [0; 16], ifru: [0xaa; 24] };
    ifr.ifr_name[..name.len()].copy_from_slice(name);
    ifr
}

fn eth0() -> NetDevice {
    NetDevice { ifindex: 2, flags: 0x1043, mtu: 1500, name: String::from("eth0"), dev_addr: [2, 0, 0, 0, 0, 9] }
}

#[test]
fn ifreq_names_drop_nul_padding_and_alias_suffix() {
    assert_eq!(ifreq(b"eth0").ifname(), b"eth0".to_vec());
    assert_eq!(ifreq(b"eth0:1").ifname(), b"eth0".to_vec());
    assert_eq!(ifreq(&[b'x'; 16]).ifname(), vec![b'x'; 16]);
    let mut ifr = ifreq(b"");
    ifr.set_ifname("a-very-long-interface-name");
    assert_eq!(&ifr.ifr_name[..15], b"a-very-long-int");
    assert_eq!(ifr.ifr_name[15], 0);
    ifr.set_ifindex(7);
    assert_eq!(ifr.ifindex(), 7);
    ifr.set_flags(0x41);
    assert_eq!(ifr.flags(), 0x41);
    let mut small = [9u8; 4];
    fill_c_string(&mut small, b"abcdef");
    assert_eq!(small, [b'a', b'b', b'c', 0]);
}

#[test]
fn device_requests_answer_from_the_device() {
    let dev = eth0();
    let mut ifr = ifreq(b"eth0");
    assert_eq!(socket_ioctl_dev(&dev, true, false, SIOCGIFFLAGS, &mut ifr), Ok(DevIoctl::Answered));
    assert_eq!(ifr.flags(), 0x1043);
    assert_eq!(&ifr.ifru[2..], &[0xaa; 22]);
    socket_ioctl_dev(&dev, true, false, SIOCGIFMTU, &mut ifr).unwrap();
    assert_eq!(ifr.ifindex(), 1500);
    socket_ioctl_dev(&dev, true, false, SIOCGIFINDEX, &mut ifr).unwrap();
    assert_eq!(ifr.ifindex(), 2);
    socket_ioctl_dev(&dev, true, false, SIOCGIFHWADDR, &mut ifr).unwrap();
    assert_eq!(&ifr.ifru[..8], &[1, 0, 2, 0, 0, 0, 0, 9]);
    let lo = NetDevice { ifindex: 1, flags: 0x49, mtu: 65536, name: String::from("lo"), dev_addr: [0; 6] };
    socket_ioctl_dev(&lo, true, false, SIOCGIFHWADDR, &mut ifr).unwrap();
    assert_eq!(u16::from_ne_bytes([ifr.ifru[0], ifr.ifru[1]]), 772);

    let mut down = ifreq(b"eth0");
    down.set_flags(0);
    assert_eq!(socket_ioctl_dev(&dev, true, false, SIOCSIFFLAGS, &mut down), Err(EPERM));
    assert_eq!(socket_ioctl_dev(&dev, true, true, SIOCSIFFLAGS, &mut down), Ok(DevIoctl::SetUp(false)));
    assert_eq!(socket_ioctl_dev(&dev, false, true, SIOCSIFFLAGS, &mut down), Ok(DevIoctl::Answered));
    assert_eq!(socket_ioctl_dev(&dev, true, true, 0x1234, &mut down), Err(ENOTTY));
}

#[test]
fn ethtool_replies_fill_the_callers_structures() {
    let req = vec![0u8; 196];
    let info = socket_ioctl_ethtool(ETHTOOL_GDRVINFO, "virtio_net", "eth0", true, &req).unwrap();
    assert_eq!(u32::from_ne_bytes(info[0..4].try_into().unwrap()), ETHTOOL_GDRVINFO);
    assert_eq!(&info[4..15], b"virtio_net\0");
    assert_eq!(&info[36..42], b"lupos\0");
    assert_eq!(&info[100..105], b"eth0\0");
    let link = socket_ioctl_ethtool(ETHTOOL_GLINK, "", "", false, &[0u8; 8]).unwrap();
    assert_eq!(link, vec![0x0a, 0, 0, 0, 0, 0, 0, 0]);
    let mut settings_req = vec![0x55u8; 48];
    settings_req[0] = 0;
    let settings = socket_ioctl_ethtool(ETHTOOL_GLINKSETTINGS, "", "", true, &settings_req).unwrap();
    assert_eq!(u32::from_ne_bytes(settings[4..8].try_into().unwrap()), 10_000);
    assert_eq!(&settings[8..10], &[1, 0xff]);
    assert_eq!(&settings[10..20], &[0; 10]);
    assert_eq!(&settings[20..], &[0x55; 28]);
    assert_eq!(socket_ioctl_ethtool(0x99, "", "", true, &[]), Err(EOPNOTSUPP));
}
