//! The interface requests of socket `ioctl(2)`: the `ifreq` layout, the
//! device queries it answers, and the ethtool replies.
use vstd::prelude::*;
use vstd::string::StringSliceAdditionalSpecFns;
use vstd::utf8::encode_utf8;

use crate::bytes::{le16_at, le16_bytes, le32_at, le32_bytes, read_le16, read_le32, u16_to_le_bytes, u32_to_le_bytes};
use crate::errno::{EOPNOTSUPP, EPERM};
use crate::rtnetlink::NetDevice;
use crate::socket::{first_nul, zeros, ARPHRD_ETHER, ARPHRD_LOOPBACK};

verus! {

pub const IFNAMSIZ: usize = 16;
pub const IFREQ_DATA_LEN: usize = 24;
pub const SIOCGIFNAME: u32 = 0x8910;
pub const SIOCGIFFLAGS: u32 = 0x8913;
pub const SIOCSIFFLAGS: u32 = 0x8914;
pub const SIOCGIFMTU: u32 = 0x8921;
pub const SIOCGIFHWADDR: u32 = 0x8927;
pub const SIOCGIFINDEX: u32 = 0x8933;
pub const SIOCETHTOOL: u32 = 0x8946;
pub const ENOTTY: i32 = 25;
pub const IFF_UP: u16 = 0x1;
pub const ETHTOOL_GDRVINFO: u32 = 0x0000_0003;
pub const ETHTOOL_GLINK: u32 = 0x0000_000a;
pub const ETHTOOL_GLINKSETTINGS: u32 = 0x0000_004c;
pub const DUPLEX_FULL: u8 = 0x01;
pub const PORT_OTHER: u8 = 0xff;
/// The sizes of the ethtool structures these commands read and write.
pub const ETHTOOL_DRVINFO_LEN: usize = 196;
pub const ETHTOOL_VALUE_LEN: usize = 8;
pub const ETHTOOL_LINK_SETTINGS_LEN: usize = 48;

/// An interface request: the interface name, then the request data.
#[derive(Clone, Copy, Debug, PartialEq, Eq)]
pub struct LinuxIfreq {
    pub ifr_name: [u8; 16],
    pub ifru: [u8; 24],
}

/// `value` written as a C string into `n` bytes: as much as leaves room for
/// the NUL, then zeros.
pub open spec fn c_string(value: Seq<u8>, n: int) -> Seq<u8> {
    let room = if n > 0 { n - 1 } else { 0 };
    let k = if value.len() < room { value.len() as int } else { room };
    value.take(k) + zeros((n - k) as nat)
}

/// Writes `value` into `dst` as a C string, cut to leave room for the NUL.
pub fn fill_c_string(dst: &mut [u8], value: &[u8])
    ensures
        final(dst)@ == c_string(value@, old(dst)@.len() as int),
{
    let n = dst.len();
    let room: usize = if n > 0 { n - 1 } else { 0 };
    let k: usize = if value.len() < room { value.len() } else { room };
    let mut i: usize = 0;
    while i < n
        invariant
            i <= n,
            n == dst@.len(),
            k <= room,
            room <= n,
            k <= value@.len(),
            forall|j: int| 0 <= j < i ==> #[trigger] dst@[j] == (if j < k { value@[j] } else { 0u8 }),
        decreases n - i,
    {
        if i < k {
            dst[i] = value[i];
        } else {
            dst[i] = 0;
        }
        i += 1;
    }
    assert(dst@ =~= c_string(value@, n as int));
}

/// The interface a request names: the name bytes before the first NUL,
/// and before a `:` alias suffix.
pub open spec fn ifreq_name_bytes(name: Seq<u8>) -> Seq<u8> {
    let s = name.take(first_nul(name) as int);
    s.take(first_colon(s) as int)
}

/// The index of the first `:` of `s`, or its length when it has none.
pub open spec fn first_colon(s: Seq<u8>) -> nat
    decreases s.len(),
{
    if s.len() == 0 {
        0
    } else if s[0] == 58 {
        0
    } else {
        1 + first_colon(s.drop_first())
    }
}

proof fn lemma_first_colon(s: Seq<u8>, k: int)
    requires
        0 <= k <= s.len(),
        forall|j: int| 0 <= j < k ==> s[j] != 58,
        k == s.len() || s[k] == 58,
    ensures
        first_colon(s) == k,
    decreases k,
{
    if k > 0 {
        lemma_first_colon(s.drop_first(), k - 1);
    }
}

proof fn lemma_first_nul_of(s: Seq<u8>, k: int)
    requires
        0 <= k <= s.len(),
        forall|j: int| 0 <= j < k ==> s[j] != 0,
        k == s.len() || s[k] == 0,
    ensures
        first_nul(s) == k,
    decreases k,
{
    if k > 0 {
        lemma_first_nul_of(s.drop_first(), k - 1);
    }
}

impl LinuxIfreq {
    /// The interface name bytes of the request.
    pub fn ifname(&self) -> (r: Vec<u8>)
        ensures
            r@ == ifreq_name_bytes(self.ifr_name@),
    {
        let mut end: usize = 0;
        while end < IFNAMSIZ && self.ifr_name[end] != 0
            invariant
                end <= IFNAMSIZ,
                self.ifr_name@.len() == IFNAMSIZ,
                forall|j: int| 0 <= j < end ==> self.ifr_name@[j] != 0,
            decreases IFNAMSIZ - end,
        {
            end += 1;
        }
        proof {
            lemma_first_nul_of(self.ifr_name@, end as int);
        }
        let ghost s = self.ifr_name@.take(end as int);
        let mut cut: usize = 0;
        while cut < end && self.ifr_name[cut] != 58
            invariant
                cut <= end <= IFNAMSIZ,
                self.ifr_name@.len() == IFNAMSIZ,
                s == self.ifr_name@.take(end as int),
                forall|j: int| 0 <= j < cut ==> s[j] != 58,
            decreases end - cut,
        {
            cut += 1;
        }
        proof {
            lemma_first_colon(s, cut as int);
        }
        let mut out: Vec<u8> = Vec::new();
        let mut i: usize = 0;
        while i < cut
            invariant
                i <= cut <= end <= IFNAMSIZ,
                self.ifr_name@.len() == IFNAMSIZ,
                out@ == self.ifr_name@.take(i as int),
            decreases cut - i,
        {
            out.push(self.ifr_name[i]);
            i += 1;
            assert(out@ =~= self.ifr_name@.take(i as int));
        }
        assert(s.take(cut as int) =~= self.ifr_name@.take(cut as int));
        out
    }

    /// Names interface `name` in the request, cut to leave room for the NUL.
    pub fn set_ifname(&mut self, name: &str)
        ensures
            final(self).ifr_name@ == c_string(name.spec_bytes(), IFNAMSIZ as int),
            final(self).ifru == old(self).ifru,
    {
        let bytes: &[u8] = name.as_bytes();
        let mut buf = self.ifr_name;
        fill_c_string(&mut buf, bytes);
        self.ifr_name = buf;
    }

    /// The interface index the request holds.
    pub fn ifindex(&self) -> (r: i32)
        ensures
            r == le32_at(self.ifru@, 0) as i32,
    {
        read_le32(&self.ifru, 0) as i32
    }

    /// The request data with `word` over its first bytes.
    fn put_bytes(&mut self, word: &[u8])
        requires
            word@.len() <= IFREQ_DATA_LEN,
        ensures
            final(self).ifru@ == word@ + old(self).ifru@.skip(word@.len() as int),
            final(self).ifr_name == old(self).ifr_name,
    {
        let ghost orig = self.ifru@;
        let mut i: usize = 0;
        while i < word.len()
            invariant
                i <= word@.len() <= IFREQ_DATA_LEN,
                self.ifru@.len() == IFREQ_DATA_LEN,
                self.ifr_name == old(self).ifr_name,
                orig == old(self).ifru@,
                forall|j: int| 0 <= j < IFREQ_DATA_LEN ==> #[trigger] self.ifru@[j] == if j < i { word@[j] } else { orig[j] },
            decreases word@.len() - i,
        {
            self.ifru.set(i, word[i]);
            i += 1;
        }
        assert(self.ifru@ =~= word@ + orig.skip(word@.len() as int));
    }

    /// Stores an interface index in the request.
    pub fn set_ifindex(&mut self, ifindex: i32)
        ensures
            final(self).ifru@ == le32_bytes(ifindex as u32) + old(self).ifru@.skip(4),
            final(self).ifr_name == old(self).ifr_name,
    {
        self.put_bytes(&u32_to_le_bytes(ifindex as u32));
    }

    /// The interface flags the request holds.
    pub fn flags(&self) -> (r: u16)
        ensures
            r == le16_at(self.ifru@, 0),
    {
        read_le16(&self.ifru, 0)
    }

    /// Stores interface flags in the request.
    pub fn set_flags(&mut self, flags: u16)
        ensures
            final(self).ifru@ == le16_bytes(flags) + old(self).ifru@.skip(2),
            final(self).ifr_name == old(self).ifr_name,
    {
        self.put_bytes(&u16_to_le_bytes(flags));
    }

    /// Stores an MTU in the request.
    pub fn set_mtu(&mut self, mtu: i32)
        ensures
            final(self).ifru@ == le32_bytes(mtu as u32) + old(self).ifru@.skip(4),
            final(self).ifr_name == old(self).ifr_name,
    {
        self.put_bytes(&u32_to_le_bytes(mtu as u32));
    }
}

/// What a device request asks the device layer to do afterwards.
#[derive(Clone, Copy, Debug, PartialEq, Eq, Structural)]
pub enum DevIoctl {
    /// Nothing: the request was answered in place.
    Answered,
    /// Bring the device up (`true`) or down.
    SetUp(bool),
}

/// The hardware address of a device as `SIOCGIFHWADDR` reports it: the link
/// type (loopback for `lo`), then the address, in 16 bytes.
pub open spec fn hwaddr_bytes(loopback: bool, addr: Seq<u8>) -> Seq<u8> {
    le16_bytes(if loopback { ARPHRD_LOOPBACK } else { ARPHRD_ETHER }) + addr + zeros(8)
}

/// Answers a device request for `dev`: its flags (low 16 bits), MTU, index
/// or hardware address go into the request; setting flags needs network
/// administration rights (`may_admin`, else EPERM) and asks for the device
/// to change state when IFF_UP differs from `is_up`; other requests are
/// ENOTTY.
pub fn socket_ioctl_dev(dev: &NetDevice, is_up: bool, may_admin: bool, cmd: u32, ifr: &mut LinuxIfreq) -> (r: Result<
    DevIoctl,
    i32,
>)
    ensures
        final(ifr).ifr_name == old(ifr).ifr_name,
        cmd == SIOCGIFFLAGS ==> r == Ok::<DevIoctl, i32>(DevIoctl::Answered) && final(ifr).ifru@ == le16_bytes(
            dev.flags as u16,
        ) + old(ifr).ifru@.skip(2),
        cmd == SIOCSIFFLAGS ==> {
            let wants_up = le16_at(old(ifr).ifru@, 0) & IFF_UP != 0;
            &&& *final(ifr) == *old(ifr)
            &&& !may_admin ==> r == Err::<DevIoctl, i32>(EPERM)
            &&& may_admin && wants_up != is_up ==> r == Ok::<DevIoctl, i32>(DevIoctl::SetUp(wants_up))
            &&& may_admin && wants_up == is_up ==> r == Ok::<DevIoctl, i32>(DevIoctl::Answered)
        },
        cmd == SIOCGIFMTU ==> r == Ok::<DevIoctl, i32>(DevIoctl::Answered) && final(ifr).ifru@ == le32_bytes(dev.mtu)
            + old(ifr).ifru@.skip(4),
        cmd == SIOCGIFHWADDR ==> r == Ok::<DevIoctl, i32>(DevIoctl::Answered) && final(ifr).ifru@ == hwaddr_bytes(
            encode_utf8(dev.name@) == seq![108u8, 111u8],
            dev.dev_addr@,
        ) + old(ifr).ifru@.skip(16),
        cmd == SIOCGIFINDEX ==> r == Ok::<DevIoctl, i32>(DevIoctl::Answered) && final(ifr).ifru@ == le32_bytes(
            dev.ifindex,
        ) + old(ifr).ifru@.skip(4),
        cmd != SIOCGIFFLAGS && cmd != SIOCSIFFLAGS && cmd != SIOCGIFMTU && cmd != SIOCGIFHWADDR && cmd != SIOCGIFINDEX
            ==> r == Err::<DevIoctl, i32>(ENOTTY) && *final(ifr) == *old(ifr),
{
    if cmd == SIOCGIFFLAGS {
        ifr.set_flags(dev.flags as u16);
        Ok(DevIoctl::Answered)
    } else if cmd == SIOCSIFFLAGS {
        if !may_admin {
            return Err(EPERM);
        }
        let wants_up = ifr.flags() & IFF_UP != 0;
        if wants_up != is_up {
            Ok(DevIoctl::SetUp(wants_up))
        } else {
            Ok(DevIoctl::Answered)
        }
    } else if cmd == SIOCGIFMTU {
        ifr.set_mtu(dev.mtu as i32);
        proof {
            let m = dev.mtu;
            assert((m as i32) as u32 == m) by (bit_vector);
        }
        Ok(DevIoctl::Answered)
    } else if cmd == SIOCGIFHWADDR {
        let lo = [108u8, 111u8];
        assert(lo@ =~= seq![108u8, 111u8]);
        let loopback = bytes_equal(dev.name.as_str().as_bytes(), &lo);
        let mut word: Vec<u8> = Vec::new();
        crate::ip::push_bytes(&mut word, &u16_to_le_bytes(if loopback { ARPHRD_LOOPBACK } else { ARPHRD_ETHER }));
        crate::ip::push_bytes(&mut word, &dev.dev_addr);
        let pad = [0u8; 8];
        assert(pad@ =~= zeros(8));
        crate::ip::push_bytes(&mut word, &pad);
        ifr.put_bytes(word.as_slice());
        Ok(DevIoctl::Answered)
    } else if cmd == SIOCGIFINDEX {
        ifr.set_ifindex(dev.ifindex as i32);
        proof {
            let x = dev.ifindex;
            assert((x as i32) as u32 == x) by (bit_vector);
        }
        Ok(DevIoctl::Answered)
    } else {
        Err(ENOTTY)
    }
}

/// The name the kernel reports as its driver version.
pub open spec fn lupos_bytes() -> Seq<u8> {
    seq![108u8, 117u8, 112u8, 111u8, 115u8]
}

/// Whether two byte strings are equal.
fn bytes_equal(a: &[u8], b: &[u8]) -> (r: bool)
    ensures
        r == (a@ == b@),
{
    if a.len() != b.len() {
        return false;
    }
    let mut i: usize = 0;
    while i < a.len()
        invariant
            i <= a@.len(),
            a@.len() == b@.len(),
            forall|j: int| 0 <= j < i ==> a@[j] == b@[j],
        decreases a@.len() - i,
    {
        if a[i] != b[i] {
            return false;
        }
        i += 1;
    }
    assert(a@ =~= b@);
    true
}

/// The ethtool structure `request` with `field` written at `off`.
pub open spec fn patched(request: Seq<u8>, off: int, field: Seq<u8>) -> Seq<u8> {
    request.take(off) + field + request.skip(off + field.len())
}

fn patch(out: &mut Vec<u8>, off: usize, field: &[u8])
    requires
        off + field@.len() <= old(out)@.len(),
    ensures
        final(out)@ == patched(old(out)@, off as int, field@),
{
    let ghost orig = out@;
    let mut i: usize = 0;
    while i < field.len()
        invariant
            i <= field@.len(),
            off + field@.len() <= orig.len(),
            out@.len() == orig.len(),
            out.len() == orig.len(),
            forall|j: int| 0 <= j < orig.len() ==> #[trigger] out@[j] == if off <= j < off + i { field@[j - off] } else { orig[j] },
        decreases field@.len() - i,
    {
        out.set(off + i, field[i]);
        i += 1;
    }
    assert(out@ =~= patched(orig, off as int, field@));
}

/// The reply of an ethtool command to the structure the caller passed
/// (`request`, as long as the command's structure): the driver
/// information (driver name, the kernel's name, and the interface name as
/// bus), the link state, or the link settings (10 Gbit/s full duplex when
/// the carrier is up); other commands are EOPNOTSUPP.
pub fn socket_ioctl_ethtool(cmd: u32, driver: &str, dev_name: &str, carrier: bool, request: &[u8]) -> (r: Result<
    Vec<u8>,
    i32,
>)
    requires
        cmd == ETHTOOL_GDRVINFO ==> request@.len() == ETHTOOL_DRVINFO_LEN,
        cmd == ETHTOOL_GLINK ==> request@.len() == ETHTOOL_VALUE_LEN,
        cmd == ETHTOOL_GLINKSETTINGS ==> request@.len() == ETHTOOL_LINK_SETTINGS_LEN,
    ensures
        cmd == ETHTOOL_GDRVINFO ==> (r matches Ok(v) && v@ == patched(
            patched(
                patched(patched(request@, 0, le32_bytes(ETHTOOL_GDRVINFO)), 4, c_string(driver.spec_bytes(), 32)),
                36,
                c_string(lupos_bytes(), 32),
            ),
            100,
            c_string(dev_name.spec_bytes(), 32),
        )),
        cmd == ETHTOOL_GLINK ==> (r matches Ok(v) && v@ == le32_bytes(ETHTOOL_GLINK) + le32_bytes(
            if carrier { 1 } else { 0 },
        )),
        cmd == ETHTOOL_GLINKSETTINGS ==> (r matches Ok(v) && v@ == le32_bytes(ETHTOOL_GLINKSETTINGS) + le32_bytes(
            if carrier { 10000 } else { 0 },
        ) + seq![DUPLEX_FULL, PORT_OTHER] + zeros(10) + request@.skip(20)),
        cmd != ETHTOOL_GDRVINFO && cmd != ETHTOOL_GLINK && cmd != ETHTOOL_GLINKSETTINGS ==> r == Err::<Vec<u8>, i32>(
            EOPNOTSUPP,
        ),
{
    if cmd == ETHTOOL_GDRVINFO {
        let mut out: Vec<u8> = Vec::new();
        crate::ip::push_bytes(&mut out, request);
        patch(&mut out, 0, &u32_to_le_bytes(ETHTOOL_GDRVINFO));
        let mut field = [0u8; 32];
        fill_c_string(&mut field, driver.as_bytes());
        patch(&mut out, 4, &field);
        let mut field = [0u8; 32];
        let lupos = [108u8, 117u8, 112u8, 111u8, 115u8];
        assert(lupos@ =~= lupos_bytes());
        fill_c_string(&mut field, &lupos);
        patch(&mut out, 36, &field);
        let mut field = [0u8; 32];
        fill_c_string(&mut field, dev_name.as_bytes());
        patch(&mut out, 100, &field);
        Ok(out)
    } else if cmd == ETHTOOL_GLINK {
        let mut out: Vec<u8> = Vec::new();
        crate::ip::push_bytes(&mut out, &u32_to_le_bytes(ETHTOOL_GLINK));
        crate::ip::push_bytes(&mut out, &u32_to_le_bytes(if carrier { 1 } else { 0 }));
        Ok(out)
    } else if cmd == ETHTOOL_GLINKSETTINGS {
        let mut out: Vec<u8> = Vec::new();
        crate::ip::push_bytes(&mut out, &u32_to_le_bytes(ETHTOOL_GLINKSETTINGS));
        crate::ip::push_bytes(&mut out, &u32_to_le_bytes(if carrier { 10000 } else { 0 }));
        out.push(DUPLEX_FULL);
        out.push(PORT_OTHER);
        let mut i: usize = 0;
        while i < 10
            invariant
                i <= 10,
                out@ == le32_bytes(ETHTOOL_GLINKSETTINGS) + le32_bytes(if carrier { 10000 } else { 0 }) + seq![
                    DUPLEX_FULL,
                    PORT_OTHER,
                ] + zeros(i as nat),
            decreases 10 - i,
        {
            out.push(0);
            i += 1;
        }
        let rest = crate::socket::slice_from(request, 20);
        crate::ip::push_bytes(&mut out, rest);
        Ok(out)
    } else {
        Err(EOPNOTSUPP)
    }
}

} // verus!
