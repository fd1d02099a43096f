//! Linux errno values used across the networking modules.
use vstd::prelude::*;

verus! {

pub const EPERM: i32 = 1;
pub const ENOENT: i32 = 2;
pub const EAGAIN: i32 = 11;
pub const ENOMEM: i32 = 12;
pub const EACCES: i32 = 13;
pub const EFAULT: i32 = 14;
pub const EBUSY: i32 = 16;
pub const EEXIST: i32 = 17;
pub const ENODEV: i32 = 19;
pub const EINVAL: i32 = 22;
pub const ENOSPC: i32 = 28;
pub const E2BIG: i32 = 7;
pub const ENOSYS: i32 = 38;
pub const ETIMEDOUT: i32 = 110;
pub const ECONNREFUSED: i32 = 111;
pub const EPROTO: i32 = 71;
pub const EBADMSG: i32 = 74;
pub const EOPNOTSUPP: i32 = 95;
pub const EPROTONOSUPPORT: i32 = 93;
pub const EAFNOSUPPORT: i32 = 97;
pub const EADDRINUSE: i32 = 98;
pub const ENOTCONN: i32 = 107;
pub const ENOPROTOOPT: i32 = 92;

} // verus!
