//! Configuration protocol for Linux TUN/TAP virtual network devices.
//!
//! The library covers the logic of the `/dev/net/tun` device-open protocol:
//! encoding the kernel's fixed-layout interface request, choosing the open
//! flags, and interpreting what the kernel hands back.  The syscalls
//! themselves (opening the device file and issuing the ioctls) are left to
//! the embedding I/O layer, which drives them with the requests built here.

pub mod builder;
pub mod codec;
pub mod device;
pub mod protocol;
