//! Device handles and the typed device variants.
//!
//! A handle owns one descriptor to the device file, the interface name the
//! kernel resolved, and the flags the device was opened with.  The variants
//! wrap one handle each and differ only in which capabilities they expose:
//! all of them give plain access to the handle; the multi-queue ones can in
//! addition describe the request that opens another queue (see
//! `protocol::MultiQueue`).

use vstd::prelude::*;

verus! {

/// One open TUN/TAP device: the descriptor number of the open device file,
/// the interface name the kernel resolved, and the flags the device was
/// opened with.  The flags are fixed at open time and never change.
#[derive(Debug)]
pub struct InternalTun {
    /// Descriptor number of the open device file, for the embedding I/O
    /// layer's reads, writes and polling.
    pub fd: i32,
    /// The authoritative interface name, read back from the kernel.
    pub name: Vec<u8>,
    /// The flags the device was opened with.
    pub flags: u16,
}

impl InternalTun {
    /// The descriptor number, for polling/select integration.
    pub fn as_raw_fd(&self) -> (r: i32)
        ensures
            r == self.fd,
    {
        self.fd
    }

    /// The resolved interface name.
    pub fn name(&self) -> (r: &Vec<u8>)
        ensures
            r@ == self.name@,
    {
        &self.name
    }

    /// The flags the device was opened with.
    pub fn flags(&self) -> (r: u16)
        ensures
            r == self.flags,
    {
        self.flags
    }
}

/// A single-queue device carrying raw IP-layer frames.
#[derive(Debug)]
pub struct Tun(pub InternalTun);

/// A multi-queue device carrying raw IP-layer frames.
#[derive(Debug)]
pub struct MultiQueueTun(pub InternalTun);

/// A single-queue device carrying raw Ethernet-layer frames.
#[derive(Debug)]
pub struct Tap(pub InternalTun);

/// A multi-queue device carrying raw Ethernet-layer frames.
#[derive(Debug)]
pub struct MultiQueueTap(pub InternalTun);

/// One additional queue of a multi-queue device: an independent handle bound
/// to the same interface; it cannot itself open further queues.
#[derive(Debug)]
pub struct Queue(pub InternalTun);

/// The uniform capability every open device variant exposes, so that calling
/// code can be written generically over any of them: access to the one handle
/// the variant wraps, and through it to the descriptor, name and flags.
pub trait Device {
    /// The handle the variant wraps, as a specification-level value.
    spec fn handle(&self) -> InternalTun;

    /// The handle the variant wraps.
    fn device(&self) -> (r: &InternalTun)
        ensures
            *r == self.handle(),
    ;

    /// The descriptor number, for polling/select integration.
    fn as_raw_fd(&self) -> (r: i32)
        ensures
            r == self.handle().fd,
    ;
}

impl Device for Tun {
    open spec fn handle(&self) -> InternalTun {
        self.0
    }

    fn device(&self) -> (r: &InternalTun) {
        &self.0
    }

    fn as_raw_fd(&self) -> (r: i32) {
        self.0.as_raw_fd()
    }
}

impl Device for MultiQueueTun {
    open spec fn handle(&self) -> InternalTun {
        self.0
    }

    fn device(&self) -> (r: &InternalTun) {
        &self.0
    }

    fn as_raw_fd(&self) -> (r: i32) {
        self.0.as_raw_fd()
    }
}

impl Device for Tap {
    open spec fn handle(&self) -> InternalTun {
        self.0
    }

    fn device(&self) -> (r: &InternalTun) {
        &self.0
    }

    fn as_raw_fd(&self) -> (r: i32) {
        self.0.as_raw_fd()
    }
}

impl Device for MultiQueueTap {
    open spec fn handle(&self) -> InternalTun {
        self.0
    }

    fn device(&self) -> (r: &InternalTun) {
        &self.0
    }

    fn as_raw_fd(&self) -> (r: i32) {
        self.0.as_raw_fd()
    }
}

impl Device for Queue {
    open spec fn handle(&self) -> InternalTun {
        self.0
    }

    fn device(&self) -> (r: &InternalTun) {
        &self.0
    }

    fn as_raw_fd(&self) -> (r: i32) {
        self.0.as_raw_fd()
    }
}

} // verus!
