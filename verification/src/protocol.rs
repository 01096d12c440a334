//! The device-open protocol.
//!
//! Opening a device is a fixed sequence the embedding I/O layer performs
//! against `/dev/net/tun`: open the device file read+write, issue
//! `TUNSETIFF` with an encoded interface request, issue `TUNSETPERSIST`
//! with 1 or 0 (skipped entirely for queue opens, which must leave the
//! interface's persist state alone), then read the authoritative name back
//! out of the request structure the kernel rewrote.  This module builds the
//! request for that sequence (`OpenRequest`) and interprets its outcome
//! (`complete_open`); the syscalls themselves stay outside the library.

use vstd::prelude::*;
use crate::codec::{
    decoded_name, encode_request, encoded_request, decode_name, lemma_request_roundtrip,
    truncated_name, IFF_MULTI_QUEUE, IFF_NO_PI, IFF_TAP, IFF_TUN, IF_NAME_SIZE,
};
use crate::device::{InternalTun, MultiQueueTap, MultiQueueTun, Queue};

verus! {

/// The flags a device is opened with: exactly one of the TUN/TAP type bits,
/// the multi-queue bit when several queues are wanted, and the
/// no-packet-info bit unless the 4-byte per-frame header was asked for.
/// The three contributions sit in disjoint bits, so their sum equals their
/// bitwise combination.
pub open spec fn spec_open_flags(tap: bool, multi_queue: bool, packet_info: bool) -> u16 {
    ((if tap {
        IFF_TAP
    } else {
        IFF_TUN
    }) + (if multi_queue {
        IFF_MULTI_QUEUE
    } else {
        0
    }) + (if packet_info {
        0
    } else {
        IFF_NO_PI
    })) as u16
}

/// Combine the open flags for one device configuration.
pub fn open_flags(tap: bool, multi_queue: bool, packet_info: bool) -> (r: u16)
    ensures
        r == spec_open_flags(tap, multi_queue, packet_info),
{
    let base: u16 = if tap { IFF_TAP } else { IFF_TUN };
    let mq: u16 = if multi_queue { IFF_MULTI_QUEUE } else { 0 };
    let pi: u16 = if packet_info { 0 } else { IFF_NO_PI };
    assert((base | mq | pi) == (base + mq + pi) as u16) by (bit_vector)
        requires
            (base == 1 || base == 2) && (mq == 0 || mq == 0x100) && (pi == 0 || pi == 0x1000),
    ;
    base | mq | pi
}

/// Each configuration choice lands in its own bit of the open flags: the
/// no-packet-info bit is set exactly when packet information was not asked
/// for, the TUN and TAP type bits exactly according to the device type, and
/// the multi-queue bit exactly when several queues were asked for.
pub proof fn lemma_open_flag_bits(tap: bool, multi_queue: bool, packet_info: bool)
    ensures
        (spec_open_flags(tap, multi_queue, packet_info) & IFF_NO_PI != 0) <==> !packet_info,
        (spec_open_flags(tap, multi_queue, packet_info) & IFF_TAP != 0) <==> tap,
        (spec_open_flags(tap, multi_queue, packet_info) & IFF_TUN != 0) <==> !tap,
        (spec_open_flags(tap, multi_queue, packet_info) & IFF_MULTI_QUEUE != 0) <==> multi_queue,
{
    let t: u16 = if tap { IFF_TAP } else { IFF_TUN };
    let m: u16 = if multi_queue { IFF_MULTI_QUEUE } else { 0 };
    let p: u16 = if packet_info { 0 } else { IFF_NO_PI };
    let f = spec_open_flags(tap, multi_queue, packet_info);
    assert(f == (t + m + p) as u16);
    assert({
        &&& (((t + m + p) as u16) & 0x1000u16 != 0 <==> p == 0x1000)
        &&& (((t + m + p) as u16) & 0x2u16 != 0 <==> t == 2)
        &&& (((t + m + p) as u16) & 0x1u16 != 0 <==> t == 1)
        &&& (((t + m + p) as u16) & 0x100u16 != 0 <==> m == 0x100)
    }) by (bit_vector)
        requires
            (t == 1 || t == 2) && (m == 0 || m == 0x100) && (p == 0 || p == 0x1000),
    ;
}

/// Everything one run of the open sequence needs: the request structure for
/// `TUNSETIFF`, the argument for `TUNSETPERSIST`, and the flags the handle
/// will record.
pub struct OpenRequest {
    /// The encoded interface request handed to `TUNSETIFF`; the kernel
    /// rewrites it in place.
    pub ifreq: Vec<u8>,
    /// The integer argument for `TUNSETPERSIST`: 1 to make the interface
    /// outlive its descriptors, 0 to make it not.  With no value the open
    /// sequence issues no persistence instruction at all and the interface's
    /// persist state is left unchanged (queue opens).
    pub persist_arg: Option<u64>,
    /// The flags the request was encoded with.
    pub flags: u16,
}

/// Build the request for one run of the open sequence.  An empty name asks
/// the kernel to pick one; a longer name is silently truncated to the name
/// field's effective capacity.
pub fn build_request(name: &[u8], flags: u16, persist: bool) -> (r: OpenRequest)
    ensures
        r.flags == flags,
        r.persist_arg == Some(if persist { 1u64 } else { 0u64 }),
        r.ifreq@ == encoded_request(name@, flags),
{
    OpenRequest {
        ifreq: encode_request(name, flags),
        persist_arg: Some(if persist { 1 } else { 0 }),
        flags,
    }
}

/// Build the request that re-runs the open sequence for one more queue of an
/// already-open interface: the resolved name and the same flags, and no
/// persistence instruction.
pub fn build_queue_request(name: &[u8], flags: u16) -> (r: OpenRequest)
    ensures
        r.flags == flags,
        r.persist_arg is None,
        r.ifreq@ == encoded_request(name@, flags),
{
    OpenRequest { ifreq: encode_request(name, flags), persist_arg: None, flags }
}

/// Interpret a completed open sequence: the kernel accepted the request,
/// possibly rewrote the name in it, and `fd` is the descriptor of the opened
/// device file.  The decoded name is the authoritative interface name.
pub fn complete_open(fd: i32, flags: u16, ifreq: &[u8]) -> (r: InternalTun)
    requires
        ifreq@.len() >= IF_NAME_SIZE,
    ensures
        r.fd == fd,
        r.flags == flags,
        r.name@ == decoded_name(ifreq@),
{
    InternalTun { fd, name: decode_name(ifreq), flags }
}

/// The capability of opening one more queue, attached only to the
/// multi-queue device variants.  The request re-runs the open sequence with
/// the already-resolved interface name and the same flags, but carries no
/// persistence instruction: opening a queue leaves the interface's persist
/// state unchanged.
pub trait MultiQueue {
    /// The handle of the device a queue is opened from.
    spec fn origin(&self) -> InternalTun;

    /// Build the request that opens one more queue of this device.
    fn open_queue_request(&self) -> (r: OpenRequest)
        ensures
            r.flags == self.origin().flags,
            r.persist_arg is None,
            r.ifreq@ == encoded_request(self.origin().name@, self.origin().flags),
    ;
}

impl MultiQueue for MultiQueueTun {
    open spec fn origin(&self) -> InternalTun {
        self.0
    }

    fn open_queue_request(&self) -> (r: OpenRequest) {
        build_queue_request(self.0.name.as_slice(), self.0.flags)
    }
}

impl MultiQueue for MultiQueueTap {
    open spec fn origin(&self) -> InternalTun {
        self.0
    }

    fn open_queue_request(&self) -> (r: OpenRequest) {
        build_queue_request(self.0.name.as_slice(), self.0.flags)
    }
}

/// Interpret a completed queue-open sequence: an independent handle, bound
/// to the interface named in the rewritten request.
pub fn complete_queue(fd: i32, flags: u16, ifreq: &[u8]) -> (r: Queue)
    requires
        ifreq@.len() >= IF_NAME_SIZE,
    ensures
        r.0.fd == fd,
        r.0.flags == flags,
        r.0.name@ == decoded_name(ifreq@),
{
    Queue(complete_open(fd, flags, ifreq))
}

/// A queue opened from a multi-queue device resolves to the same interface
/// name as the device it came from: when the kernel leaves the name of the
/// queue request unchanged — the name is already resolved, fits the name
/// field and holds no zero byte — decoding gives that name back exactly.
pub proof fn lemma_queue_keeps_name(origin: InternalTun)
    requires
        origin.name@.len() < IF_NAME_SIZE,
        forall|j: int| 0 <= j < origin.name@.len() ==> origin.name@[j] != 0,
    ensures
        decoded_name(encoded_request(origin.name@, origin.flags)) == origin.name@,
{
    lemma_request_roundtrip(origin.name@, origin.flags);
    assert(truncated_name(origin.name@) == origin.name@);
}

} // verus!
