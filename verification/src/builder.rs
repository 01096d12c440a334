//! The device builder: accumulates a configuration and turns it into the
//! open request for the wanted device variant.

use vstd::prelude::*;
use crate::codec::encoded_request;
use crate::protocol::{build_request, open_flags, spec_open_flags, OpenRequest};

verus! {

/// Configuration of a device about to be opened: an optional interface name
/// (none asks the kernel to pick one), whether the kernel interface should
/// outlive its descriptors, and whether each frame carries the 4-byte
/// flags+protocol header.
pub struct TunBuilder {
    /// The requested interface name, if any.
    pub name: Option<Vec<u8>>,
    /// Make the kernel interface persistent.  Off by default.
    pub persist: bool,
    /// Keep the 4-byte per-frame packet-info header.  Off by default: the
    /// kernel then delivers raw frames with no header.
    pub packet_info: bool,
}

impl TunBuilder {
    /// The name the open request will carry: the requested one, or empty to
    /// ask the kernel to pick one.
    pub open spec fn spec_name(&self) -> Seq<u8> {
        match self.name {
            Some(n) => n@,
            None => Seq::empty(),
        }
    }

    /// A configuration with no name and both options off.
    pub fn new() -> (r: Self)
        ensures
            r.name is None,
            !r.persist,
            !r.packet_info,
    {
        TunBuilder { name: None, packet_info: false, persist: false }
    }

    /// A configuration requesting the given interface name, with both
    /// options off.
    pub fn with_name(name: &[u8]) -> (r: Self)
        ensures
            r.name is Some,
            r.spec_name() == name@,
            !r.persist,
            !r.packet_info,
    {
        let mut owned: Vec<u8> = Vec::new();
        let mut i: usize = 0;
        while i < name.len()
            invariant
                i <= name@.len(),
                owned@ == name@.take(i as int),
            decreases name@.len() - i,
        {
            owned.push(name[i]);
            i = i + 1;
            assert(owned@ =~= name@.take(i as int));
        }
        assert(owned@ =~= name@);
        TunBuilder { name: Some(owned), packet_info: false, persist: false }
    }

    /// Choose whether the kernel interface outlives its descriptors.
    pub fn persist(self, v: bool) -> (r: Self)
        ensures
            r.persist == v,
            r.name == self.name,
            r.packet_info == self.packet_info,
    {
        TunBuilder { persist: v, ..self }
    }

    /// Choose whether each frame carries the 4-byte packet-info header.
    pub fn with_packet_info(self, v: bool) -> (r: Self)
        ensures
            r.packet_info == v,
            r.name == self.name,
            r.persist == self.persist,
    {
        TunBuilder { packet_info: v, ..self }
    }

    /// Build the open request for this configuration and the given flags.
    fn request(&self, flags: u16) -> (r: OpenRequest)
        ensures
            r.flags == flags,
            r.persist_arg == Some(if self.persist { 1u64 } else { 0u64 }),
            r.ifreq@ == encoded_request(self.spec_name(), flags),
    {
        match &self.name {
            Some(n) => build_request(n.as_slice(), flags, self.persist),
            None => build_request(&[], flags, self.persist),
        }
    }

    /// The open request for a single-queue TUN device.
    pub fn tun_request(&self) -> (r: OpenRequest)
        ensures
            r.flags == spec_open_flags(false, false, self.packet_info),
            r.persist_arg == Some(if self.persist { 1u64 } else { 0u64 }),
            r.ifreq@ == encoded_request(self.spec_name(), r.flags),
    {
        self.request(open_flags(false, false, self.packet_info))
    }

    /// The open request for a single-queue TAP device.
    pub fn tap_request(&self) -> (r: OpenRequest)
        ensures
            r.flags == spec_open_flags(true, false, self.packet_info),
            r.persist_arg == Some(if self.persist { 1u64 } else { 0u64 }),
            r.ifreq@ == encoded_request(self.spec_name(), r.flags),
    {
        self.request(open_flags(true, false, self.packet_info))
    }

    /// The open request for a multi-queue TUN device.
    pub fn mq_tun_request(&self) -> (r: OpenRequest)
        ensures
            r.flags == spec_open_flags(false, true, self.packet_info),
            r.persist_arg == Some(if self.persist { 1u64 } else { 0u64 }),
            r.ifreq@ == encoded_request(self.spec_name(), r.flags),
    {
        self.request(open_flags(false, true, self.packet_info))
    }

    /// The open request for a multi-queue TAP device.
    pub fn mq_tap_request(&self) -> (r: OpenRequest)
        ensures
            r.flags == spec_open_flags(true, true, self.packet_info),
            r.persist_arg == Some(if self.persist { 1u64 } else { 0u64 }),
            r.ifreq@ == encoded_request(self.spec_name(), r.flags),
    {
        self.request(open_flags(true, true, self.packet_info))
    }
}

} // verus!
