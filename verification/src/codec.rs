//! Bit-exact codec for the kernel's interface-request structure, together
//! with the ioctl command numbers of the TUN/TAP protocol.
//!
//! Portability caveat: the structure size, the field offsets and the ioctl
//! command numbers below are the ones the kernel ABI uses on x86_64 Linux.
//! They are not portable: on another architecture they must be recomputed
//! from the kernel's ioctl-number encoding rules.

use vstd::prelude::*;

verus! {

/// Capacity of the name field of the interface request (the kernel's
/// interface-name size limit, `IFNAMSIZ`).
pub const IF_NAME_SIZE: usize = 16;

/// Longest effective interface name: the name field must keep room for a
/// trailing zero terminator.
pub const NAME_CAPACITY: usize = 15;

/// Total size of the interface-request structure on x86_64
/// (`sizeof(struct ifreq)`).
pub const IFREQ_SIZE: usize = 40;

/// Byte offset of the 16-bit flags field inside the request structure: it
/// sits right after the name field.
pub const FLAGS_OFFSET: usize = 16;

/// Interface-up flag.
pub const IFF_UP: u16 = 0x0001;
/// The device carries raw IP-layer frames.
pub const IFF_TUN: u16 = 0x0001;
/// The device carries raw Ethernet-layer frames.
pub const IFF_TAP: u16 = 0x0002;
/// Do not prepend the 4-byte flags+protocol header to each frame.
pub const IFF_NO_PI: u16 = 0x1000;
/// Several independent descriptors may back the interface.
pub const IFF_MULTI_QUEUE: u16 = 0x0100;

/* ioctl command numbers (x86_64) */
pub const TUNSETNOCSUM: u64 = 0x400454c8;
pub const TUNSETDEBUG: u64 = 0x400454c9;
pub const TUNSETIFF: u64 = 0x400454ca;
pub const TUNSETPERSIST: u64 = 0x400454cb;
pub const TUNSETOWNER: u64 = 0x400454cc;
pub const TUNSETLINK: u64 = 0x400454cd;
pub const TUNSETGROUP: u64 = 0x400454ce;
pub const TUNGETFEATURES: u64 = 0x800454cf;
pub const TUNSETOFFLOAD: u64 = 0x400454d0;
pub const TUNSETTXFILTER: u64 = 0x400454d1;
pub const TUNGETIFF: u64 = 0x800454d2;
pub const TUNGETSNDBUF: u64 = 0x800454d3;
pub const TUNSETSNDBUF: u64 = 0x400454d4;
pub const TUNATTACHFILTER: u64 = 0x401054d5;
pub const TUNDETACHFILTER: u64 = 0x401054d6;
pub const TUNGETVNETHDRSZ: u64 = 0x800454d7;
pub const TUNSETVNETHDRSZ: u64 = 0x400454d8;
pub const TUNSETQUEUE: u64 = 0x400454d9;
pub const TUNSETIFINDEX: u64 = 0x400454da;
pub const TUNGETFILTER: u64 = 0x801054db;

/// The name as it is sent to the kernel: names longer than the name field's
/// effective capacity are silently truncated, never rejected.
pub open spec fn truncated_name(name: Seq<u8>) -> Seq<u8> {
    if name.len() <= NAME_CAPACITY { name } else { name.take(NAME_CAPACITY as int) }
}

/// The request structure for a given name and flags value: the truncated
/// name, zero padding up to the name field's capacity, the flags in native
/// (little-endian) byte order, and zero padding up to the structure size.
pub open spec fn encoded_request(name: Seq<u8>, flags: u16) -> Seq<u8> {
    Seq::new(IFREQ_SIZE as nat, |i: int| {
        if i < truncated_name(name).len() {
            truncated_name(name)[i]
        } else if i < FLAGS_OFFSET {
            0u8
        } else if i == FLAGS_OFFSET {
            (flags % 0x100) as u8
        } else if i == FLAGS_OFFSET + 1 {
            (flags / 0x100) as u8
        } else {
            0u8
        }
    })
}

/// Encode an interface request for `TUNSETIFF`.
pub fn encode_request(name: &[u8], flags: u16) -> (r: Vec<u8>)
    ensures
        r@ == encoded_request(name@, flags),
{
    let len: usize = if name.len() <= NAME_CAPACITY { name.len() } else { NAME_CAPACITY };
    let mut r: Vec<u8> = Vec::new();
    let mut i: usize = 0;
    while i < len
        invariant
            i <= len,
            len <= name@.len(),
            len <= NAME_CAPACITY,
            r@.len() == i,
            forall|j: int| 0 <= j < i ==> r@[j] == name@[j],
        decreases len - i,
    {
        r.push(name[i]);
        i = i + 1;
    }
    while i < FLAGS_OFFSET
        invariant
            len <= i <= FLAGS_OFFSET,
            len <= name@.len(),
            r@.len() == i,
            forall|j: int| 0 <= j < len ==> r@[j] == name@[j],
            forall|j: int| len <= j < i ==> r@[j] == 0u8,
        decreases FLAGS_OFFSET - i,
    {
        r.push(0u8);
        i = i + 1;
    }
    r.push((flags % 0x100) as u8);
    r.push((flags / 0x100) as u8);
    i = i + 2;
    while i < IFREQ_SIZE
        invariant
            FLAGS_OFFSET + 2 <= i <= IFREQ_SIZE,
            len <= name@.len(),
            len <= NAME_CAPACITY,
            r@.len() == i,
            forall|j: int| 0 <= j < len ==> r@[j] == name@[j],
            forall|j: int| len <= j < FLAGS_OFFSET ==> r@[j] == 0u8,
            r@[FLAGS_OFFSET as int] == (flags % 0x100) as u8,
            r@[FLAGS_OFFSET + 1] == (flags / 0x100) as u8,
            forall|j: int| FLAGS_OFFSET + 2 <= j < i ==> r@[j] == 0u8,
        decreases IFREQ_SIZE - i,
    {
        r.push(0u8);
        i = i + 1;
    }
    assert(r@ =~= encoded_request(name@, flags));
    r
}

/// Where the name stored in a request ends, scanning from position `i`: the
/// index of the first zero byte in the name field, or the field's capacity
/// when no byte of it is zero.
pub open spec fn name_end_from(req: Seq<u8>, i: int) -> int
    decreases IF_NAME_SIZE - i,
{
    if i < 0 || i >= IF_NAME_SIZE {
        IF_NAME_SIZE as int
    } else if req[i] == 0 {
        i
    } else {
        name_end_from(req, i + 1)
    }
}

/// The zero-terminated name held in the name field of a request structure,
/// as the kernel may have rewritten it.
pub open spec fn decoded_name(req: Seq<u8>) -> Seq<u8> {
    req.take(name_end_from(req, 0))
}

/// Decode the (possibly kernel-assigned) interface name out of a request
/// structure returned by `TUNSETIFF`.
pub fn decode_name(req: &[u8]) -> (r: Vec<u8>)
    requires
        req@.len() >= IF_NAME_SIZE,
    ensures
        r@ == decoded_name(req@),
{
    let mut r: Vec<u8> = Vec::new();
    let mut i: usize = 0;
    while i < IF_NAME_SIZE && req[i] != 0
        invariant
            0 <= i <= IF_NAME_SIZE,
            req@.len() >= IF_NAME_SIZE,
            r@ == req@.take(i as int),
            name_end_from(req@, 0) == name_end_from(req@, i as int),
        decreases IF_NAME_SIZE - i,
    {
        r.push(req[i]);
        i = i + 1;
        assert(r@ =~= req@.take(i as int));
    }
    assert(name_end_from(req@, i as int) == i);
    r
}

/// In a request that encodes a name without zero bytes, the name ends exactly
/// at the name's length, wherever inside the name the scan starts.
proof fn lemma_name_end_encoded(name: Seq<u8>, flags: u16, i: int)
    requires
        forall|j: int| 0 <= j < truncated_name(name).len() ==> truncated_name(name)[j] != 0,
        0 <= i <= truncated_name(name).len(),
    ensures
        name_end_from(encoded_request(name, flags), i) == truncated_name(name).len(),
    decreases truncated_name(name).len() - i,
{
    let t = truncated_name(name);
    let e = encoded_request(name, flags);
    if i < t.len() {
        assert(e[i] == t[i]);
        lemma_name_end_encoded(name, flags, i + 1);
    } else {
        assert(e[i] == 0);
    }
}

/// Encoding a name and decoding the resulting request gives back the name as
/// it was sent: truncated to the field's effective capacity.  Zero bytes are
/// excluded: the kernel's name field is zero-terminated, so a name with an
/// interior zero byte would be cut at that byte instead.
pub proof fn lemma_request_roundtrip(name: Seq<u8>, flags: u16)
    requires
        forall|j: int| 0 <= j < truncated_name(name).len() ==> name[j] != 0,
    ensures
        decoded_name(encoded_request(name, flags)) == truncated_name(name),
{
    let t = truncated_name(name);
    let e = encoded_request(name, flags);
    assert(forall|j: int| 0 <= j < t.len() ==> t[j] == name[j]);
    lemma_name_end_encoded(name, flags, 0);
    assert(e.take(t.len() as int) =~= t);
}

/// A requested name of at most the effective capacity, with no zero byte in
/// it, reaches the kernel unchanged: decoding the request gives back exactly
/// that name.
pub proof fn lemma_short_name_kept(name: Seq<u8>, flags: u16)
    requires
        name.len() <= NAME_CAPACITY,
        forall|j: int| 0 <= j < name.len() ==> name[j] != 0,
    ensures
        decoded_name(encoded_request(name, flags)) == name,
{
    lemma_request_roundtrip(name, flags);
}

/// A requested name longer than the effective capacity is silently truncated:
/// decoding the request gives exactly the first `NAME_CAPACITY` bytes of the
/// requested name (zero bytes among those excluded, as above).
pub proof fn lemma_long_name_truncated(name: Seq<u8>, flags: u16)
    requires
        name.len() > NAME_CAPACITY,
        forall|j: int| 0 <= j < NAME_CAPACITY ==> name[j] != 0,
    ensures
        decoded_name(encoded_request(name, flags)) == name.take(NAME_CAPACITY as int),
{
    lemma_request_roundtrip(name, flags);
}

/// Opening with no name asks the kernel to pick one: every byte of the
/// request's name field is zero.
pub proof fn lemma_empty_name_requests_auto_naming(flags: u16)
    ensures
        forall|j: int|
            0 <= j < IF_NAME_SIZE ==> encoded_request(Seq::empty(), flags)[j] == 0,
{
}

} // verus!
