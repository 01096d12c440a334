use tuntap::builder::TunBuilder;
use tuntap::codec::{decode_name, encode_request, IFF_MULTI_QUEUE, IFF_NO_PI, IFF_TAP, IFF_TUN};
use tuntap::device::{Device, MultiQueueTap, MultiQueueTun, Queue, Tap, Tun};
use tuntap::protocol::{complete_open, complete_queue, open_flags, MultiQueue, OpenRequest};

/// Pretend the kernel accepted a request unchanged: hand back the request
/// bytes as `TUNSETIFF` left them, with a fresh descriptor number.
fn echo(req: &OpenRequest, fd: i32) -> tuntap::device::InternalTun {
    complete_open(fd, req.flags, req.ifreq.as_slice())
}

#[test]
fn builder_defaults() {
    let b = TunBuilder::new();
    let r = b.tun_request();
    assert_eq!(r.flags, IFF_TUN | IFF_NO_PI);
    assert_eq!(r.flags, 0x1001);
    assert_eq!(r.persist_arg, Some(0));
    assert_eq!(r.ifreq.len(), 40);
    // no name: the whole name field is zero, asking for kernel auto-naming
    assert!(r.ifreq[..16].iter().all(|&b| b == 0));
}

#[test]
fn short_name_kept() {
    let b = TunBuilder::with_name(b"pook");
    let r = b.tap_request();
    let h = echo(&r, 3);
    assert_eq!(h.name().as_slice(), b"pook");
    assert_eq!(h.as_raw_fd(), 3);
}

#[test]
fn long_name_truncated() {
    // 22 bytes requested; only the first 15 fit the name field
    let b = TunBuilder::with_name(b"averylonginterfacename");
    let r = b.tap_request();
    let h = echo(&r, 4);
    assert_eq!(h.name().as_slice(), b"averylonginterf");
    assert_eq!(h.name().len(), 15);
}

#[test]
fn auto_name_read_back() {
    let b = TunBuilder::new();
    let mut r = b.tun_request();
    // the kernel picks a name of its auto-naming pattern and writes it into
    // the name field; simulate that rewrite
    r.ifreq[..5].copy_from_slice(b"tun0\0");
    let h = complete_open(5, r.flags, r.ifreq.as_slice());
    assert_eq!(h.name().as_slice(), b"tun0");
    let tail = &h.name().as_slice()[3..];
    assert!(h.name().as_slice().starts_with(b"tun"));
    assert!(tail.iter().all(|b| b.is_ascii_digit()));
}

#[test]
fn packet_info_controls_no_pi_bit() {
    // default (off): the no-packet-info bit is set
    assert_eq!(TunBuilder::new().tun_request().flags & IFF_NO_PI, IFF_NO_PI);
    assert_eq!(TunBuilder::new().tap_request().flags & IFF_NO_PI, IFF_NO_PI);
    // asked for: the bit is clear
    let on = TunBuilder::new().with_packet_info(true);
    assert_eq!(on.tun_request().flags & IFF_NO_PI, 0);
    assert_eq!(on.tun_request().flags, IFF_TUN);
    let on = TunBuilder::new().with_packet_info(true);
    assert_eq!(on.tap_request().flags, IFF_TAP);
}

#[test]
fn persist_controls_ioctl_value() {
    assert_eq!(TunBuilder::new().persist(true).tun_request().persist_arg, Some(1));
    assert_eq!(TunBuilder::new().persist(false).tun_request().persist_arg, Some(0));
    assert_eq!(TunBuilder::new().tun_request().persist_arg, Some(0));
}

#[test]
fn multi_queue_flags() {
    assert_eq!(TunBuilder::new().mq_tun_request().flags, IFF_TUN | IFF_MULTI_QUEUE | IFF_NO_PI);
    assert_eq!(TunBuilder::new().mq_tap_request().flags, IFF_TAP | IFF_MULTI_QUEUE | IFF_NO_PI);
    let b = TunBuilder::new().with_packet_info(true);
    assert_eq!(b.mq_tap_request().flags, 0x0102);
}

#[test]
fn queues_report_same_name_with_distinct_descriptors() {
    let b = TunBuilder::with_name(b"pook");
    let r = b.mq_tap_request();
    let mq = MultiQueueTap(echo(&r, 5));
    assert_eq!(mq.device().name().as_slice(), b"pook");

    let mut queues: Vec<Queue> = Vec::new();
    for fd in [6, 7, 8] {
        let qr = mq.open_queue_request();
        // a queue open carries no persistence instruction at all: the
        // interface's persist state is left unchanged
        assert_eq!(qr.persist_arg, None);
        assert_eq!(qr.flags, mq.device().flags());
        queues.push(complete_queue(fd, qr.flags, qr.ifreq.as_slice()));
    }
    for q in &queues {
        assert_eq!(q.device().name().as_slice(), b"pook");
    }
    let mut fds: Vec<i32> = queues.iter().map(|q| q.as_raw_fd()).collect();
    fds.sort();
    fds.dedup();
    assert_eq!(fds, vec![6, 7, 8]);
}

#[test]
fn mq_tun_queue_same_name() {
    let b = TunBuilder::with_name(b"mq0");
    let r = b.mq_tun_request();
    let mq = MultiQueueTun(echo(&r, 9));
    let qr = mq.open_queue_request();
    let q = complete_queue(10, qr.flags, qr.ifreq.as_slice());
    assert_eq!(q.device().name().as_slice(), mq.device().name().as_slice());
    assert_ne!(q.as_raw_fd(), mq.as_raw_fd());
}

#[test]
fn request_layout_pook_tun() {
    // build with name "pook", packet_info = true, persist = true, open as TUN
    let b = TunBuilder::with_name(b"pook").with_packet_info(true).persist(true);
    let r = b.tun_request();
    assert_eq!(r.ifreq.len(), 40);
    assert_eq!(&r.ifreq[..4], b"pook");
    assert!(r.ifreq[4..16].iter().all(|&b| b == 0));
    // flags field in native little-endian order: IFF_TUN alone, packet info kept
    assert_eq!(r.ifreq[16], 0x01);
    assert_eq!(r.ifreq[17], 0x00);
    assert!(r.ifreq[18..].iter().all(|&b| b == 0));
    assert_eq!(r.persist_arg, Some(1));
    let h = echo(&r, 6);
    assert_eq!(h.name().as_slice(), b"pook");
    assert_eq!(h.flags(), IFF_TUN);
    let tun = Tun(h);
    assert_eq!(tun.as_raw_fd(), 6);
}

#[test]
fn request_layout_tap_flags_bytes() {
    let b = TunBuilder::with_name(b"t0");
    let r = b.tap_request();
    // IFF_TAP | IFF_NO_PI == 0x1002, little-endian
    assert_eq!(r.ifreq[16], 0x02);
    assert_eq!(r.ifreq[17], 0x10);
}

#[test]
fn encode_decode_edges() {
    // all-zero name field decodes to the empty name
    let req = encode_request(b"", 0);
    assert_eq!(decode_name(req.as_slice()), Vec::<u8>::new());

    // an interior zero byte ends the name there
    let req = encode_request(b"ab\0cd", 0);
    assert_eq!(decode_name(req.as_slice()).as_slice(), b"ab");

    // a name field with no zero byte decodes to the full 16 bytes
    let full = vec![0x61u8; 40];
    assert_eq!(decode_name(full.as_slice()).len(), 16);

    // a name of exactly the effective capacity survives unchanged
    let req = encode_request(b"exactlyfifteen!", 0);
    assert_eq!(decode_name(req.as_slice()).as_slice(), b"exactlyfifteen!");
    // one more byte is cut
    let req = encode_request(b"exactlysixteen!!", 0);
    assert_eq!(decode_name(req.as_slice()).as_slice(), b"exactlysixteen!");
}

#[test]
fn open_flags_values() {
    assert_eq!(open_flags(false, false, true), IFF_TUN);
    assert_eq!(open_flags(true, false, true), IFF_TAP);
    assert_eq!(open_flags(false, false, false), 0x1001);
    assert_eq!(open_flags(true, true, false), 0x1102);
    assert_eq!(open_flags(false, true, false), 0x1101);
}

#[test]
fn device_capability_uniform() {
    let h = |fd: i32| complete_open(fd, IFF_TUN, &[0u8; 40]);
    let devices: Vec<Box<dyn Device>> = vec![
        Box::new(Tun(h(11))),
        Box::new(MultiQueueTun(h(12))),
        Box::new(Tap(h(13))),
        Box::new(MultiQueueTap(h(14))),
        Box::new(Queue(h(15))),
    ];
    for (i, d) in devices.iter().enumerate() {
        assert_eq!(d.as_raw_fd(), 11 + i as i32);
        assert_eq!(d.device().flags(), IFF_TUN);
        assert!(d.device().name().is_empty());
    }
}

#[test]
fn ioctl_command_numbers() {
    assert_eq!(tuntap::codec::TUNSETIFF, 0x400454ca);
    assert_eq!(tuntap::codec::TUNSETPERSIST, 0x400454cb);
    assert_eq!(tuntap::codec::TUNSETQUEUE, 0x400454d9);
    assert_eq!(tuntap::codec::TUNGETIFF, 0x800454d2);
}
