use std::sync::atomic::{AtomicU32, AtomicU64, Ordering};

use xdpilone::xdp::{SockAddrXdp, XdpDesc, XdpRingOffsets, XdpRingOffsetsV1, AF_XDP};
use xdpilone::{
    BufIdx, ControlSet, DeviceControl, DeviceRings, Errno, IfInfo, RingCons, RingLayout,
    RingProd, Socket, SocketConfig, SocketMmapOffsets, Umem, UmemChunk, UmemConfig, XskRing,
    EINVAL, ENOPROTOOPT,
};

fn word(v: u32) -> &'static AtomicU32 {
    Box::leak(Box::new(AtomicU32::new(v)))
}

fn slots(n: usize) -> &'static [AtomicU64] {
    let v: Vec<AtomicU64> = (0..n).map(|_| AtomicU64::new(0)).collect();
    Box::leak(v.into_boxed_slice())
}

fn lo_queue0() -> IfInfo {
    let mut info = IfInfo::invalid();
    info.from_name(b"lo\0", Ok(1)).unwrap();
    info.set_queue(0);
    info
}

fn offsets_latest() -> SocketMmapOffsets {
    let words: [u64; 16] = [
        0, 64, 128, 72, 256, 320, 384, 328, 512, 576, 640, 584, 768, 832, 896, 840,
    ];
    SocketMmapOffsets::from_raw(words, 128).unwrap()
}

fn device_rings(fill: u32, comp: u32) -> DeviceRings {
    let prod = RingProd::new(XskRing::new(word(0), word(0), word(0), slots(fill as usize), fill));
    let cons = RingCons::new(XskRing::new(word(0), word(0), word(0), slots(comp as usize), comp));
    DeviceRings { prod, cons, map: offsets_latest() }
}

#[test]
fn frame_offsets_are_multiples_of_frame_size() {
    let config = UmemConfig::default();
    let umem = Umem::new(config, 0x10_0000, 10 * 4096 + 100, 4096, 3);
    for i in 0..10u32 {
        let chunk = umem.frame(BufIdx(i)).unwrap();
        assert_eq!(chunk.offset, i as u64 * 4096);
        assert_eq!(chunk.addr, 0x10_0000 + i as u64 * 4096);
        assert_eq!(chunk.len, 4096);
    }
    // ceil(region / frame size) = 11, and ten frames fit.
    assert!(umem.frame(BufIdx(10)).is_none());
    assert!(umem.frame(BufIdx(11)).is_none());
    assert!(umem.frame(BufIdx(u32::MAX)).is_none());
    assert_eq!(umem.len_frames(), 10);
}

#[test]
fn frame_of_region_smaller_than_a_frame() {
    let config = UmemConfig { frame_size: 2048, ..UmemConfig::default() };
    let umem = Umem::new(config, 0, 1000, 4096, 3);
    assert!(umem.frame(BufIdx(0)).is_none());
    assert_eq!(umem.len_frames(), 0);
}

#[test]
fn chunk_as_descriptor() {
    let chunk = UmemChunk { addr: 0x7000, len: 2048, offset: 4096 };
    assert_eq!(chunk.as_xdp(), XdpDesc { addr: 4096, len: 2048, options: 0 });
    assert_eq!(chunk.as_xdp_with_len(42), XdpDesc { addr: 4096, len: 42, options: 0 });
}

#[test]
fn registration_describes_the_region() {
    let config = UmemConfig { frame_size: 2048, headroom: 256, flags: 1, ..UmemConfig::default() };
    let umem = Umem::new(config, 0x20_0000, 1 << 20, 4096, 5);
    let reg = umem.registration();
    assert_eq!(reg.addr, 0x20_0000);
    assert_eq!(reg.len, 1 << 20);
    assert_eq!(reg.chunk_size, 2048);
    assert_eq!(reg.headroom, 256);
    assert_eq!(reg.flags, 1);
    assert_eq!(reg.tx_metadata_len, 0);
}

#[test]
fn default_configs() {
    let config = UmemConfig::default();
    assert_eq!(config.fill_size, 2048);
    assert_eq!(config.complete_size, 2048);
    assert_eq!(config.frame_size, 4096);
    assert_eq!(config.headroom, 0);
    assert_eq!(config.flags, 0);
    let addr = SockAddrXdp::default();
    assert_eq!(addr.family, AF_XDP);
    assert_eq!(addr.family, 44);
    assert_eq!((addr.flags, addr.ifindex, addr.queue_id, addr.shared_umem_fd), (0, 0, 0, 0));
}

#[test]
fn tracker_refuses_a_second_claim() {
    let control = DeviceControl::new();
    let ctx = lo_queue0().ctx();
    assert!(control.insert(ctx));
    assert!(!control.insert(ctx));
    assert!(control.contains(&ctx));
    control.remove(&ctx);
    assert!(!control.contains(&ctx));
    assert!(control.insert(ctx));
}

#[test]
fn control_set_claims() {
    let mut set = ControlSet::new();
    let ctx = lo_queue0().ctx();
    assert!(set.insert(ctx));
    assert!(!set.insert(ctx));
    assert!(set.contains(&ctx));
    set.remove(&ctx);
    assert!(!set.contains(&ctx));
    assert!(set.insert(ctx));
}

#[test]
fn duplicate_device_queue_is_refused() {
    let umem = Umem::new(UmemConfig::default(), 0x10_0000, 1 << 16, 4096, 7);
    let info = lo_queue0();
    let s1 = Socket::with_xdp_socket(&info, umem.as_raw_fd(), Ok(1)).unwrap();
    let s2 = Socket::with_xdp_socket(&info, umem.as_raw_fd(), Ok(1)).unwrap();
    let ctx = s1.info().ctx();
    let claim = umem.fq_cq(&s1).unwrap();
    let queue = claim.into_queue(device_rings(16, 16));
    assert_eq!(queue.as_raw_fd(), 7);
    let again = umem.fq_cq(&s2);
    assert_eq!(again.err(), Some(Errno(EINVAL)));
    assert!(umem.is_claimed(&ctx));
    // Dropping the device queue gives the claim up.
    drop(queue);
    assert!(!umem.is_claimed(&ctx));
    let claim = umem.fq_cq(&s2).unwrap();
    assert!(umem.is_claimed(&ctx));
    // A claim that never became a device queue is given up when dropped.
    drop(claim);
    assert!(!umem.is_claimed(&ctx));
}

#[test]
fn other_queue_is_a_separate_claim() {
    let umem = Umem::new(UmemConfig::default(), 0x10_0000, 1 << 16, 4096, 7);
    let mut other = lo_queue0();
    other.set_queue(1);
    let s1 = Socket::with_xdp_socket(&lo_queue0(), 7, Ok(1)).unwrap();
    let s2 = Socket::with_xdp_socket(&other, 7, Ok(1)).unwrap();
    let c1 = umem.fq_cq(&s1).unwrap();
    let c2 = umem.fq_cq(&s2).unwrap();
    drop(c1);
    drop(c2);
}

#[test]
fn fill_and_complete_through_device_queue() {
    let umem = Umem::new(UmemConfig::default(), 0x10_0000, 1 << 16, 4096, 7);
    let socket = Socket::with_xdp_socket(&lo_queue0(), 7, Ok(1)).unwrap();
    let fill_prod = word(0);
    let fill_cons = word(0);
    let comp_prod = word(0);
    let comp_cons = word(0);
    let fill_slots = slots(8);
    let comp_slots = slots(8);
    let rings = DeviceRings {
        prod: RingProd::new(XskRing::new(fill_prod, fill_cons, word(1), fill_slots, 8)),
        cons: RingCons::new(XskRing::new(comp_prod, comp_cons, word(0), comp_slots, 8)),
        map: offsets_latest(),
    };
    let mut queue = umem.fq_cq(&socket).unwrap().into_queue(rings);
    assert!(queue.needs_wakeup());
    {
        let mut writer = queue.fill(5);
        assert_eq!(writer.capacity(), 5);
        assert_eq!(writer.insert(&[0, 4096, 8192]), 3);
        writer.commit();
        // Two reserved slots were never filled, and go back on drop.
    }
    assert_eq!(fill_prod.load(Ordering::Relaxed), 3);
    assert_eq!(fill_slots[1].load(Ordering::Relaxed), 4096);
    assert_eq!(queue.pending(), 3);
    // The kernel completes two frames.
    comp_slots[0].store(4096, Ordering::Relaxed);
    comp_slots[1].store(0, Ordering::Relaxed);
    comp_prod.store(2, Ordering::Release);
    assert_eq!(queue.available(), 2);
    {
        let mut reader = queue.complete(8);
        assert_eq!(reader.capacity(), 2);
        assert_eq!(reader.read(), Some(4096));
        assert_eq!(reader.read(), Some(0));
        assert_eq!(reader.read(), None);
        reader.release();
    }
    assert_eq!(comp_cons.load(Ordering::Relaxed), 2);
    assert_eq!(queue.available(), 0);
    // The next fill starts after the three committed slots.
    let writer = queue.fill(8);
    assert_eq!(writer.capacity(), 5);
}

#[test]
fn transmit_round_trip_with_completions() {
    let tx_prod = word(0);
    let tx_cons = word(0);
    let tx_slots = slots(2 * 2048);
    let mut tx = xdpilone::RingTx::new(
        RingProd::new(XskRing::new(tx_prod, tx_cons, word(0), tx_slots, 2048)),
        9,
    );
    let comp_prod = word(0);
    let comp_cons = word(0);
    let comp_slots = slots(2048);
    let mut comp = RingCons::new(XskRing::new(comp_prod, comp_cons, word(0), comp_slots, 2048));
    let umem = Umem::new(UmemConfig::default(), 0x10_0000, 1 << 16, 4096, 7);
    let frame0 = umem.frame(BufIdx(0)).unwrap();
    let descs = vec![frame0.as_xdp_with_len(42); 1024];
    {
        let mut writer = tx.transmit(1024);
        assert_eq!(writer.insert(&descs), 1024);
        writer.commit();
    }
    assert_eq!(tx_prod.load(Ordering::Relaxed), 1024);
    // The kernel sends every descriptor and completes its frame.
    for i in 0..1024usize {
        assert_eq!(tx_slots[2 * i].load(Ordering::Relaxed), frame0.offset);
        assert_eq!(tx_slots[2 * i + 1].load(Ordering::Relaxed) & 0xffff_ffff, 42);
        comp_slots[i].store(tx_slots[2 * i].load(Ordering::Relaxed), Ordering::Relaxed);
    }
    tx_cons.store(1024, Ordering::Release);
    comp_prod.store(1024, Ordering::Release);
    let mut read = 0;
    while read < 1024 {
        let mut idx = BufIdx(0);
        let n = comp.peek(1..=100, &mut idx);
        assert!(n > 0);
        for k in 0..n {
            assert_eq!(comp.read_addr(BufIdx(idx.0.wrapping_add(k))), 0);
        }
        comp.release(n);
        read += n;
    }
    assert_eq!(read, 1024);
    assert_eq!(comp_cons.load(Ordering::Relaxed), 1024);
}

#[test]
fn map_layouts_need_a_configured_size() {
    let umem = Umem::new(UmemConfig::default(), 0x10_0000, 1 << 16, 4096, 7);
    let socket = Socket::with_xdp_socket(&lo_queue0(), 7, Ok(1)).unwrap();
    let config = SocketConfig { rx_size: None, tx_size: Some(4096), bind_flags: 0 };
    let user = umem.rx_tx(&socket, &config, offsets_latest());
    assert_eq!(user.rx_layout().err(), Some(Errno(-EINVAL)));
    let tx = user.tx_layout().unwrap();
    assert_eq!(tx.count, 4096);
    assert_eq!(tx.pgoff, 0x80000000);
    assert_eq!(tx.offsets.desc, 384);
    assert_eq!(tx.len, 384 + 4096 * 16);
    assert_eq!(user.as_raw_fd(), 7);
}

#[test]
fn fill_and_completion_layouts() {
    let map = offsets_latest();
    let fill = RingLayout::fill(&map, 2048).unwrap();
    assert_eq!(fill.pgoff, 0x100000000);
    assert_eq!(fill.len, 640 + 2048 * 8);
    let comp = RingLayout::comp(&map, 2048).unwrap();
    assert_eq!(comp.pgoff, 0x180000000);
    assert_eq!(comp.len, 896 + 2048 * 8);
    let rx = RingLayout::rx(&map, 64).unwrap();
    assert_eq!(rx.pgoff, 0);
    assert_eq!(rx.len, 128 + 64 * 16);
    let mut words = [0u64; 16];
    words[14] = u64::MAX - 10;
    let far = SocketMmapOffsets::from_raw(words, 128).unwrap();
    assert_eq!(RingLayout::comp(&far, 2).err(), Some(Errno(-EINVAL)));
}

#[test]
fn ring_sizes_must_be_powers_of_two() {
    let map = offsets_latest();
    assert_eq!(RingLayout::fill(&map, 0).err(), Some(Errno(-EINVAL)));
    assert_eq!(RingLayout::comp(&map, 3000).err(), Some(Errno(-EINVAL)));
    assert_eq!(RingLayout::tx(&map, 1).unwrap().len, 384 + 16);
}

#[test]
fn ring_size_options() {
    let config = UmemConfig { fill_size: 1024, complete_size: 512, ..UmemConfig::default() };
    assert_eq!(config.ring_options(), vec![(6, 512), (5, 1024)]);
    let both = SocketConfig { rx_size: Some(256), tx_size: Some(128), bind_flags: 0 };
    assert_eq!(both.ring_options(), vec![(2, 256), (3, 128)]);
    let tx_only = SocketConfig { rx_size: None, tx_size: Some(4096), bind_flags: 0 };
    assert_eq!(tx_only.ring_options(), vec![(3, 4096)]);
    let none = SocketConfig { rx_size: None, tx_size: None, bind_flags: 0 };
    assert!(none.ring_options().is_empty());
}

#[test]
fn bind_address_of_primary_and_shared_sockets() {
    let umem = Umem::new(UmemConfig::default(), 0x10_0000, 1 << 16, 4096, 7);
    let mut info = lo_queue0();
    info.set_queue(3);
    let config = SocketConfig {
        rx_size: Some(64),
        tx_size: None,
        bind_flags: SocketConfig::XDP_BIND_NEED_WAKEUP,
    };
    let primary = Socket::with_xdp_socket(&info, 7, Ok(1)).unwrap();
    let user = umem.rx_tx(&primary, &config, offsets_latest());
    let addr = umem.bind_address(&user);
    assert_eq!(addr.family, AF_XDP);
    assert_eq!(addr.ifindex, 1);
    assert_eq!(addr.queue_id, 3);
    assert_eq!(addr.flags, 8);
    assert_eq!(addr.shared_umem_fd, 0);
    let other = Socket::with_xdp_socket(&info, 11, Ok(1)).unwrap();
    let user = umem.rx_tx(&other, &config, offsets_latest());
    let addr = umem.bind_address(&user);
    assert_eq!(addr.flags, 8 | 1);
    assert_eq!(addr.shared_umem_fd, 7);
}

#[test]
fn offsets_of_both_layouts() {
    let words: [u64; 16] = [1, 2, 3, 4, 5, 6, 7, 8, 9, 10, 11, 12, 0, 0, 0, 0];
    let v1 = SocketMmapOffsets::from_raw(words, 96).unwrap().offsets();
    assert_eq!(v1.rx, XdpRingOffsets { producer: 1, consumer: 2, desc: 3, flags: 6 });
    assert_eq!(v1.tx, XdpRingOffsets { producer: 4, consumer: 5, desc: 6, flags: 9 });
    assert_eq!(v1.fr, XdpRingOffsets { producer: 7, consumer: 8, desc: 9, flags: 12 });
    assert_eq!(v1.cr, XdpRingOffsets { producer: 10, consumer: 11, desc: 12, flags: 15 });
    let latest = SocketMmapOffsets::from_raw(words, 128).unwrap().offsets();
    assert_eq!(latest.rx, XdpRingOffsets { producer: 1, consumer: 2, desc: 3, flags: 4 });
    assert_eq!(latest.cr, XdpRingOffsets { producer: 0, consumer: 0, desc: 0, flags: 0 });
    assert_eq!(SocketMmapOffsets::from_raw(words, 100).err(), Some(Errno(-EINVAL)));
    let fixed = XdpRingOffsets::from_v1(XdpRingOffsetsV1 { producer: 0, consumer: 64, desc: 128 });
    assert_eq!(fixed.flags, 68);
}

#[test]
fn socket_namespace_cookie() {
    let info = lo_queue0();
    let s = Socket::with_xdp_socket(&info, 4, Ok(0x55)).unwrap();
    assert_eq!(s.info().ctx().netnscookie, 0x55);
    assert_eq!(s.as_raw_fd(), 4);
    let s = Socket::with_xdp_socket(&info, 4, Err(Errno(ENOPROTOOPT))).unwrap();
    assert_eq!(s.info().ctx().netnscookie, Socket::INIT_NS);
    assert_eq!(s.info().ctx().netnscookie, 1);
    let e = Socket::with_xdp_socket(&info, 4, Err(Errno(13)));
    assert_eq!(e.err(), Some(Errno(13)));
}

#[test]
fn interface_names() {
    let mut info = IfInfo::invalid();
    assert_eq!(info.ifindex(), 0);
    assert_eq!(info.from_name(b"a-name-far-too-long\0", Ok(3)), Err(Errno(EINVAL)));
    assert_eq!(info.ifindex(), 0);
    assert_eq!(info.from_name(b"eth9\0", Err(Errno(19))), Err(Errno(19)));
    assert_eq!(info.from_name(b"eth0\0", Ok(2)), Ok(()));
    assert_eq!(info.ifindex(), 2);
    assert_eq!(info.queue_id(), 0);
    assert_eq!(&info.name()[..5], b"eth0\0");
    info.set_queue(4);
    assert_eq!(info.queue_id(), 4);
    let mut name = [0u8; 16];
    name[..3].copy_from_slice(b"lo\0");
    assert_eq!(info.from_ifindex(1, Ok(name)), Ok(()));
    assert_eq!(info.ifindex(), 1);
    assert_eq!(info.name(), name);
    assert_eq!(info.from_ifindex(99, Err(Errno(6))), Err(Errno(6)));
    assert_eq!(info.ifindex(), 1);
}

#[test]
fn buffer_index_conversions() {
    let idx = BufIdx::from_slice(&[3, 1, 4]);
    assert_eq!(idx.len(), 3);
    assert_eq!(idx[2].0, 4);
    assert_eq!(BufIdx::to_slice(&idx), vec![3, 1, 4]);
}

#[test]
fn errno_value() {
    let e = Errno::from_raw_os_error(22);
    assert_eq!(e.get_raw(), 22);
    assert_eq!(e, Errno(EINVAL));
}
