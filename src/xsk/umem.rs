use vstd::prelude::*;

use std::collections::BTreeSet;
use std::sync::Arc;

use crate::xdp::{SockAddrXdp, XdpDesc, XdpRingOffsets, XdpUmemReg};
use crate::xsk::ring::is_pow2;
use crate::xsk::{
    BufIdx, DeviceControl, DeviceQueue, DeviceRings, IfCtx, Socket, SocketConfig,
    SocketMmapOffsets, Umem, UmemChunk, UmemConfig, User, XskRing,
};
use crate::{Errno, EINVAL};

verus! {

broadcast use vstd::std_specs::btree::group_btree_axioms, vstd::laws_cmp::group_laws_cmp;

#[verifier::external_type_specification]
#[verifier::external_body]
#[verifier::reject_recursive_types(T)]
#[verifier::reject_recursive_types(R)]
pub struct ExRwLock<T: ?Sized, R>(spin::rwlock::RwLock<T, R>);

#[verifier::external_type_specification]
#[verifier::external_body]
#[verifier::reject_recursive_types(T)]
#[verifier::reject_recursive_types(R)]
pub struct ExRwLockWriteGuard<'a, T: 'a + ?Sized, R>(spin::rwlock::RwLockWriteGuard<'a, T, R>);

#[verifier::external_type_specification]
#[verifier::external_body]
pub struct ExSpin(spin::relax::Spin);

/// Relies on `spin::RwLock::new`: a lock around the tracker.
#[verifier::external_body]
fn new_lock(set: ControlSet) -> spin::RwLock<ControlSet> {
    spin::RwLock::new(set)
}

/// Relies on `spin::RwLock::write`: spins until the lock is held exclusively, and does not
/// unwind.
#[verifier::external_body]
fn lock_write(lock: &spin::RwLock<ControlSet>) -> spin::RwLockWriteGuard<'_, ControlSet>
    opens_invariants none
    no_unwind
{
    lock.write()
}

/// Relies on `DerefMut` of `spin::RwLockWriteGuard`: the tracker under the held lock.
#[verifier::external_body]
fn locked<'a, 'b>(guard: &'b mut spin::RwLockWriteGuard<'a, ControlSet>) -> &'b mut ControlSet
    opens_invariants none
    no_unwind
{
    &mut *guard
}

/// Relies on `BTreeSet::remove`: the key is no longer in the set, and it returns without
/// unwinding (tuples of integers compare without panicking), so that a destructor can call it.
#[verifier::external_body]
fn remove_key(set: &mut BTreeSet<(u32, u32, u64)>, key: &(u32, u32, u64))
    ensures
        final(set)@ == old(set)@.remove(*key),
    opens_invariants none
    no_unwind
{
    set.remove(key);
}

/// The device queues of a region that own their fill/completion pair.
pub struct ControlSet {
    set: BTreeSet<(u32, u32, u64)>,
}

impl View for ControlSet {
    type V = Set<(u32, u32, u64)>;

    closed spec fn view(&self) -> Set<(u32, u32, u64)> {
        self.set@
    }
}

impl ControlSet {
    /// An empty tracker.
    pub fn new() -> (r: ControlSet)
        ensures
            r@ == Set::<(u32, u32, u64)>::empty(),
    {
        ControlSet { set: BTreeSet::new() }
    }

    /// Claim a device queue; false, with nothing changed, when it is claimed already.
    pub fn insert(&mut self, ctx: IfCtx) -> (r: bool)
        ensures
            r == !old(self)@.contains(ctx.spec_key()),
            final(self)@ == old(self)@.insert(ctx.spec_key()),
    {
        self.set.insert(ctx.key())
    }

    /// Whether a device queue is claimed.
    pub fn contains(&self, ctx: &IfCtx) -> (r: bool)
        ensures
            r == self@.contains(ctx.spec_key()),
    {
        self.set.contains(&ctx.key())
    }

    /// Give up the claim of a device queue.
    pub fn remove(&mut self, ctx: &IfCtx)
        ensures
            final(self)@ == old(self)@.remove(ctx.spec_key()),
        opens_invariants none
        no_unwind
    {
        remove_key(&mut self.set, &ctx.key());
    }
}

/// Claiming a device queue that is claimed already is refused and leaves the tracker as it
/// was.
pub proof fn lemma_repeated_claim(claimed: Set<(u32, u32, u64)>, ctx: IfCtx)
    requires
        claimed.contains(ctx.spec_key()),
    ensures
        claimed.insert(ctx.spec_key()) == claimed,
{
    assert(claimed.insert(ctx.spec_key()) =~= claimed);
}

/// Once a device queue gives up its claim, claiming it again succeeds.
pub proof fn lemma_release_then_claim(claimed: Set<(u32, u32, u64)>, ctx: IfCtx)
    ensures
        !claimed.remove(ctx.spec_key()).contains(ctx.spec_key()),
        claimed.remove(ctx.spec_key()).insert(ctx.spec_key()).contains(ctx.spec_key()),
{
}

impl DeviceControl {
    /// A fresh tracker, with no device queue claimed.
    pub fn new() -> (r: DeviceControl) {
        DeviceControl { inner: Arc::new(new_lock(ControlSet::new())) }
    }

    /// Another handle to the same tracker.
    pub fn share(&self) -> (r: DeviceControl) {
        DeviceControl { inner: self.inner.clone() }
    }

    /// Claim a device queue under the lock: false, with nothing changed, when it is claimed
    /// already.
    pub fn insert(&self, ctx: IfCtx) -> (r: bool) {
        let mut guard = lock_write(&self.inner);
        let set = locked(&mut guard);
        set.insert(ctx)
    }

    /// Whether a device queue is claimed, under the lock.
    pub fn contains(&self, ctx: &IfCtx) -> (r: bool) {
        let mut guard = lock_write(&self.inner);
        let set = locked(&mut guard);
        set.contains(ctx)
    }

    /// Give up the claim of a device queue, under the lock.
    pub fn remove(&self, ctx: &IfCtx)
        opens_invariants none
        no_unwind
    {
        let mut guard = lock_write(&self.inner);
        let set = locked(&mut guard);
        set.remove(ctx);
    }
}

/// A frame of `frame_size` bytes at index `idx` lies inside a region of `area_len` bytes.
pub open spec fn frame_fits(area_len: u64, frame_size: u32, idx: u32) -> bool {
    (idx as int + 1) * frame_size as int <= area_len as int
}

/// No frame at or past the index `ceil(area_len / frame_size)` lies inside the region.
pub proof fn lemma_frames_past_end(area_len: u64, frame_size: u32, idx: u32)
    requires
        frame_size > 0,
        idx as int >= (area_len as int + frame_size as int - 1) / frame_size as int,
    ensures
        !frame_fits(area_len, frame_size, idx),
{
    let f = frame_size as int;
    let c = (area_len as int + f - 1) / f;
    vstd::arithmetic::div_mod::lemma_fundamental_div_mod(area_len as int + f - 1, f);
    vstd::arithmetic::div_mod::lemma_mod_bound(area_len as int + f - 1, f);
    assert(c * f >= area_len as int) by (nonlinear_arith)
        requires
            area_len as int + f - 1 == f * c + (area_len as int + f - 1) % f,
            (area_len as int + f - 1) % f < f,
    ;
    assert((idx as int + 1) * f > area_len as int) by (nonlinear_arith)
        requires
            idx as int >= c,
            c * f >= area_len as int,
            f > 0,
    ;
}

/// Where and how to map one ring of a socket.
#[derive(Debug, Clone, Copy)]
pub struct RingLayout {
    /// The offsets of the ring's words within the mapping.
    pub offsets: XdpRingOffsets,
    /// The number of slots.
    pub count: u32,
    /// The number of bytes to map: up to the end of the slot array.
    pub len: u64,
    /// The offset in the socket's mapping that selects the ring.
    pub pgoff: u64,
}

/// The layout of a ring of `count` slots of `slot_bytes` bytes each at `offsets`, mapped at
/// `pgoff`; refused with `-EINVAL` when `count` is not a power of two (zero included) or the
/// length does not fit 64 bits.
pub open spec fn spec_ring_layout(
    offsets: XdpRingOffsets,
    count: u32,
    slot_bytes: u64,
    pgoff: u64,
) -> Result<RingLayout, Errno> {
    if is_pow2(count) && offsets.desc + count * slot_bytes <= u64::MAX {
        Ok(RingLayout { offsets, count, len: (offsets.desc + count * slot_bytes) as u64, pgoff })
    } else {
        Err(Errno((-EINVAL) as i32))
    }
}

impl RingLayout {
    /// The layout of a ring of `count` slots of `slot_bytes` bytes each.
    fn new(offsets: XdpRingOffsets, count: u32, slot_bytes: u64, pgoff: u64) -> (r: Result<
        RingLayout,
        Errno,
    >)
        requires
            slot_bytes <= 16,
        ensures
            r == spec_ring_layout(offsets, count, slot_bytes, pgoff),
    {
        assert(count * slot_bytes <= u32::MAX * 16) by (nonlinear_arith)
            requires
                slot_bytes <= 16,
                count <= u32::MAX,
        ;
        if count == 0 || count & (count - 1) != 0 {
            return Err(Errno(-EINVAL));
        }
        let bytes = count as u64 * slot_bytes;
        match offsets.desc.checked_add(bytes) {
            Some(len) => Ok(RingLayout { offsets, count, len, pgoff }),
            None => Err(Errno(-EINVAL)),
        }
    }

    /// The fill ring of a socket: `count` frame addresses.
    pub fn fill(map: &SocketMmapOffsets, count: u32) -> (r: Result<RingLayout, Errno>)
        ensures
            r == spec_ring_layout(
                map.spec_offsets().fr,
                count,
                8,
                XskRing::XDP_UMEM_PGOFF_FILL_RING,
            ),
    {
        RingLayout::new(map.inner.fr, count, 8, XskRing::XDP_UMEM_PGOFF_FILL_RING)
    }

    /// The completion ring of a socket: `count` frame addresses.
    pub fn comp(map: &SocketMmapOffsets, count: u32) -> (r: Result<RingLayout, Errno>)
        ensures
            r == spec_ring_layout(
                map.spec_offsets().cr,
                count,
                8,
                XskRing::XDP_UMEM_PGOFF_COMPLETION_RING,
            ),
    {
        RingLayout::new(map.inner.cr, count, 8, XskRing::XDP_UMEM_PGOFF_COMPLETION_RING)
    }

    /// The receive ring of a socket: `count` descriptors.
    pub fn rx(map: &SocketMmapOffsets, count: u32) -> (r: Result<RingLayout, Errno>)
        ensures
            r == spec_ring_layout(map.spec_offsets().rx, count, 16, XskRing::XDP_PGOFF_RX_RING),
    {
        RingLayout::new(map.inner.rx, count, 16, XskRing::XDP_PGOFF_RX_RING)
    }

    /// The transmit ring of a socket: `count` descriptors.
    pub fn tx(map: &SocketMmapOffsets, count: u32) -> (r: Result<RingLayout, Errno>)
        ensures
            r == spec_ring_layout(map.spec_offsets().tx, count, 16, XskRing::XDP_PGOFF_TX_RING),
    {
        RingLayout::new(map.inner.tx, count, 16, XskRing::XDP_PGOFF_TX_RING)
    }
}

/// A claim on a device queue, taken before its rings are set up.
///
/// Turning it into a [`DeviceQueue`] keeps the claim; dropping it gives the claim up, so that
/// a setup that fails half-way leaves the tracker as it was.
pub struct DeviceClaim {
    socket: Socket,
    devices: DeviceControl,
    armed: bool,
}

impl DeviceClaim {
    /// The socket whose device queue is claimed.
    pub closed spec fn spec_socket(&self) -> Socket {
        self.socket
    }

    /// The device queue of the claimed socket, with the fill and completion rings set up.
    pub fn into_queue(self, fcq: DeviceRings) -> (r: DeviceQueue)
        requires
            fcq.prod.wf(),
            fcq.prod@.slot_words == fcq.prod@.size,
            fcq.cons.wf(),
            fcq.cons@.slot_words == fcq.cons@.size,
        ensures
            r.wf(),
            r.fill_ring() == fcq.prod@,
            r.completion_ring() == fcq.cons@,
            r.spec_fd() == self.spec_socket().spec_fd(),
    {
        let mut claim = self;
        claim.armed = false;
        DeviceQueue { fcq, socket: claim.socket, devices: claim.devices.share() }
    }
}

impl Drop for DeviceClaim {
    /// Unless it became a device queue, give up the claim.
    fn drop(&mut self)
        opens_invariants none
        no_unwind
    {
        if self.armed {
            self.devices.remove(&self.socket.info.ctx);
        }
    }
}

impl Drop for DeviceQueue {
    /// Give up the claim on the device queue.
    fn drop(&mut self)
        opens_invariants none
        no_unwind
    {
        self.devices.remove(&self.socket.info.ctx);
    }
}

impl Umem {
    /// Socket option: the ring layout of a socket.
    pub const XDP_MMAP_OFFSETS: i32 = 1;
    /// Socket option: the size of the receive ring.
    pub const XDP_RX_RING: i32 = 2;
    /// Socket option: the size of the transmit ring.
    pub const XDP_TX_RING: i32 = 3;
    /// Socket option: register the region.
    pub const XDP_UMEM_REG: i32 = 4;
    /// Socket option: the size of the fill ring.
    pub const XDP_UMEM_FILL_RING: i32 = 5;
    /// Socket option: the size of the completion ring.
    pub const XDP_UMEM_COMPLETION_RING: i32 = 6;
    /// Socket option: the statistics of a socket.
    pub const XDP_STATISTICS: i32 = 7;
    /// Socket option: the options of a socket.
    pub const XDP_OPTIONS: i32 = 8;

    /// The region of `area_len` bytes at `area_addr`, to be registered with the primary socket
    /// `fd`, on a machine whose pages are `page_size` bytes long.
    ///
    /// The region starts on a page boundary. The caller keeps it alive for as long as the result
    /// and anything made from it.
    pub fn new(config: UmemConfig, area_addr: u64, area_len: u64, page_size: u64, fd: i32) -> (r:
        Umem)
        requires
            config.frame_size > 0,
            page_size > 0,
            area_addr % page_size == 0,
            area_addr + area_len <= u64::MAX,
        ensures
            r.wf(),
            r.spec_config() == config,
            r.spec_area_addr() == area_addr,
            r.spec_area_len() == area_len,
            r.spec_fd() == fd,
    {
        Umem { area_addr, area_len, config, fd, devices: DeviceControl::new() }
    }

    /// The configuration.
    pub fn config(&self) -> (r: UmemConfig)
        ensures
            r == self.spec_config(),
    {
        self.config
    }

    /// Get the raw file descriptor of the primary socket.
    pub fn as_raw_fd(&self) -> (r: i32)
        ensures
            r == self.spec_fd(),
    {
        self.fd
    }

    /// The argument that registers the region with the primary socket.
    pub fn registration(&self) -> (r: XdpUmemReg)
        ensures
            r == (XdpUmemReg {
                addr: self.spec_area_addr(),
                len: self.spec_area_len(),
                chunk_size: self.spec_config().frame_size,
                headroom: self.spec_config().headroom,
                flags: self.spec_config().flags,
                tx_metadata_len: 0,
            }),
    {
        XdpUmemReg {
            addr: self.area_addr,
            len: self.area_len,
            chunk_size: self.config.frame_size,
            headroom: self.config.headroom,
            flags: self.config.flags,
            tx_metadata_len: 0,
        }
    }

    /// Get the chunk of a buffer index, if it is in-bounds.
    ///
    /// The chunk of index `i` starts at offset `i * frame_size` and is `frame_size` long.
    pub fn frame(&self, idx: BufIdx) -> (r: Option<UmemChunk>)
        requires
            self.wf(),
        ensures
            r is Some <==> frame_fits(
                self.spec_area_len(),
                self.spec_config().frame_size,
                idx.0,
            ),
            r is Some ==> r->Some_0 == (UmemChunk {
                addr: (self.spec_area_addr() + idx.0 * self.spec_config().frame_size) as u64,
                len: self.spec_config().frame_size,
                offset: (idx.0 * self.spec_config().frame_size) as u64,
            }),
    {
        let pitch: u32 = self.config.frame_size;
        let idx: u32 = idx.0;
        assert(pitch as int * idx as int <= u32::MAX as int * u32::MAX as int)
            by (nonlinear_arith)
            requires
                pitch <= u32::MAX,
                idx <= u32::MAX,
        ;
        let offset = pitch as u64 * idx as u64;
        assert((idx as int + 1) * pitch as int == offset as int + pitch as int)
            by (nonlinear_arith)
            requires
                offset as int == pitch as int * idx as int,
        ;
        // The frame fits when `offset + pitch <= area_len`.
        if self.area_len < pitch as u64 || self.area_len - (pitch as u64) < offset {
            return None;
        }
        Some(UmemChunk { addr: self.area_addr + offset, len: pitch, offset })
    }

    /// Count the number of frames in the region, at most `u32::MAX`.
    pub fn len_frames(&self) -> (r: u32)
        requires
            self.wf(),
        ensures
            r == (if self.spec_area_len() / self.spec_config().frame_size as u64 > u32::MAX {
                u32::MAX
            } else {
                (self.spec_area_len() / self.spec_config().frame_size as u64) as u32
            }),
    {
        let count = self.area_len / (self.config.frame_size as u64);
        if count > u32::MAX as u64 {
            u32::MAX
        } else {
            count as u32
        }
    }

    /// Claim the device queue of `interface`, before its fill and completion rings are set
    /// up: refused with `EINVAL` when a device queue of this region has claimed it already.
    ///
    /// Exactly one owner maintains the fill/completion pair of an interface queue.
    pub fn fq_cq(&self, interface: &Socket) -> (r: Result<DeviceClaim, Errno>)
        ensures
            r is Ok ==> r->Ok_0.spec_socket() == *interface,
            r is Err ==> r->Err_0 == Errno(EINVAL),
    {
        let inserted = self.devices.insert(interface.info.ctx);
        self.claim_outcome(interface, inserted)
    }

    /// The outcome of claiming the device queue of `interface`, given whether the tracker took
    /// the claim.
    fn claim_outcome(&self, interface: &Socket, inserted: bool) -> (r: Result<DeviceClaim, Errno>)
        ensures
            inserted ==> r is Ok && r->Ok_0.spec_socket() == *interface,
            !inserted ==> r == Err::<DeviceClaim, Errno>(Errno(EINVAL)),
    {
        if !inserted {
            return Err(Errno(EINVAL));
        }
        Ok(DeviceClaim { socket: *interface, devices: self.devices.share(), armed: true })
    }

    /// Whether the device queue of `ctx` is claimed.
    pub fn is_claimed(&self, ctx: &IfCtx) -> bool {
        self.devices.contains(ctx)
    }

    /// The configured socket, for a socket whose receive/transmit ring sizes were set to
    /// `config` and whose ring layout is `map`.
    pub fn rx_tx(&self, interface: &Socket, config: &SocketConfig, map: SocketMmapOffsets) -> (r:
        User)
        ensures
            r.spec_socket() == *interface,
            r.spec_config() == *config,
            r.spec_map() == map,
    {
        User { socket: *interface, config: *config, map }
    }

    /// The address that binds a configured socket to its device queue.
    ///
    /// A socket other than the primary one shares the region: the address says so, and names
    /// the primary socket. The caller's bind flags are kept either way.
    pub fn bind_address(&self, interface: &User) -> (r: SockAddrXdp)
        ensures
            r == (SockAddrXdp {
                family: crate::xdp::AF_XDP,
                flags: if interface.spec_socket().spec_fd() != self.spec_fd() {
                    interface.spec_config().bind_flags | SocketConfig::XDP_BIND_SHARED_UMEM
                } else {
                    interface.spec_config().bind_flags
                },
                ifindex: interface.spec_socket().spec_info().spec_ctx().ifindex,
                queue_id: interface.spec_socket().spec_info().spec_ctx().queue_id,
                shared_umem_fd: if interface.spec_socket().spec_fd() != self.spec_fd() {
                    self.spec_fd() as u32
                } else {
                    0
                },
            }),
    {
        let mut sxdp = SockAddrXdp::default();
        sxdp.ifindex = interface.socket.info.ctx.ifindex;
        sxdp.queue_id = interface.socket.info.ctx.queue_id;
        sxdp.flags = interface.config.bind_flags;
        if interface.socket.fd != self.fd {
            sxdp.flags = interface.config.bind_flags | SocketConfig::XDP_BIND_SHARED_UMEM;
            sxdp.shared_umem_fd = self.fd as u32;
        }
        sxdp
    }
}

impl UmemConfig {
    /// The socket options that size the completion and the fill ring, in the order to set
    /// them.
    pub fn ring_options(&self) -> (r: Vec<(i32, u32)>)
        ensures
            r@ == seq![
                (Umem::XDP_UMEM_COMPLETION_RING, self.complete_size),
                (Umem::XDP_UMEM_FILL_RING, self.fill_size),
            ],
    {
        let mut r = Vec::new();
        r.push((Umem::XDP_UMEM_COMPLETION_RING, self.complete_size));
        r.push((Umem::XDP_UMEM_FILL_RING, self.fill_size));
        r
    }
}

impl Default for UmemConfig {
    fn default() -> (r: UmemConfig)
        ensures
            r == (UmemConfig {
                fill_size: 2048,
                complete_size: 2048,
                frame_size: 4096,
                headroom: 0,
                flags: 0,
            }),
    {
        UmemConfig { fill_size: 2048, complete_size: 2048, frame_size: 4096, headroom: 0, flags: 0 }
    }
}

impl SocketConfig {
    /// Flag-bit for the bind address that the region is shared.
    ///
    /// Generally, this flag need not be passed directly: [`Umem::bind_address`] sets it for
    /// every socket but the primary one.
    pub const XDP_BIND_SHARED_UMEM: u16 = 1;
    /// Force copy-mode.
    pub const XDP_BIND_COPY: u16 = 2;
    /// Force zero-copy-mode.
    pub const XDP_BIND_ZEROCOPY: u16 = 4;
    /// Enable support for need wakeup.
    pub const XDP_BIND_NEED_WAKEUP: u16 = 8;

    /// The socket options that size the receive and the transmit ring, for the rings that are
    /// configured, in the order to set them.
    pub fn ring_options(&self) -> (r: Vec<(i32, u32)>)
        ensures
            r@ == (match self.rx_size {
                Some(n) => seq![(Umem::XDP_RX_RING, n)],
                None => Seq::<(i32, u32)>::empty(),
            }) + (match self.tx_size {
                Some(n) => seq![(Umem::XDP_TX_RING, n)],
                None => Seq::<(i32, u32)>::empty(),
            }),
    {
        let mut r = Vec::new();
        if let Some(n) = self.rx_size {
            r.push((Umem::XDP_RX_RING, n));
        }
        if let Some(n) = self.tx_size {
            r.push((Umem::XDP_TX_RING, n));
        }
        proof {
            assert(r@ =~= (match self.rx_size {
                Some(n) => seq![(Umem::XDP_RX_RING, n)],
                None => Seq::<(i32, u32)>::empty(),
            }) + (match self.tx_size {
                Some(n) => seq![(Umem::XDP_TX_RING, n)],
                None => Seq::<(i32, u32)>::empty(),
            }));
        }
        r
    }
}

impl User {
    /// Get the raw file descriptor of the socket.
    pub fn as_raw_fd(&self) -> (r: i32)
        ensures
            r == self.spec_socket().spec_fd(),
    {
        self.socket.fd
    }

    /// Where to map the receive ring: refused with `-EINVAL` when no receive size was
    /// configured.
    pub fn rx_layout(&self) -> (r: Result<RingLayout, Errno>)
        ensures
            self.spec_config().rx_size is Some && self.spec_config().rx_size->Some_0 > 0 ==> r
                == spec_ring_layout(
                self.spec_map().spec_offsets().rx,
                self.spec_config().rx_size->Some_0,
                16,
                XskRing::XDP_PGOFF_RX_RING,
            ),
            !(self.spec_config().rx_size is Some && self.spec_config().rx_size->Some_0 > 0) ==> r
                == Err::<
                RingLayout,
                Errno,
            >(Errno((-EINVAL) as i32)),
    {
        match self.config.rx_size {
            Some(n) if n > 0 => RingLayout::rx(&self.map, n),
            _ => Err(Errno(-EINVAL)),
        }
    }

    /// Where to map the transmit ring: refused with `-EINVAL` when no transmit size was
    /// configured.
    pub fn tx_layout(&self) -> (r: Result<RingLayout, Errno>)
        ensures
            self.spec_config().tx_size is Some && self.spec_config().tx_size->Some_0 > 0 ==> r
                == spec_ring_layout(
                self.spec_map().spec_offsets().tx,
                self.spec_config().tx_size->Some_0,
                16,
                XskRing::XDP_PGOFF_TX_RING,
            ),
            !(self.spec_config().tx_size is Some && self.spec_config().tx_size->Some_0 > 0) ==> r
                == Err::<
                RingLayout,
                Errno,
            >(Errno((-EINVAL) as i32)),
    {
        match self.config.tx_size {
            Some(n) if n > 0 => RingLayout::tx(&self.map, n),
            _ => Err(Errno(-EINVAL)),
        }
    }
}

impl BufIdx {
    /// Buffer indices for raw numbers, in order.
    pub fn from_slice(id: &[u32]) -> (r: Vec<BufIdx>)
        ensures
            r@.len() == id@.len(),
            forall|i: int| 0 <= i < id@.len() ==> #[trigger] r@[i] == BufIdx(id@[i]),
    {
        let mut r: Vec<BufIdx> = Vec::new();
        let mut i: usize = 0;
        while i < id.len()
            invariant
                i <= id@.len(),
                r@.len() == i,
                forall|k: int| 0 <= k < i ==> #[trigger] r@[k] == BufIdx(id@[k]),
            decreases id@.len() - i,
        {
            r.push(BufIdx(id[i]));
            i = i + 1;
        }
        r
    }

    /// Raw numbers for buffer indices, in order.
    pub fn to_slice(this: &[BufIdx]) -> (r: Vec<u32>)
        ensures
            r@.len() == this@.len(),
            forall|i: int| 0 <= i < this@.len() ==> #[trigger] r@[i] == this@[i].0,
    {
        let mut r: Vec<u32> = Vec::new();
        let mut i: usize = 0;
        while i < this.len()
            invariant
                i <= this@.len(),
                r@.len() == i,
                forall|k: int| 0 <= k < i ==> #[trigger] r@[k] == this@[k].0,
            decreases this@.len() - i,
        {
            r.push(this[i].0);
            i = i + 1;
        }
        r
    }
}

impl UmemChunk {
    /// Turn this whole chunk into a descriptor for the transmit ring.
    pub fn as_xdp(self) -> (r: XdpDesc)
        ensures
            r == (XdpDesc { addr: self.offset, len: self.len, options: 0 }),
    {
        self.as_xdp_with_len(self.len)
    }

    /// Turn into a descriptor of `len` bytes of this chunk.
    pub fn as_xdp_with_len(self, len: u32) -> (r: XdpDesc)
        requires
            len <= self.len,
        ensures
            r == (XdpDesc { addr: self.offset, len, options: 0 }),
    {
        XdpDesc { addr: self.offset, len, options: 0 }
    }
}

} // verus!
