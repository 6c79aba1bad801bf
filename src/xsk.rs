//! User-space side of XDP sockets: the rings shared with the kernel, the packet-buffer region,
//! and the handles that tie them to a network device queue.
//!
//! The structures here never touch kernel memory through raw pointers. The memory-mapped heads
//! and slot arrays are handed in as references to atomic words; whoever maps the kernel pages
//! promises that those references stay valid for as long as the rings live.

/// Interface and socket identity.
mod iface;
/// The single-producer/single-consumer ring primitive.
mod ring;
/// Sockets and their configuration.
mod socket;
/// The packet-buffer region and the device tracker.
mod umem;
/// Batched access to the rings of a device queue and of a socket.
mod user;

use vstd::prelude::*;

use core::sync::atomic::{AtomicU32, AtomicU64};
use std::sync::Arc;

use crate::xdp::XdpMmapOffsets;

pub use self::iface::{IfCtx, IFNAMSIZ};
pub use self::ring::{
    grant, head_add, head_after, head_sub, heads_between, is_pow2, lemma_grant_bounds,
    lemma_peek_then_cancel, lemma_published_heads, lemma_refreshed_free_within_ring,
    lemma_reserve_then_cancel, lemma_slot_in_range, lemma_slots_distinct, lemma_store_step,
    published_total, single_writer, slot_of, RingState, SlotValue,
};
pub use self::umem::{
    frame_fits, lemma_frames_past_end, lemma_release_then_claim, lemma_repeated_claim,
    spec_ring_layout, ControlSet, DeviceClaim, RingLayout,
};
pub use self::socket::{spec_mmap_from_v1, spec_ring_latest, spec_ring_v1};
pub use self::user::{
    spec_addr_writes, spec_desc_writes, ProxyState, ReadComplete, ReadRx, WriteFill, WriteTx,
};

verus! {

/// Socket option level of XDP sockets.
pub const SOL_XDP: i32 = 283;

/// State shared by all rings: the cached heads, the geometry and the mapped words.
pub struct XskRing {
    /// Our copy of the producer head, may lag behind the shared word.
    pub(crate) cached_producer: u32,
    /// Our copy of the consumer head, may lag behind the shared word.
    pub(crate) cached_consumer: u32,
    /// Masks a head value to its slot, `size - 1`.
    pub(crate) mask: u32,
    /// Number of slots, a power of two.
    pub(crate) size: u32,
    /// The mapped producer head.
    pub(crate) producer: &'static AtomicU32,
    /// The mapped consumer head.
    pub(crate) consumer: &'static AtomicU32,
    /// The mapped flags word.
    pub(crate) flags: &'static AtomicU32,
    /// The mapped slot array, in 64-bit words: one word per address slot, two per descriptor.
    pub(crate) slots: &'static [AtomicU64],
}

/// Static configuration describing a memory area to use for ring chunks.
#[derive(Debug, Clone, Copy)]
pub struct UmemConfig {
    /// Number of entries in the fill queue.
    pub fill_size: u32,
    /// Number of entries in the completion queue.
    pub complete_size: u32,
    /// Size of data chunks in each of the ring queues.
    pub frame_size: u32,
    /// Reserved area at the start of the kernel area.
    pub headroom: u32,
    /// Flags to set with the creation calls.
    pub flags: u32,
}

/// Configuration for a created socket.
///
/// A ring size of `None` (or zero) leaves that ring unconfigured.
#[derive(Debug, Clone, Copy)]
pub struct SocketConfig {
    /// The number of receive descriptors in the ring.
    pub rx_size: Option<u32>,
    /// The number of transmit descriptors in the ring.
    pub tx_size: Option<u32>,
    /// Additional flags to pass to the `bind` call as part of `sockaddr_xdp`.
    pub bind_flags: u16,
}

/// The packet-buffer region with its configuration, the primary socket and the tracker of the
/// device queues that own a fill/completion pair.
pub struct Umem {
    /// Address of the first byte of the region, in this process.
    pub(crate) area_addr: u64,
    /// Length of the region in bytes.
    pub(crate) area_len: u64,
    pub(crate) config: UmemConfig,
    /// The primary XDP socket, the one the region is registered with.
    pub(crate) fd: i32,
    pub(crate) devices: DeviceControl,
}

/// A chunk of the region: where it is in this process and where it is for the kernel.
#[derive(Clone, Copy, Debug)]
pub struct UmemChunk {
    /// Address of the first byte of the chunk, in this process.
    pub addr: u64,
    /// Length of the chunk in bytes.
    pub len: u32,
    /// The offset of this chunk from the start of the region, the address the kernel uses.
    pub offset: u64,
}

/// One prepared socket for a receive/transmit pair, not yet bound.
#[derive(Clone, Copy)]
pub struct Socket {
    pub(crate) info: IfInfo,
    pub(crate) fd: i32,
}

/// The fill and completion rings of one device queue, with the socket that maps them.
pub struct DeviceQueue {
    pub(crate) fcq: DeviceRings,
    pub(crate) socket: Socket,
    /// The tracker to leave on drop.
    pub(crate) devices: DeviceControl,
}

/// A configured socket, whose receive and transmit rings can be mapped before it is bound.
pub struct User {
    pub(crate) socket: Socket,
    pub(crate) config: SocketConfig,
    pub(crate) map: SocketMmapOffsets,
}

/// A receive ring, with the socket it belongs to.
pub struct RingRx {
    pub(crate) ring: RingCons,
    pub(crate) fd: i32,
}

/// A transmit ring, with the socket it belongs to.
pub struct RingTx {
    pub(crate) ring: RingProd,
    pub(crate) fd: i32,
}

/// The identity of a network interface, with the name it was found by.
#[derive(Clone, Copy)]
pub struct IfInfo {
    pub(crate) ctx: IfCtx,
    pub(crate) ifname: [u8; 16],
}

/// The fill ring (produced by us) and the completion ring (consumed by us) of a device queue.
pub struct DeviceRings {
    pub prod: RingProd,
    pub cons: RingCons,
    pub map: SocketMmapOffsets,
}

/// The ring layout of a socket, as the kernel reported it.
#[derive(Debug, Clone, Copy)]
pub struct SocketMmapOffsets {
    pub(crate) inner: XdpMmapOffsets,
}

/// An index into a ring, a head value: the slot is this value masked with the ring's mask.
#[derive(Debug, Clone, Copy)]
pub struct BufIdx(pub u32);

/// A producer ring: we maintain the write head, the kernel the read tail.
pub struct RingProd {
    pub(crate) inner: XskRing,
    /// The producer head as first read.
    pub(crate) origin: Ghost<u32>,
    /// For each release store to the producer head: the value read just before, and the value
    /// stored.
    pub(crate) published: Ghost<Seq<(u32, u32)>>,
    /// Each slot written, with what was written, in order.
    pub(crate) writes: Ghost<Seq<(u32, SlotValue)>>,
}

/// A consumer ring: the kernel maintains the write head, we maintain the read tail.
pub struct RingCons {
    pub(crate) inner: XskRing,
    /// The consumer head as first read.
    pub(crate) origin: Ghost<u32>,
    /// For each release store to the consumer head: the value read just before, and the value
    /// stored.
    pub(crate) published: Ghost<Seq<(u32, u32)>>,
    /// Each slot read, with what was read, in order.
    pub(crate) reads: Ghost<Seq<(u32, SlotValue)>>,
}

/// Another name of [`RingProd`], under which its operations are implemented.
pub type XskRingProd = RingProd;

/// Another name of [`RingCons`], under which its operations are implemented.
pub type XskRingCons = RingCons;

/// Another name of [`DeviceQueue`], under which its operations are implemented.
pub type XskDeviceQueue = DeviceQueue;

/// Another name of [`RingRx`], under which its operations are implemented.
pub type XskRxRing = RingRx;

/// Another name of [`RingTx`], under which its operations are implemented.
pub type XskTxRing = RingTx;

/// A shared handle to the tracker of claimed device queues, kept by the region and by every
/// device queue.
///
/// Other threads may claim and give up device queues at any time, so what the tracker holds is
/// known only under its lock: the contracts of [`ControlSet`] state what each operation does
/// there.
pub struct DeviceControl {
    pub(crate) inner: Arc<spin::RwLock<ControlSet>>,
}

impl XskRing {
    /// The number of slots.
    pub closed spec fn spec_size(&self) -> u32 {
        self.size
    }

    /// The number of 64-bit words in the slot array.
    pub closed spec fn spec_slot_words(&self) -> nat {
        self.slots@.len()
    }

    /// Our copy of the producer head.
    pub closed spec fn spec_cached_producer(&self) -> u32 {
        self.cached_producer
    }

    /// Our copy of the consumer head.
    pub closed spec fn spec_cached_consumer(&self) -> u32 {
        self.cached_consumer
    }

    /// The geometry is consistent: the size is a power of two, the mask one less, and the slot
    /// array holds one or two words per slot.
    pub closed spec fn wf(&self) -> bool {
        &&& is_pow2(self.size)
        &&& self.mask == (self.size - 1) as u32
        &&& (self.slots@.len() == self.size || self.slots@.len() == 2 * self.size)
    }
}

impl View for RingProd {
    type V = RingState;

    closed spec fn view(&self) -> RingState {
        RingState {
            cached_producer: self.inner.cached_producer,
            cached_consumer: self.inner.cached_consumer,
            size: self.inner.size,
            slot_words: self.inner.slots@.len(),
            origin: self.origin@,
            published: self.published@,
            writes: self.writes@,
            reads: Seq::empty(),
        }
    }
}

impl View for RingCons {
    type V = RingState;

    closed spec fn view(&self) -> RingState {
        RingState {
            cached_producer: self.inner.cached_producer,
            cached_consumer: self.inner.cached_consumer,
            size: self.inner.size,
            slot_words: self.inner.slots@.len(),
            origin: self.origin@,
            published: self.published@,
            writes: Seq::empty(),
            reads: self.reads@,
        }
    }
}

impl RingProd {
    /// The ring's geometry is consistent.
    pub closed spec fn wf(&self) -> bool {
        self.inner.wf()
    }
}

impl RingCons {
    /// The ring's geometry is consistent.
    pub closed spec fn wf(&self) -> bool {
        self.inner.wf()
    }
}

impl Socket {
    /// The file descriptor.
    pub closed spec fn spec_fd(&self) -> i32 {
        self.fd
    }

    /// The interface, with the namespace cookie of the socket.
    pub closed spec fn spec_info(&self) -> IfInfo {
        self.info
    }
}

impl SocketMmapOffsets {
    /// The offsets of all rings.
    pub closed spec fn spec_offsets(&self) -> XdpMmapOffsets {
        self.inner
    }
}

impl IfInfo {
    /// The identity of the device queue this info names.
    pub closed spec fn spec_ctx(&self) -> IfCtx {
        self.ctx
    }

    /// The interface name buffer.
    pub closed spec fn spec_name(&self) -> Seq<u8> {
        self.ifname@
    }
}

impl DeviceQueue {
    /// Both rings are consistent, and both hold one address per slot.
    pub closed spec fn wf(&self) -> bool {
        &&& self.fcq.prod.wf()
        &&& self.fcq.prod@.slot_words == self.fcq.prod@.size
        &&& self.fcq.cons.wf()
        &&& self.fcq.cons@.slot_words == self.fcq.cons@.size
    }

    /// The fill ring.
    pub closed spec fn fill_ring(&self) -> RingState {
        self.fcq.prod@
    }

    /// The completion ring.
    pub closed spec fn completion_ring(&self) -> RingState {
        self.fcq.cons@
    }

    /// The file descriptor of this device queue's socket.
    pub closed spec fn spec_fd(&self) -> i32 {
        self.socket.fd
    }
}

impl RingRx {
    /// The ring is consistent and holds descriptors.
    pub closed spec fn wf(&self) -> bool {
        &&& self.ring.wf()
        &&& self.ring@.slot_words == 2 * self.ring@.size
    }

    /// The receive ring.
    pub closed spec fn rx_ring(&self) -> RingState {
        self.ring@
    }

    /// The socket of this ring.
    pub closed spec fn spec_fd(&self) -> i32 {
        self.fd
    }
}

impl RingTx {
    /// The ring is consistent and holds descriptors.
    pub closed spec fn wf(&self) -> bool {
        &&& self.ring.wf()
        &&& self.ring@.slot_words == 2 * self.ring@.size
    }

    /// The transmit ring.
    pub closed spec fn tx_ring(&self) -> RingState {
        self.ring@
    }

    /// The socket of this ring.
    pub closed spec fn spec_fd(&self) -> i32 {
        self.fd
    }
}

impl User {
    /// The socket.
    pub closed spec fn spec_socket(&self) -> Socket {
        self.socket
    }

    /// The configuration it was created with.
    pub closed spec fn spec_config(&self) -> SocketConfig {
        self.config
    }

    /// The ring layout of the socket.
    pub closed spec fn spec_map(&self) -> SocketMmapOffsets {
        self.map
    }
}

impl Umem {
    /// The configuration.
    pub closed spec fn spec_config(&self) -> UmemConfig {
        self.config
    }

    /// The address of the region in this process.
    pub closed spec fn spec_area_addr(&self) -> u64 {
        self.area_addr
    }

    /// The length of the region in bytes.
    pub closed spec fn spec_area_len(&self) -> u64 {
        self.area_len
    }

    /// The primary socket.
    pub closed spec fn spec_fd(&self) -> i32 {
        self.fd
    }

    /// Frames have a size, and the region does not run past the end of the address space.
    pub closed spec fn wf(&self) -> bool {
        &&& self.config.frame_size > 0
        &&& self.area_addr + self.area_len <= u64::MAX
    }
}

} // verus!
