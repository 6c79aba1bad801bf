//! Bindings for the AF_XDP socket interface, with the ring protocol verified.
//!
//! This library helps with creating suitable socket(s) from a memory allocation of chunks,
//! sockets for access to all four rings, binding to a specific `(ifname, queue_id)`, and with
//! the bookkeeping of the memory-mapped rings shared with the kernel.
//!
//! It does _not_ interact with the packet filter / forwarding directly, nor any other aspect of
//! `bpf`.
//!
//! The entrypoint to the library is an instance of [`crate::Umem`].

/// Bindings for the XDP kernel interface, including structs.
pub mod xdp;
/// User-space side of one or multiple XDP sockets.
mod xsk;

pub use xsk::{
    frame_fits, grant, head_add, head_after, head_sub, heads_between, is_pow2,
    lemma_frames_past_end, lemma_refreshed_free_within_ring, lemma_slots_distinct,
    lemma_grant_bounds, lemma_peek_then_cancel, lemma_published_heads,
    lemma_release_then_claim, lemma_repeated_claim, lemma_reserve_then_cancel,
    lemma_slot_in_range, lemma_store_step, published_total, single_writer, slot_of,
    spec_addr_writes, spec_desc_writes, spec_mmap_from_v1, spec_ring_latest, spec_ring_layout,
    spec_ring_v1, BufIdx, ControlSet, DeviceClaim, DeviceControl, DeviceQueue, DeviceRings, IfCtx,
    IfInfo, ProxyState, ReadComplete, ReadRx, RingCons, RingLayout, RingProd, RingRx, RingState,
    RingTx, SlotValue, Socket, SocketConfig, SocketMmapOffsets, Umem, UmemChunk, UmemConfig, User,
    WriteFill, WriteTx, XskDeviceQueue, XskRing, XskRingCons, XskRingProd, XskRxRing, XskTxRing,
    IFNAMSIZ, SOL_XDP,
};

use vstd::prelude::*;

verus! {

/// An error number as the kernel reported it.
#[derive(Debug, Clone, Copy, PartialEq, Eq, Structural)]
pub struct Errno(pub i32);

/// Invalid argument.
pub const EINVAL: i32 = 22;

/// Protocol not available.
pub const ENOPROTOOPT: i32 = 92;

impl Errno {
    /// Wrap an error number as the kernel reported it.
    pub fn from_raw_os_error(code: i32) -> (r: Errno)
        ensures
            r.0 == code,
    {
        Errno(code)
    }

    /// Get the actual `errno` value.
    pub fn get_raw(&self) -> (r: i32)
        ensures
            r == self.0,
    {
        self.0
    }
}

} // verus!
