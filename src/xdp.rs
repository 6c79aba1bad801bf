//! The structs of the XDP kernel interface; see the Linux documentation for their meaning.
//!
//! Their layout is part of the kernel interface.

use vstd::prelude::*;

verus! {

/// Rx/Tx descriptor.
#[derive(Debug, Clone, Copy, PartialEq, Eq, Structural)]
pub struct XdpDesc {
    /// Full address of this descriptor.
    pub addr: u64,
    /// Logical length of the buffer referenced by the descriptor.
    pub len: u32,
    /// A bitfield of options.
    pub options: u32,
}

/// The second 64-bit word of a descriptor slot, holding the length and the options.
///
/// The length comes first in memory; on the little-endian targets of AF_XDP that is the low
/// half of the word.
pub open spec fn desc_tail(len: u32, options: u32) -> u64 {
    (len as u64) | ((options as u64) << 32u64)
}

impl XdpDesc {
    /// The second word of this descriptor's slot.
    pub fn tail_word(&self) -> (r: u64)
        ensures
            r == desc_tail(self.len, self.options),
    {
        (self.len as u64) | ((self.options as u64) << 32u64)
    }

    /// The descriptor held by the two words of a slot.
    pub fn from_words(addr: u64, tail: u64) -> (r: XdpDesc)
        ensures
            r.addr == addr,
            r.len == (tail & 0xffff_ffff) as u32,
            r.options == (tail >> 32u64) as u32,
            desc_tail(r.len, r.options) == tail,
    {
        let len = (tail & 0xffff_ffff) as u32;
        let options = (tail >> 32u64) as u32;
        assert(((tail & 0xffff_ffff) as u32 as u64) | (((tail >> 32u64) as u32 as u64) << 32u64)
            == tail) by (bit_vector);
        XdpDesc { addr, len, options }
    }
}

/// Argument to `setsockopt(_, SOL_XDP, XDP_UMEM_REG)`.
///
/// The size of this struct selects the kernel's interpretation of the option: it has no
/// padding, and each field is meant.
#[derive(Debug, Clone, Copy)]
pub struct XdpUmemReg {
    pub addr: u64,
    pub len: u64,
    pub chunk_size: u32,
    pub headroom: u32,
    pub flags: u32,
    pub tx_metadata_len: u32,
}

/// The mmap-offsets to use for mapping one ring of an XDP socket.
#[derive(Debug, Clone, Copy, PartialEq, Eq, Structural)]
pub struct XdpRingOffsets {
    /// the relative address of the producer.
    pub producer: u64,
    /// the relative address of the consumer.
    pub consumer: u64,
    /// the relative address of the descriptor.
    pub desc: u64,
    /// the relative address of the flags area.
    pub flags: u64,
}

/// The different offsets as returned by the kernel, for all rings of a socket.
#[derive(Debug, Clone, Copy, PartialEq, Eq, Structural)]
pub struct XdpMmapOffsets {
    pub rx: XdpRingOffsets,
    pub tx: XdpRingOffsets,
    /// Fill ring offset.
    pub fr: XdpRingOffsets,
    /// Completion ring offset.
    pub cr: XdpRingOffsets,
}

/// Prior version of XdpRingOffsets (<= Linux 5.3).
#[derive(Debug, Clone, Copy, PartialEq, Eq, Structural)]
pub struct XdpRingOffsetsV1 {
    /// the relative address of the producer.
    pub producer: u64,
    /// the relative address of the consumer.
    pub consumer: u64,
    /// the relative address of the descriptor.
    pub desc: u64,
}

/// Prior version of XdpMmapOffsets (<= Linux 5.3).
#[derive(Debug, Clone, Copy, PartialEq, Eq, Structural)]
pub struct XdpMmapOffsetsV1 {
    /// Offsets for the receive ring (kernel produced).
    pub rx: XdpRingOffsetsV1,
    /// Offsets for the transmit ring (user produced).
    pub tx: XdpRingOffsetsV1,
    /// Offsets for the fill ring (user produced).
    pub fr: XdpRingOffsetsV1,
    /// Offsets for the completion ring (kernel produced).
    pub cr: XdpRingOffsetsV1,
}

/// The socket address of an XDP socket, `sockaddr_xdp`.
#[derive(Debug, Clone, Copy, PartialEq, Eq, Structural)]
pub struct SockAddrXdp {
    pub family: u16,
    pub flags: u16,
    pub ifindex: u32,
    pub queue_id: u32,
    pub shared_umem_fd: u32,
}

/// Prior version of XdpStatisticsV2 that only contains fields present from <= Linux 5.8
#[derive(Debug, Clone, Copy, PartialEq, Eq, Structural)]
pub struct XdpStatistics {
    pub rx_dropped: u64,
    pub rx_invalid_descs: u64,
    pub tx_invalid_descs: u64,
}

/// The statistics of an XDP socket, `xdp_statistics`.
#[derive(Debug, Clone, Copy, PartialEq, Eq, Structural)]
pub struct XdpStatisticsV2 {
    pub rx_dropped: u64,
    pub rx_invalid_descs: u64,
    pub tx_invalid_descs: u64,
    /// Only set on >= Linux 5.9
    pub rx_ring_full: u64,
    /// Only set on >= Linux 5.9
    pub rx_fill_ring_empty_descs: u64,
    /// Only set on >= Linux 5.9
    pub tx_ring_empty_descs: u64,
}

/// The address family of XDP sockets.
pub const AF_XDP: u16 = 44;

impl Default for SockAddrXdp {
    fn default() -> (r: Self)
        ensures
            r == (SockAddrXdp {
                family: AF_XDP,
                flags: 0,
                ifindex: 0,
                queue_id: 0,
                shared_umem_fd: 0,
            }),
    {
        SockAddrXdp { family: AF_XDP, flags: 0, ifindex: 0, queue_id: 0, shared_umem_fd: 0 }
    }
}

/// The ring offsets of the current layout for offsets in the prior layout: the flags word
/// sat right after the consumer word.
pub open spec fn spec_fixup_v1(v1: XdpRingOffsetsV1) -> XdpRingOffsets {
    XdpRingOffsets {
        producer: v1.producer,
        consumer: v1.consumer,
        desc: v1.desc,
        flags: ((v1.consumer + 4) % 0x1_0000_0000_0000_0000int) as u64,
    }
}

impl XdpRingOffsets {
    /// Convert offsets in the prior layout, where the flags word was implicit.
    pub fn from_v1(v1: XdpRingOffsetsV1) -> (r: XdpRingOffsets)
        ensures
            r == spec_fixup_v1(v1),
    {
        XdpRingOffsets {
            producer: v1.producer,
            consumer: v1.consumer,
            desc: v1.desc,
            flags: v1.consumer.wrapping_add(4),
        }
    }
}

} // verus!
