use vstd::prelude::*;

use crate::xdp::{XdpMmapOffsets, XdpMmapOffsetsV1, XdpRingOffsets, XdpRingOffsetsV1};
use crate::xdp::spec_fixup_v1;
use crate::xsk::{IfCtx, IfInfo, Socket, SocketMmapOffsets};
use crate::{Errno, EINVAL, ENOPROTOOPT};

verus! {

impl Socket {
    /// Socket option: the network namespace cookie of a socket.
    pub const SO_NETNS_COOKIE: i32 = 71;
    /// The cookie of the initial network namespace, for kernels that cannot tell.
    pub const INIT_NS: u64 = 1;

    /// A socket for `interface` over the XDP socket `fd`, given what querying the socket's
    /// network namespace cookie gave.
    ///
    /// A kernel without the query (`ENOPROTOOPT`) has only the initial namespace; any other
    /// error is passed on.
    pub fn with_xdp_socket(interface: &IfInfo, fd: i32, cookie: Result<u64, Errno>) -> (r:
        Result<Socket, Errno>)
        ensures
            cookie is Err && cookie->Err_0 != Errno(ENOPROTOOPT) ==> r == Err::<Socket, Errno>(
                cookie->Err_0,
            ),
            !(cookie is Err && cookie->Err_0 != Errno(ENOPROTOOPT)) ==> {
                &&& r is Ok
                &&& r->Ok_0.spec_fd() == fd
                &&& r->Ok_0.spec_info().spec_name() == interface.spec_name()
                &&& r->Ok_0.spec_info().spec_ctx() == (IfCtx {
                    netnscookie: match cookie {
                        Ok(c) => c,
                        Err(_) => Socket::INIT_NS,
                    },
                    ..interface.spec_ctx()
                })
            },
    {
        let netnscookie = match cookie {
            Ok(c) => c,
            Err(Errno(ENOPROTOOPT)) => Socket::INIT_NS,
            Err(err) => return Err(err),
        };
        let mut info = *interface;
        info.ctx.netnscookie = netnscookie;
        Ok(Socket { info, fd })
    }

    /// Get the raw file descriptor number underlying this socket.
    pub fn as_raw_fd(&self) -> (r: i32)
        ensures
            r == self.spec_fd(),
    {
        self.fd
    }

    /// The interface, with the namespace cookie of the socket.
    pub fn info(&self) -> (r: IfInfo)
        ensures
            r == self.spec_info(),
    {
        self.info
    }
}

/// The offsets of all rings in the prior layout, converted.
pub open spec fn spec_mmap_from_v1(v1: XdpMmapOffsetsV1) -> XdpMmapOffsets {
    XdpMmapOffsets {
        rx: spec_fixup_v1(v1.rx),
        tx: spec_fixup_v1(v1.tx),
        fr: spec_fixup_v1(v1.fr),
        cr: spec_fixup_v1(v1.cr),
    }
}

/// The offsets of one ring in the prior layout: three words from `at`.
pub open spec fn spec_ring_v1(words: Seq<u64>, at: int) -> XdpRingOffsetsV1 {
    XdpRingOffsetsV1 { producer: words[at], consumer: words[at + 1], desc: words[at + 2] }
}

/// The offsets of one ring in the current layout: four words from `at`.
pub open spec fn spec_ring_latest(words: Seq<u64>, at: int) -> XdpRingOffsets {
    XdpRingOffsets {
        producer: words[at],
        consumer: words[at + 1],
        desc: words[at + 2],
        flags: words[at + 3],
    }
}

impl SocketMmapOffsets {
    /// The size in bytes of the offsets in the prior layout.
    pub const OPT_V1: u32 = 96;
    /// The size in bytes of the offsets in the current layout.
    pub const OPT_LATEST: u32 = 128;

    /// The offsets of all rings.
    pub fn offsets(&self) -> (r: XdpMmapOffsets)
        ensures
            r == self.spec_offsets(),
    {
        self.inner
    }

    /// The offsets the kernel wrote as `words`, where `len` is how many bytes it wrote.
    ///
    /// The kernel has written one of two layouts, told apart by their size; any other size is
    /// refused with `-EINVAL`.
    pub fn from_raw(words: [u64; 16], len: u32) -> (r: Result<SocketMmapOffsets, Errno>)
        ensures
            len == Self::OPT_V1 ==> r is Ok && r->Ok_0.spec_offsets() == spec_mmap_from_v1(
                XdpMmapOffsetsV1 {
                    rx: spec_ring_v1(words@, 0),
                    tx: spec_ring_v1(words@, 3),
                    fr: spec_ring_v1(words@, 6),
                    cr: spec_ring_v1(words@, 9),
                },
            ),
            len == Self::OPT_LATEST ==> r is Ok && r->Ok_0.spec_offsets() == (XdpMmapOffsets {
                rx: spec_ring_latest(words@, 0),
                tx: spec_ring_latest(words@, 4),
                fr: spec_ring_latest(words@, 8),
                cr: spec_ring_latest(words@, 12),
            }),
            len != Self::OPT_V1 && len != Self::OPT_LATEST ==> r == Err::<
                SocketMmapOffsets,
                Errno,
            >(Errno((-EINVAL) as i32)),
    {
        if len == Self::OPT_V1 {
            let v1 = XdpMmapOffsetsV1 {
                rx: XdpRingOffsetsV1 { producer: words[0], consumer: words[1], desc: words[2] },
                tx: XdpRingOffsetsV1 { producer: words[3], consumer: words[4], desc: words[5] },
                fr: XdpRingOffsetsV1 { producer: words[6], consumer: words[7], desc: words[8] },
                cr: XdpRingOffsetsV1 { producer: words[9], consumer: words[10], desc: words[11] },
            };
            Ok(SocketMmapOffsets {
                inner: XdpMmapOffsets {
                    rx: XdpRingOffsets::from_v1(v1.rx),
                    tx: XdpRingOffsets::from_v1(v1.tx),
                    fr: XdpRingOffsets::from_v1(v1.fr),
                    cr: XdpRingOffsets::from_v1(v1.cr),
                },
            })
        } else if len == Self::OPT_LATEST {
            Ok(SocketMmapOffsets {
                inner: XdpMmapOffsets {
                    rx: XdpRingOffsets {
                        producer: words[0],
                        consumer: words[1],
                        desc: words[2],
                        flags: words[3],
                    },
                    tx: XdpRingOffsets {
                        producer: words[4],
                        consumer: words[5],
                        desc: words[6],
                        flags: words[7],
                    },
                    fr: XdpRingOffsets {
                        producer: words[8],
                        consumer: words[9],
                        desc: words[10],
                        flags: words[11],
                    },
                    cr: XdpRingOffsets {
                        producer: words[12],
                        consumer: words[13],
                        desc: words[14],
                        flags: words[15],
                    },
                },
            })
        } else {
            Err(Errno(-EINVAL))
        }
    }
}

} // verus!
