use vstd::prelude::*;

use crate::xdp::XdpDesc;
use crate::xsk::ring::{grant, head_add, head_sub, slot_of, RingState, SlotValue};
use crate::xsk::{
    BufIdx, RingCons, RingProd, RingRx, RingTx, XskDeviceQueue, XskRxRing,
    XskTxRing,
};

verus! {

/// What a batch handle holds, for its contracts.
pub struct ProxyState {
    /// The head value of the next slot to hand out.
    pub base: u32,
    /// The slots granted and not yet committed (or released).
    pub buffers: u32,
    /// The slots granted and not yet handed out.
    pub remain: u32,
}

/// The slots that `items` land in, one after the other from the head value `base`, in a ring
/// of `size` slots of addresses.
pub open spec fn spec_addr_writes(base: u32, size: u32, items: Seq<u64>) -> Seq<(u32, SlotValue)> {
    Seq::new(
        items.len(),
        |k: int| (slot_of(head_add(base, k as u32), size), SlotValue::Addr(items[k])),
    )
}

/// The slots that `items` land in, one after the other from the head value `base`, in a ring
/// of `size` slots of descriptors.
pub open spec fn spec_desc_writes(base: u32, size: u32, items: Seq<XdpDesc>) -> Seq<
    (u32, SlotValue),
> {
    Seq::new(
        items.len(),
        |k: int| (slot_of(head_add(base, k as u32), size), SlotValue::Desc(items[k])),
    )
}

/// A range of slots granted by a reserve or a peek.
pub(crate) struct BufIdxIter {
    /// The next slot to hand out.
    base: BufIdx,
    /// The number of granted slots not yet committed.
    buffers: u32,
    /// The number of slots still left.
    remain: u32,
}

impl BufIdxIter {
    spec fn view(&self) -> ProxyState {
        ProxyState { base: self.base.0, buffers: self.buffers, remain: self.remain }
    }

    /// Hand out the next slot, if one is left.
    fn next(&mut self) -> (r: Option<BufIdx>)
        ensures
            old(self).remain == 0 ==> r is None && final(self).view() == old(self).view(),
            old(self).remain > 0 ==> r == Some(BufIdx(old(self).base.0)) && final(self).view()
                == (ProxyState {
                base: head_add(old(self).base.0, 1),
                remain: (old(self).remain - 1) as u32,
                ..old(self).view()
            }),
    {
        if self.remain == 0 {
            return None;
        }
        self.remain = self.remain - 1;
        let ret = BufIdx(self.base.0);
        self.base = BufIdx(self.base.0.wrapping_add(1));
        Some(ret)
    }

    /// Peek up to `n` filled slots of a consumer ring.
    fn peek(queue: &mut RingCons, n: u32) -> (r: Self)
        ensures
            final(queue)@ == (RingState {
                cached_producer: final(queue)@.cached_producer,
                cached_consumer: head_add(old(queue)@.cached_consumer, r.buffers),
                ..old(queue)@
            }),
            final(queue).wf() == old(queue).wf(),
            r.buffers == grant(
                head_sub(final(queue)@.cached_producer, old(queue)@.cached_consumer),
                1,
                n,
            ),
            r.remain == r.buffers,
            r.buffers > 0 ==> r.base.0 == old(queue)@.cached_consumer,
    {
        let mut base = BufIdx(0);
        let buffers = queue.peek(1..=n, &mut base);
        BufIdxIter { base, buffers, remain: buffers }
    }

    /// Reserve up to `n` free slots of a producer ring.
    fn reserve(queue: &mut RingProd, n: u32) -> (r: Self)
        ensures
            final(queue)@ == (RingState {
                cached_consumer: final(queue)@.cached_consumer,
                cached_producer: head_add(old(queue)@.cached_producer, r.buffers),
                ..old(queue)@
            }),
            final(queue).wf() == old(queue).wf(),
            r.buffers == grant(
                head_sub(final(queue)@.cached_consumer, old(queue)@.cached_producer),
                1,
                n,
            ),
            r.remain == r.buffers,
            r.buffers > 0 ==> r.base.0 == old(queue)@.cached_producer,
    {
        let mut base = BufIdx(0);
        let buffers = queue.reserve(1..=n, &mut base);
        BufIdxIter { base, buffers, remain: buffers }
    }

    /// Submit the slots handed out so far.
    fn commit_prod(&mut self, queue: &mut RingProd)
        requires
            old(self).remain <= old(self).buffers,
        ensures
            old(self).buffers == 0 ==> final(self).view() == old(self).view() && *final(queue)
                == *old(queue),
            old(self).buffers > 0 ==> {
                &&& final(self).view() == (ProxyState {
                    buffers: old(self).remain,
                    ..old(self).view()
                })
                &&& final(queue)@ == (RingState {
                    published: final(queue)@.published,
                    ..old(queue)@
                })
                &&& final(queue)@.published == old(queue)@.published.push(
                    final(queue)@.published.last(),
                )
                &&& final(queue)@.published.last().1 == head_add(
                    final(queue)@.published.last().0,
                    (old(self).buffers - old(self).remain) as u32,
                )
            },
            final(queue).wf() == old(queue).wf(),
    {
        // An atomic write, that the compiler will not remove: skip it when nothing was granted.
        if self.buffers > 0 {
            let count = self.buffers - self.remain;
            queue.submit(count);
            self.buffers = self.buffers - count;
            proof {
                assert(queue@.published =~= old(queue)@.published.push(queue@.published.last()));
            }
        }
    }

    /// Release the slots handed out so far.
    fn release_cons(&mut self, queue: &mut RingCons)
        requires
            old(self).remain <= old(self).buffers,
        ensures
            old(self).buffers == 0 ==> final(self).view() == old(self).view() && *final(queue)
                == *old(queue),
            old(self).buffers > 0 ==> {
                &&& final(self).view() == (ProxyState {
                    buffers: old(self).remain,
                    ..old(self).view()
                })
                &&& final(queue)@ == (RingState {
                    published: final(queue)@.published,
                    ..old(queue)@
                })
                &&& final(queue)@.published == old(queue)@.published.push(
                    final(queue)@.published.last(),
                )
                &&& final(queue)@.published.last().1 == head_add(
                    final(queue)@.published.last().0,
                    (old(self).buffers - old(self).remain) as u32,
                )
            },
            final(queue).wf() == old(queue).wf(),
    {
        if self.buffers > 0 {
            let count = self.buffers - self.remain;
            queue.release(count);
            self.buffers = self.buffers - count;
            proof {
                assert(queue@.published =~= old(queue)@.published.push(queue@.published.last()));
            }
        }
    }
}

/// A writer to a fill queue.
///
/// Created with [`XskDeviceQueue::fill`]. Dropping it without a commit gives the slots back.
pub struct WriteFill<'queue> {
    idx: BufIdxIter,
    /// The queue we write to.
    queue: &'queue mut RingProd,
}

/// A reader from a completion queue.
///
/// Created with [`XskDeviceQueue::complete`]. Dropping it without a release gives the slots
/// back.
pub struct ReadComplete<'queue> {
    idx: BufIdxIter,
    /// The queue we read from.
    queue: &'queue mut RingCons,
}

/// A writer to a transmission (TX) queue.
///
/// Created with [`XskTxRing::transmit`]. Dropping it without a commit gives the slots back.
pub struct WriteTx<'queue> {
    idx: BufIdxIter,
    /// The queue we write to.
    queue: &'queue mut RingProd,
}

/// A reader from a receive (RX) queue.
///
/// Created with [`XskRxRing::receive`]. Dropping it without a release gives the slots back.
pub struct ReadRx<'queue> {
    idx: BufIdxIter,
    /// The queue we read from.
    queue: &'queue mut RingCons,
}

impl XskDeviceQueue {
    /// Add some buffers to the fill ring: reserve up to `n` slots.
    pub fn fill(&mut self, n: u32) -> (r: WriteFill<'_>)
        requires
            old(self).wf(),
        ensures
            r.wf(),
            r.ring() == (RingState {
                cached_consumer: r.ring().cached_consumer,
                cached_producer: head_add(old(self).fill_ring().cached_producer, r@.buffers),
                ..old(self).fill_ring()
            }),
            r@.buffers == grant(
                head_sub(r.ring().cached_consumer, old(self).fill_ring().cached_producer),
                1,
                n,
            ),
            r@.remain == r@.buffers,
            r@.buffers > 0 ==> r@.base == old(self).fill_ring().cached_producer,
    {
        let idx = BufIdxIter::reserve(&mut self.fcq.prod, n);
        WriteFill { idx, queue: &mut self.fcq.prod }
    }

    /// Reap some buffers from the completion ring: peek up to `n` slots.
    pub fn complete(&mut self, n: u32) -> (r: ReadComplete<'_>)
        requires
            old(self).wf(),
        ensures
            r.wf(),
            r.ring() == (RingState {
                cached_producer: r.ring().cached_producer,
                cached_consumer: head_add(old(self).completion_ring().cached_consumer, r@.buffers),
                ..old(self).completion_ring()
            }),
            r@.buffers == grant(
                head_sub(r.ring().cached_producer, old(self).completion_ring().cached_consumer),
                1,
                n,
            ),
            r@.remain == r@.buffers,
            r@.buffers > 0 ==> r@.base == old(self).completion_ring().cached_consumer,
    {
        let idx = BufIdxIter::peek(&mut self.fcq.cons, n);
        ReadComplete { idx, queue: &mut self.fcq.cons }
    }

    /// The number of completions the kernel has produced past our consumer head; the producer
    /// head is read again (acquire) when none are known.
    pub fn available(&mut self) -> (r: u32)
        requires
            old(self).wf(),
        ensures
            final(self).wf(),
            final(self).fill_ring() == old(self).fill_ring(),
            final(self).completion_ring() == (RingState {
                cached_producer: final(self).completion_ring().cached_producer,
                ..old(self).completion_ring()
            }),
            r == head_sub(
                final(self).completion_ring().cached_producer,
                old(self).completion_ring().cached_consumer,
            ),
            head_sub(
                old(self).completion_ring().cached_producer,
                old(self).completion_ring().cached_consumer,
            ) >= 1 ==> final(self).completion_ring() == old(self).completion_ring(),
    {
        self.fcq.cons.count_available(1)
    }

    /// The number of fill slots we have submitted that the kernel has not consumed.
    pub fn pending(&self) -> u32 {
        self.fcq.prod.count_pending()
    }

    /// Get the raw file descriptor of this device queue's socket.
    pub fn as_raw_fd(&self) -> (r: i32)
        ensures
            r == self.spec_fd(),
    {
        self.socket.fd
    }

    /// Whether the kernel asks to be woken up to serve the fill ring.
    pub fn needs_wakeup(&self) -> bool {
        self.fcq.prod.needs_wakeup()
    }
}

impl XskRxRing {
    /// A receive ring over a mapped consumer ring of descriptors, for the socket `fd`.
    pub fn new(ring: RingCons, fd: i32) -> (r: RingRx)
        requires
            ring.wf(),
            ring@.slot_words == 2 * ring@.size,
        ensures
            r.wf(),
            r.rx_ring() == ring@,
            r.spec_fd() == fd,
    {
        RingRx { ring, fd }
    }

    /// Receive some buffers: peek up to `n` descriptors.
    pub fn receive(&mut self, n: u32) -> (r: ReadRx<'_>)
        requires
            old(self).wf(),
        ensures
            r.wf(),
            r.ring() == (RingState {
                cached_producer: r.ring().cached_producer,
                cached_consumer: head_add(old(self).rx_ring().cached_consumer, r@.buffers),
                ..old(self).rx_ring()
            }),
            r@.buffers == grant(
                head_sub(r.ring().cached_producer, old(self).rx_ring().cached_consumer),
                1,
                n,
            ),
            r@.remain == r@.buffers,
            r@.buffers > 0 ==> r@.base == old(self).rx_ring().cached_consumer,
    {
        let idx = BufIdxIter::peek(&mut self.ring, n);
        ReadRx { idx, queue: &mut self.ring }
    }

    /// The number of received descriptors that we have not released.
    pub fn available(&self) -> u32 {
        self.ring.count_pending()
    }

    /// Get the raw file descriptor of this RX ring.
    pub fn as_raw_fd(&self) -> (r: i32)
        ensures
            r == self.spec_fd(),
    {
        self.fd
    }
}

impl XskTxRing {
    /// A transmit ring over a mapped producer ring of descriptors, for the socket `fd`.
    pub fn new(ring: RingProd, fd: i32) -> (r: RingTx)
        requires
            ring.wf(),
            ring@.slot_words == 2 * ring@.size,
        ensures
            r.wf(),
            r.tx_ring() == ring@,
            r.spec_fd() == fd,
    {
        RingTx { ring, fd }
    }

    /// Transmit some buffers: reserve up to `n` descriptor slots.
    pub fn transmit(&mut self, n: u32) -> (r: WriteTx<'_>)
        requires
            old(self).wf(),
        ensures
            r.wf(),
            r.ring() == (RingState {
                cached_consumer: r.ring().cached_consumer,
                cached_producer: head_add(old(self).tx_ring().cached_producer, r@.buffers),
                ..old(self).tx_ring()
            }),
            r@.buffers == grant(
                head_sub(r.ring().cached_consumer, old(self).tx_ring().cached_producer),
                1,
                n,
            ),
            r@.remain == r@.buffers,
            r@.buffers > 0 ==> r@.base == old(self).tx_ring().cached_producer,
    {
        let idx = BufIdxIter::reserve(&mut self.ring, n);
        WriteTx { idx, queue: &mut self.ring }
    }

    /// The number of descriptors we have submitted that the kernel has not consumed.
    pub fn pending(&self) -> u32 {
        self.ring.count_pending()
    }

    /// Whether the kernel asks to be woken up to serve the transmit ring.
    pub fn needs_wakeup(&self) -> bool {
        self.ring.needs_wakeup()
    }

    /// Get the raw file descriptor of this TX ring.
    pub fn as_raw_fd(&self) -> (r: i32)
        ensures
            r == self.spec_fd(),
    {
        self.fd
    }
}

impl<'queue> View for WriteFill<'queue> {
    type V = ProxyState;

    closed spec fn view(&self) -> ProxyState {
        self.idx.view()
    }
}

impl<'queue> WriteFill<'queue> {
    /// The ring written to.
    pub closed spec fn ring(&self) -> RingState {
        (*self.queue)@
    }

    /// The ring holds addresses, and no more slots are left than were granted.
    pub closed spec fn wf(&self) -> bool {
        &&& self.queue.wf()
        &&& (*self.queue)@.slot_words == (*self.queue)@.size
        &&& self.idx.remain <= self.idx.buffers
    }

    /// The total number of available slots.
    pub fn capacity(&self) -> (r: u32)
        ensures
            r == self@.buffers,
    {
        self.idx.buffers
    }

    /// Fill one slot with a frame address, if one is left; returns the number filled.
    ///
    /// Any address within a chunk can be used to mark the chunk as available for fill.
    pub fn insert_once(&mut self, nr: u64) -> (r: u32)
        requires
            old(self).wf(),
        ensures
            final(self).wf(),
            final(self).ring() == (RingState {
                writes: if r == 1 {
                    old(self).ring().writes.push(
                        (slot_of(old(self)@.base, old(self).ring().size), SlotValue::Addr(nr)),
                    )
                } else {
                    old(self).ring().writes
                },
                ..old(self).ring()
            }),
            r == (if old(self)@.remain > 0 {
                1u32
            } else {
                0u32
            }),
            final(self)@ == (ProxyState {
                base: head_add(old(self)@.base, r),
                remain: (old(self)@.remain - r) as u32,
                ..old(self)@
            }),
    {
        match self.idx.next() {
            Some(bufidx) => {
                self.queue.write_addr(bufidx, nr);
                1
            },
            None => 0,
        }
    }

    /// Fill slots with the addresses in `items`, in order, until either runs out; returns the
    /// number filled.
    pub fn insert(&mut self, items: &[u64]) -> (r: u32)
        requires
            old(self).wf(),
        ensures
            final(self).wf(),
            final(self).ring() == (RingState {
                writes: old(self).ring().writes + spec_addr_writes(
                    old(self)@.base,
                    old(self).ring().size,
                    items@.take(r as int),
                ),
                ..old(self).ring()
            }),
            r == (if items@.len() < old(self)@.remain {
                items@.len() as u32
            } else {
                old(self)@.remain
            }),
            final(self)@ == (ProxyState {
                base: head_add(old(self)@.base, r),
                remain: (old(self)@.remain - r) as u32,
                ..old(self)@
            }),
    {
        let mut n: u32 = 0;
        let mut i: usize = 0;
        while i < items.len() && self.idx.remain > 0
            invariant
                self.wf(),
                self.ring() == (RingState {
                    writes: old(self).ring().writes + spec_addr_writes(
                        old(self)@.base,
                        old(self).ring().size,
                        items@.take(n as int),
                    ),
                    ..old(self).ring()
                }),
                i == n,
                n <= old(self)@.remain,
                i <= items@.len(),
                self@ == (ProxyState {
                    base: head_add(old(self)@.base, n),
                    remain: (old(self)@.remain - n) as u32,
                    ..old(self)@
                }),
            decreases items@.len() - i,
        {
            let bufidx = BufIdx(self.idx.base.0);
            self.queue.write_addr(bufidx, items[i]);
            self.idx.next();
            proof {
                let ghost size = old(self).ring().size;
                let ghost written = (slot_of(bufidx.0, size), SlotValue::Addr(items@[n as int]));
                let ghost base = old(self)@.base;
                assert(spec_addr_writes(base, size, items@.take(n + 1)) =~= spec_addr_writes(
                    base,
                    size,
                    items@.take(n as int),
                ).push(written));
            }
            n = n + 1;
            i = i + 1;
        }
        proof {
            if n < items@.len() {
                assert(self@.remain == 0);
            }
            assert(items@.take(n as int) =~= items@.take(
                if items@.len() < old(self)@.remain {
                    items@.len() as int
                } else {
                    old(self)@.remain as int
                },
            ));
        }
        n
    }

    /// Commit the slots filled so far to the kernel.
    pub fn commit(&mut self)
        requires
            old(self).wf(),
        ensures
            final(self).wf(),
            old(self)@.buffers == 0 ==> final(self)@ == old(self)@ && final(self).ring()
                == old(self).ring(),
            old(self)@.buffers > 0 ==> {
                &&& final(self)@ == (ProxyState { buffers: old(self)@.remain, ..old(self)@ })
                &&& final(self).ring() == (RingState {
                    published: final(self).ring().published,
                    ..old(self).ring()
                })
                &&& final(self).ring().published == old(self).ring().published.push(
                    final(self).ring().published.last(),
                )
                &&& final(self).ring().published.last().1 == head_add(
                    final(self).ring().published.last().0,
                    (old(self)@.buffers - old(self)@.remain) as u32,
                )
            },
    {
        self.idx.commit_prod(self.queue)
    }
}

impl<'queue> Drop for WriteFill<'queue> {
    /// Unless everything is committed, roll back the cached producer head.
    fn drop(&mut self)
        opens_invariants none
        no_unwind
    {
        if self.idx.buffers != 0 {
            self.queue.cancel(self.idx.buffers)
        }
    }
}

impl<'queue> View for ReadComplete<'queue> {
    type V = ProxyState;

    closed spec fn view(&self) -> ProxyState {
        self.idx.view()
    }
}

impl<'queue> ReadComplete<'queue> {
    /// The ring read from.
    pub closed spec fn ring(&self) -> RingState {
        (*self.queue)@
    }

    /// The ring holds addresses, and no more slots are left than were granted.
    pub closed spec fn wf(&self) -> bool {
        &&& self.queue.wf()
        &&& (*self.queue)@.slot_words == (*self.queue)@.size
        &&& self.idx.remain <= self.idx.buffers
    }

    /// The total number of available buffers.
    pub fn capacity(&self) -> (r: u32)
        ensures
            r == self@.buffers,
    {
        self.idx.buffers
    }

    /// Read the next completed frame address, if one is left.
    pub fn read(&mut self) -> (r: Option<u64>)
        requires
            old(self).wf(),
        ensures
            final(self).wf(),
            final(self).ring() == (RingState {
                reads: if r is Some {
                    old(self).ring().reads.push(
                        (
                            slot_of(old(self)@.base, old(self).ring().size),
                            SlotValue::Addr(r->Some_0),
                        ),
                    )
                } else {
                    old(self).ring().reads
                },
                ..old(self).ring()
            }),
            r is Some == (old(self)@.remain > 0),
            final(self)@ == (ProxyState {
                base: head_add(old(self)@.base, if r is Some {
                    1u32
                } else {
                    0u32
                }),
                remain: (old(self)@.remain - if r is Some {
                    1u32
                } else {
                    0u32
                }) as u32,
                ..old(self)@
            }),
    {
        match self.idx.next() {
            Some(bufidx) => Some(self.queue.read_addr(bufidx)),
            None => {
                proof {
                    assert(head_add(old(self)@.base, 0) == old(self)@.base);
                }
                None
            },
        }
    }

    /// Release the slots read so far to the kernel.
    pub fn release(&mut self)
        requires
            old(self).wf(),
        ensures
            final(self).wf(),
            old(self)@.buffers == 0 ==> final(self)@ == old(self)@ && final(self).ring()
                == old(self).ring(),
            old(self)@.buffers > 0 ==> {
                &&& final(self)@ == (ProxyState { buffers: old(self)@.remain, ..old(self)@ })
                &&& final(self).ring() == (RingState {
                    published: final(self).ring().published,
                    ..old(self).ring()
                })
                &&& final(self).ring().published == old(self).ring().published.push(
                    final(self).ring().published.last(),
                )
                &&& final(self).ring().published.last().1 == head_add(
                    final(self).ring().published.last().0,
                    (old(self)@.buffers - old(self)@.remain) as u32,
                )
            },
    {
        self.idx.release_cons(self.queue)
    }
}

impl<'queue> Drop for ReadComplete<'queue> {
    /// Unless everything is released, roll back the cached consumer head.
    fn drop(&mut self)
        opens_invariants none
        no_unwind
    {
        if self.idx.buffers != 0 {
            self.queue.cancel(self.idx.buffers)
        }
    }
}

impl<'queue> View for WriteTx<'queue> {
    type V = ProxyState;

    closed spec fn view(&self) -> ProxyState {
        self.idx.view()
    }
}

impl<'queue> WriteTx<'queue> {
    /// The ring written to.
    pub closed spec fn ring(&self) -> RingState {
        (*self.queue)@
    }

    /// The ring holds descriptors, and no more slots are left than were granted.
    pub closed spec fn wf(&self) -> bool {
        &&& self.queue.wf()
        &&& (*self.queue)@.slot_words == 2 * (*self.queue)@.size
        &&& self.idx.remain <= self.idx.buffers
    }

    /// The total number of available slots.
    pub fn capacity(&self) -> (r: u32)
        ensures
            r == self@.buffers,
    {
        self.idx.buffers
    }

    /// Fill one slot with a descriptor, if one is left; returns the number filled.
    pub fn insert_once(&mut self, nr: XdpDesc) -> (r: u32)
        requires
            old(self).wf(),
        ensures
            final(self).wf(),
            final(self).ring() == (RingState {
                writes: if r == 1 {
                    old(self).ring().writes.push(
                        (slot_of(old(self)@.base, old(self).ring().size), SlotValue::Desc(nr)),
                    )
                } else {
                    old(self).ring().writes
                },
                ..old(self).ring()
            }),
            r == (if old(self)@.remain > 0 {
                1u32
            } else {
                0u32
            }),
            final(self)@ == (ProxyState {
                base: head_add(old(self)@.base, r),
                remain: (old(self)@.remain - r) as u32,
                ..old(self)@
            }),
    {
        match self.idx.next() {
            Some(bufidx) => {
                self.queue.write_desc(bufidx, nr);
                1
            },
            None => 0,
        }
    }

    /// Fill slots with the descriptors in `items`, in order, until either runs out; returns
    /// the number filled.
    pub fn insert(&mut self, items: &[XdpDesc]) -> (r: u32)
        requires
            old(self).wf(),
        ensures
            final(self).wf(),
            final(self).ring() == (RingState {
                writes: old(self).ring().writes + spec_desc_writes(
                    old(self)@.base,
                    old(self).ring().size,
                    items@.take(r as int),
                ),
                ..old(self).ring()
            }),
            r == (if items@.len() < old(self)@.remain {
                items@.len() as u32
            } else {
                old(self)@.remain
            }),
            final(self)@ == (ProxyState {
                base: head_add(old(self)@.base, r),
                remain: (old(self)@.remain - r) as u32,
                ..old(self)@
            }),
    {
        let mut n: u32 = 0;
        let mut i: usize = 0;
        while i < items.len() && self.idx.remain > 0
            invariant
                self.wf(),
                self.ring() == (RingState {
                    writes: old(self).ring().writes + spec_desc_writes(
                        old(self)@.base,
                        old(self).ring().size,
                        items@.take(n as int),
                    ),
                    ..old(self).ring()
                }),
                i == n,
                n <= old(self)@.remain,
                i <= items@.len(),
                self@ == (ProxyState {
                    base: head_add(old(self)@.base, n),
                    remain: (old(self)@.remain - n) as u32,
                    ..old(self)@
                }),
            decreases items@.len() - i,
        {
            let bufidx = BufIdx(self.idx.base.0);
            self.queue.write_desc(bufidx, items[i]);
            self.idx.next();
            proof {
                let ghost size = old(self).ring().size;
                let ghost written = (slot_of(bufidx.0, size), SlotValue::Desc(items@[n as int]));
                let ghost base = old(self)@.base;
                assert(spec_desc_writes(base, size, items@.take(n + 1)) =~= spec_desc_writes(
                    base,
                    size,
                    items@.take(n as int),
                ).push(written));
            }
            n = n + 1;
            i = i + 1;
        }
        proof {
            if n < items@.len() {
                assert(self@.remain == 0);
            }
            assert(items@.take(n as int) =~= items@.take(
                if items@.len() < old(self)@.remain {
                    items@.len() as int
                } else {
                    old(self)@.remain as int
                },
            ));
        }
        n
    }

    /// Commit the slots filled so far to the kernel.
    pub fn commit(&mut self)
        requires
            old(self).wf(),
        ensures
            final(self).wf(),
            old(self)@.buffers == 0 ==> final(self)@ == old(self)@ && final(self).ring()
                == old(self).ring(),
            old(self)@.buffers > 0 ==> {
                &&& final(self)@ == (ProxyState { buffers: old(self)@.remain, ..old(self)@ })
                &&& final(self).ring() == (RingState {
                    published: final(self).ring().published,
                    ..old(self).ring()
                })
                &&& final(self).ring().published == old(self).ring().published.push(
                    final(self).ring().published.last(),
                )
                &&& final(self).ring().published.last().1 == head_add(
                    final(self).ring().published.last().0,
                    (old(self)@.buffers - old(self)@.remain) as u32,
                )
            },
    {
        self.idx.commit_prod(self.queue)
    }
}

impl<'queue> Drop for WriteTx<'queue> {
    /// Unless everything is committed, roll back the cached producer head.
    fn drop(&mut self)
        opens_invariants none
        no_unwind
    {
        if self.idx.buffers != 0 {
            self.queue.cancel(self.idx.buffers)
        }
    }
}

impl<'queue> View for ReadRx<'queue> {
    type V = ProxyState;

    closed spec fn view(&self) -> ProxyState {
        self.idx.view()
    }
}

impl<'queue> ReadRx<'queue> {
    /// The ring read from.
    pub closed spec fn ring(&self) -> RingState {
        (*self.queue)@
    }

    /// The ring holds descriptors, and no more slots are left than were granted.
    pub closed spec fn wf(&self) -> bool {
        &&& self.queue.wf()
        &&& (*self.queue)@.slot_words == 2 * (*self.queue)@.size
        &&& self.idx.remain <= self.idx.buffers
    }

    /// The total number of available buffers.
    pub fn capacity(&self) -> (r: u32)
        ensures
            r == self@.buffers,
    {
        self.idx.buffers
    }

    /// Read the next received descriptor, if one is left.
    pub fn read(&mut self) -> (r: Option<XdpDesc>)
        requires
            old(self).wf(),
        ensures
            final(self).wf(),
            final(self).ring() == (RingState {
                reads: if r is Some {
                    old(self).ring().reads.push(
                        (
                            slot_of(old(self)@.base, old(self).ring().size),
                            SlotValue::Desc(r->Some_0),
                        ),
                    )
                } else {
                    old(self).ring().reads
                },
                ..old(self).ring()
            }),
            r is Some == (old(self)@.remain > 0),
            final(self)@ == (ProxyState {
                base: head_add(old(self)@.base, if r is Some {
                    1u32
                } else {
                    0u32
                }),
                remain: (old(self)@.remain - if r is Some {
                    1u32
                } else {
                    0u32
                }) as u32,
                ..old(self)@
            }),
    {
        match self.idx.next() {
            Some(bufidx) => Some(self.queue.read_desc(bufidx)),
            None => {
                proof {
                    assert(head_add(old(self)@.base, 0) == old(self)@.base);
                }
                None
            },
        }
    }

    /// Release the slots read so far to the kernel.
    pub fn release(&mut self)
        requires
            old(self).wf(),
        ensures
            final(self).wf(),
            old(self)@.buffers == 0 ==> final(self)@ == old(self)@ && final(self).ring()
                == old(self).ring(),
            old(self)@.buffers > 0 ==> {
                &&& final(self)@ == (ProxyState { buffers: old(self)@.remain, ..old(self)@ })
                &&& final(self).ring() == (RingState {
                    published: final(self).ring().published,
                    ..old(self).ring()
                })
                &&& final(self).ring().published == old(self).ring().published.push(
                    final(self).ring().published.last(),
                )
                &&& final(self).ring().published.last().1 == head_add(
                    final(self).ring().published.last().0,
                    (old(self)@.buffers - old(self)@.remain) as u32,
                )
            },
    {
        self.idx.release_cons(self.queue)
    }
}

impl<'queue> Drop for ReadRx<'queue> {
    /// Unless everything is released, roll back the cached consumer head.
    fn drop(&mut self)
        opens_invariants none
        no_unwind
    {
        if self.idx.buffers != 0 {
            self.queue.cancel(self.idx.buffers)
        }
    }
}

} // verus!
