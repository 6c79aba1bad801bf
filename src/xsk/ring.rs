use vstd::prelude::*;

use core::ops::RangeInclusive;
use core::sync::atomic::{AtomicU32, AtomicU64, Ordering};

use crate::xdp::XdpDesc;
use crate::xsk::{BufIdx, RingCons, RingProd, XskRing, XskRingCons, XskRingProd};

verus! {

/// Relies on `RangeInclusive::start`: the lower bound the range was made with.
pub assume_specification<Idx>[ RangeInclusive::<Idx>::start ](r: &RangeInclusive<Idx>) -> (s: &Idx)
    ensures
        *s == r@.start,
;

/// Relies on `RangeInclusive::end`: the upper bound the range was made with.
pub assume_specification<Idx>[ RangeInclusive::<Idx>::end ](r: &RangeInclusive<Idx>) -> (e: &Idx)
    ensures
        *e == r@.end,
;

/// Head values count modulo 2^32.
pub open spec fn head_add(head: u32, n: u32) -> u32 {
    ((head as int + n as int) % 0x1_0000_0000int) as u32
}

/// The distance from `from` forward to `to`, modulo 2^32.
pub open spec fn head_sub(to: u32, from: u32) -> u32 {
    ((to as int - from as int) % 0x1_0000_0000int) as u32
}

/// A positive power of two.
pub open spec fn is_pow2(n: u32) -> bool {
    n > 0 && n & ((n - 1) as u32) == 0
}

/// The slot that a head value denotes in a ring of `size` slots.
pub open spec fn slot_of(idx: u32, size: u32) -> u32 {
    idx & ((size - 1) as u32)
}

/// How many slots a reservation (or peek) of `start..=end` is granted when `free` are there.
pub open spec fn grant(free: u32, start: u32, end: u32) -> u32 {
    if free < start {
        0
    } else if free < end {
        free
    } else {
        end
    }
}

/// Every value read from the published head just before a store is what the previous store
/// left there (or, before the first store, what was first read): no one else wrote the head.
pub open spec fn single_writer(origin: u32, published: Seq<(u32, u32)>) -> bool {
    forall|i: int|
        #![trigger published[i]]
        0 <= i < published.len() ==> published[i].0 == (if i == 0 {
            origin
        } else {
            published[i - 1].1
        })
}

/// The sum of the steps by which the published head was advanced.
pub open spec fn published_total(published: Seq<(u32, u32)>) -> int
    decreases published.len(),
{
    if published.len() == 0 {
        0
    } else {
        published_total(published.drop_last()) + head_sub(
            published.last().1,
            published.last().0,
        ) as int
    }
}

/// The value of the published head after the stores, when no one else wrote it.
pub open spec fn head_after(origin: u32, published: Seq<(u32, u32)>) -> u32 {
    if published.len() == 0 {
        origin
    } else {
        published.last().1
    }
}

/// What was written into a slot.
pub enum SlotValue {
    /// A frame address, in a ring of addresses.
    Addr(u64),
    /// A descriptor, in a ring of descriptors.
    Desc(XdpDesc),
}

/// What a ring is, for its contracts.
pub struct RingState {
    /// Our copy of the producer head.
    pub cached_producer: u32,
    /// Our copy of the consumer head.
    pub cached_consumer: u32,
    /// The number of slots.
    pub size: u32,
    /// The number of 64-bit words in the slot array.
    pub slot_words: nat,
    /// The head this side publishes, as first read.
    pub origin: u32,
    /// For each release store to the head this side publishes: the value read just before, and
    /// the value stored.
    pub published: Seq<(u32, u32)>,
    /// Each slot this side wrote, with what it wrote, in order.
    pub writes: Seq<(u32, SlotValue)>,
    /// Each slot this side read, with what it read, in order.
    pub reads: Seq<(u32, SlotValue)>,
}

/// Reserving `n` slots and cancelling `n` leaves the cached producer head where it was.
pub proof fn lemma_reserve_then_cancel(head: u32, n: u32)
    ensures
        head_sub(head_add(head, n), n) == head,
{
}

/// Peeking `n` slots and cancelling `n` leaves the cached consumer head where it was.
pub proof fn lemma_peek_then_cancel(head: u32, n: u32)
    ensures
        head_sub(head_add(head, n), n) == head,
{
}

/// A reservation of `start..=end` is granted nothing, when fewer than `start` slots are free,
/// or between `start` and `end` slots, and never more than are free.
pub proof fn lemma_grant_bounds(free: u32, start: u32, end: u32)
    requires
        start <= end,
    ensures
        grant(free, start, end) == 0 && free < start || start <= grant(free, start, end) <= end
            && grant(free, start, end) <= free,
{
}

/// Every head value, also one past the wrap of the 32-bit counter, denotes a slot inside the
/// ring.
pub proof fn lemma_slot_in_range(idx: u32, size: u32)
    requires
        is_pow2(size),
    ensures
        slot_of(idx, size) < size,
{
    let m = (size - 1) as u32;
    assert(idx & m <= m) by (bit_vector);
}

/// A store that advanced the published head by `n` from `observed` is a step of `n`: with
/// [`lemma_published_heads`], the head ends up advanced by the sum of the committed counts.
pub proof fn lemma_store_step(observed: u32, n: u32)
    ensures
        head_sub(head_add(observed, n), observed) == n,
{
}

/// After a refresh, a producer ring counts no more free slots than the ring has, as long as its
/// producer head is at most a ring's worth past the consumer head it read: then a reservation,
/// which is granted at most the free count, stays within the ring.
pub proof fn lemma_refreshed_free_within_ring(consumer: u32, producer: u32, size: u32)
    requires
        head_sub(producer, consumer) <= size,
    ensures
        head_sub(head_add(consumer, size), producer) == size - head_sub(producer, consumer),
        head_sub(head_add(consumer, size), producer) <= size,
{
}

/// The slots of fewer than `size` consecutive head values are pairwise distinct, also across
/// the wrap of the 32-bit counter.
pub proof fn lemma_slots_distinct(base: u32, j: u32, k: u32, size: u32)
    requires
        is_pow2(size),
        j < k < size,
    ensures
        slot_of(head_add(base, j), size) != slot_of(head_add(base, k), size),
{
    let a = head_add(base, j);
    let b = head_add(base, k);
    let d = (k - j) as u32;
    let m = (size - 1) as u32;
    let wrap = 0x1_0000_0000int;
    assert(b as int == (a as int + d as int) % wrap) by {
        vstd::arithmetic::div_mod::lemma_add_mod_noop(base as int + j as int, d as int, wrap);
        vstd::arithmetic::div_mod::lemma_small_mod(d as nat, 0x1_0000_0000nat);
    }
    let x: u64 = (a as int + d as int) as u64;
    assert(x & 0xffff_ffffu64 == x % 0x1_0000_0000u64) by (bit_vector);
    assert(b as u64 == x & 0xffff_ffffu64);
    assert((a & m) != (b & m)) by (bit_vector)
        requires
            b as u64 == x & 0xffff_ffffu64,
            x == (a as u64) + (d as u64),
            size & m == 0,
            m == vstd::prelude::sub(size, 1u32),
            size > 0,
            d > 0,
            d < size,
    ;
}

/// When only this side writes the head it publishes, the head ends up advanced from where it
/// started by the sum of all submitted counts, modulo 2^32.
#[verifier::rlimit(40)]
pub proof fn lemma_published_heads(origin: u32, published: Seq<(u32, u32)>)
    requires
        single_writer(origin, published),
    ensures
        head_after(origin, published) as int == (origin as int + published_total(published))
            % 0x1_0000_0000int,
    decreases published.len(),
{
    if published.len() > 0 {
        let rest = published.drop_last();
        assert forall|i: int| 0 <= i < rest.len() implies #[trigger] rest[i].0 == (if i == 0 {
            origin
        } else {
            rest[i - 1].1
        }) by {
            assert(rest[i] == published[i]);
            if i > 0 {
                assert(rest[i - 1] == published[i - 1]);
            }
        }
        lemma_published_heads(origin, rest);
        let last = published.last();
        assert(last == published[published.len() - 1]);
        assert(last.0 == head_after(origin, rest)) by {
            if rest.len() > 0 {
                assert(rest.last() == published[published.len() - 2]);
            }
        }
        lemma_mod_step(origin as int + published_total(rest), last.0, last.1);
    }
}

/// Advancing a head value by the distance to a target lands on the target.
proof fn lemma_mod_step(a: int, b: u32, c: u32)
    requires
        b as int == a % 0x1_0000_0000int,
    ensures
        (a + head_sub(c, b) as int) % 0x1_0000_0000int == c as int,
{
    let m = 0x1_0000_0000int;
    let d = c as int - b as int;
    assert(head_sub(c, b) as int == d % m);
    vstd::arithmetic::div_mod::lemma_add_mod_noop(a, d % m, m);
    vstd::arithmetic::div_mod::lemma_mod_twice(d, m);
    vstd::arithmetic::div_mod::lemma_add_mod_noop(b as int, d, m);
    vstd::arithmetic::div_mod::lemma_small_mod(b as nat, m as nat);
    vstd::arithmetic::div_mod::lemma_small_mod(c as nat, m as nat);
}

/// Move a head value back by `n`, modulo 2^32, without calling anything that could unwind.
fn rewind(head: u32, n: u32) -> (r: u32)
    ensures
        r == head_sub(head, n),
    opens_invariants none
    no_unwind
{
    if n <= head {
        head - n
    } else {
        head + (u32::MAX - n) + 1
    }
}

/// How far the head value `ahead` is past the head value `behind`, modulo 2^32.
pub fn heads_between(ahead: u32, behind: u32) -> (r: u32)
    ensures
        r == head_sub(ahead, behind),
{
    ahead.wrapping_sub(behind)
}

/// The slot of a head value in a ring whose mask is `mask`.
fn slot(idx: u32, mask: u32) -> (r: usize)
    ensures
        r == idx & mask,
        r <= mask,
{
    assert(idx & mask <= mask) by (bit_vector);
    (idx & mask) as usize
}

impl XskRing {
    /// Offset in the socket's mapping of the receive ring.
    pub const XDP_PGOFF_RX_RING: u64 = 0;
    /// Offset in the socket's mapping of the transmit ring.
    pub const XDP_PGOFF_TX_RING: u64 = 0x80000000;
    /// Offset in the socket's mapping of the fill ring.
    pub const XDP_UMEM_PGOFF_FILL_RING: u64 = 0x100000000;
    /// Offset in the socket's mapping of the completion ring.
    pub const XDP_UMEM_PGOFF_COMPLETION_RING: u64 = 0x180000000;

    /// Construct a ring over the mapped words of one kernel ring with `count` slots.
    ///
    /// The cached heads start from a relaxed read of the shared heads.
    pub fn new(
        producer: &'static AtomicU32,
        consumer: &'static AtomicU32,
        flags: &'static AtomicU32,
        slots: &'static [AtomicU64],
        count: u32,
    ) -> (r: XskRing)
        requires
            is_pow2(count),
            slots@.len() == count || slots@.len() == 2 * count,
        ensures
            r.wf(),
            r.spec_size() == count,
            r.spec_slot_words() == slots@.len(),
    {
        let cached_producer = producer.load(Ordering::Relaxed);
        let cached_consumer = consumer.load(Ordering::Relaxed);
        Self::with_heads(producer, consumer, flags, slots, count, cached_producer, cached_consumer)
    }

    /// Construct a ring over the mapped words of one kernel ring with `count` slots, whose
    /// cached heads start at `cached_producer` and `cached_consumer`.
    pub fn with_heads(
        producer: &'static AtomicU32,
        consumer: &'static AtomicU32,
        flags: &'static AtomicU32,
        slots: &'static [AtomicU64],
        count: u32,
        cached_producer: u32,
        cached_consumer: u32,
    ) -> (r: XskRing)
        requires
            is_pow2(count),
            slots@.len() == count || slots@.len() == 2 * count,
        ensures
            r.wf(),
            r.spec_size() == count,
            r.spec_slot_words() == slots@.len(),
            r.spec_cached_producer() == cached_producer,
            r.spec_cached_consumer() == cached_consumer,
    {
        XskRing {
            cached_producer,
            cached_consumer,
            mask: count - 1,
            size: count,
            producer,
            consumer,
            flags,
            slots,
        }
    }

    /// Whether a flags word asks us to wake the kernel up.
    pub fn wakeup_flag(flags: u32) -> (r: bool)
        ensures
            r == (flags & Self::XDP_RING_NEED_WAKEUP != 0),
    {
        flags & Self::XDP_RING_NEED_WAKEUP != 0
    }

    /// The flag bit that asks user space to wake the kernel up.
    pub const XDP_RING_NEED_WAKEUP: u32 = 1;

    /// Read the flags word.
    pub fn check_flags(&self) -> u32 {
        self.flags.load(Ordering::Relaxed)
    }
}

impl XskRingProd {
    /// Take a ring to produce into: we publish its producer head.
    pub fn new(inner: XskRing) -> (r: RingProd)
        requires
            inner.wf(),
        ensures
            r.wf(),
            r@.size == inner.spec_size(),
            r@.slot_words == inner.spec_slot_words(),
            r@.origin == inner.spec_cached_producer(),
            r@.cached_producer == inner.spec_cached_producer(),
            r@.cached_consumer == inner.spec_cached_consumer(),
            r@.published == Seq::<(u32, u32)>::empty(),
            r@.writes == Seq::<(u32, SlotValue)>::empty(),
            r@.reads == Seq::<(u32, SlotValue)>::empty(),
    {
        let ghost origin = inner.cached_producer;
        RingProd {
            inner,
            origin: Ghost(origin),
            published: Ghost(Seq::empty()),
            writes: Ghost(Seq::empty()),
        }
    }

    /// Write a frame address into the slot of `idx`, in a ring of address slots.
    pub fn write_addr(&mut self, idx: BufIdx, addr: u64)
        requires
            old(self).wf(),
            old(self)@.slot_words == old(self)@.size,
        ensures
            final(self).wf(),
            final(self)@ == (RingState {
                writes: old(self)@.writes.push(
                    (slot_of(idx.0, old(self)@.size), SlotValue::Addr(addr)),
                ),
                ..old(self)@
            }),
    {
        let s = slot(idx.0, self.inner.mask);
        self.inner.slots[s].store(addr, Ordering::Relaxed);
        proof {
            let ghost written = (slot_of(idx.0, self.inner.size), SlotValue::Addr(addr));
            self.writes = Ghost(self.writes@.push(written));
        }
    }

    /// Write a descriptor into the slot of `idx`, in a ring of descriptor slots.
    pub fn write_desc(&mut self, idx: BufIdx, desc: XdpDesc)
        requires
            old(self).wf(),
            old(self)@.slot_words == 2 * old(self)@.size,
        ensures
            final(self).wf(),
            final(self)@ == (RingState {
                writes: old(self)@.writes.push(
                    (slot_of(idx.0, old(self)@.size), SlotValue::Desc(desc)),
                ),
                ..old(self)@
            }),
    {
        let s = slot(idx.0, self.inner.mask);
        let words = self.inner.slots.len();
        assert(2 * s + 1 < words);
        self.inner.slots[2 * s].store(desc.addr, Ordering::Relaxed);
        self.inner.slots[2 * s + 1].store(desc.tail_word(), Ordering::Relaxed);
        proof {
            let ghost written = (slot_of(idx.0, self.inner.size), SlotValue::Desc(desc));
            self.writes = Ghost(self.writes@.push(written));
        }
    }

    /// Refresh the cached consumer head from a value of the shared consumer head, then count
    /// the free slots.
    ///
    /// The cached consumer is advanced by the ring size past the shared value: with masked
    /// indices this names the same slot, and the subtraction below counts every slot that the
    /// kernel has released, up to the whole ring.
    pub fn refresh_free(&mut self, consumer: u32) -> (r: u32)
        ensures
            final(self)@ == (RingState {
                cached_consumer: head_add(consumer, old(self)@.size),
                ..old(self)@
            }),
            r == head_sub(final(self)@.cached_consumer, old(self)@.cached_producer),
            final(self).wf() == old(self).wf(),
    {
        self.inner.cached_consumer = consumer.wrapping_add(self.inner.size);
        self.inner.cached_consumer.wrapping_sub(self.inner.cached_producer)
    }

    /// Query for at least `minimum` free entries.
    ///
    /// Serves small requests from the cached consumer head. When that shows fewer than
    /// `minimum`, the consumer head is read again (acquire) and the count recomputed.
    pub fn count_free(&mut self, minimum: u32) -> (r: u32)
        ensures
            final(self)@ == (RingState {
                cached_consumer: final(self)@.cached_consumer,
                ..old(self)@
            }),
            final(self).wf() == old(self).wf(),
            r == head_sub(final(self)@.cached_consumer, old(self)@.cached_producer),
            head_sub(old(self)@.cached_consumer, old(self)@.cached_producer) >= minimum
                ==> final(self)@ == old(self)@,
    {
        let free_entries = self.inner.cached_consumer.wrapping_sub(self.inner.cached_producer);
        if free_entries >= minimum {
            return free_entries;
        }
        let consumer = self.inner.consumer.load(Ordering::Acquire);
        self.refresh_free(consumer)
    }

    /// Reserve between `nb.start()` and `nb.end()` slots, not submitting them yet.
    ///
    /// Writes the index of the first reserved slot into `idx` and returns the number reserved:
    /// nothing when fewer than `nb.start()` are free (and `idx` stays as it was).
    pub fn reserve(&mut self, nb: RangeInclusive<u32>, idx: &mut BufIdx) -> (r: u32)
        ensures
            final(self)@ == (RingState {
                cached_producer: final(self)@.cached_producer,
                cached_consumer: final(self)@.cached_consumer,
                ..old(self)@
            }),
            final(self).wf() == old(self).wf(),
            head_sub(old(self)@.cached_consumer, old(self)@.cached_producer) >= nb@.start
                ==> final(self)@.cached_consumer == old(self)@.cached_consumer,
            r == grant(
                head_sub(final(self)@.cached_consumer, old(self)@.cached_producer),
                nb@.start,
                nb@.end,
            ),
            final(self)@.cached_producer == head_add(old(self)@.cached_producer, r),
            r == 0 && head_sub(final(self)@.cached_consumer, old(self)@.cached_producer)
                < nb@.start ==> *final(idx) == *old(idx),
            r > 0 || head_sub(final(self)@.cached_consumer, old(self)@.cached_producer)
                >= nb@.start ==> final(idx).0 == old(self)@.cached_producer,
    {
        let start = *nb.start();
        let end = *nb.end();
        let free = self.count_free(start);
        if free < start {
            return 0;
        }
        let free = if free < end {
            free
        } else {
            end
        };
        *idx = BufIdx(self.inner.cached_producer);
        self.inner.cached_producer = self.inner.cached_producer.wrapping_add(free);
        free
    }

    /// Cancel a previous `reserve`.
    ///
    /// If passed a smaller number, the remaining reservation stays active.
    pub fn cancel(&mut self, nb: u32)
        ensures
            final(self)@ == (RingState {
                cached_producer: head_sub(old(self)@.cached_producer, nb),
                ..old(self)@
            }),
            final(self).wf() == old(self).wf(),
        opens_invariants none
        no_unwind
    {
        self.inner.cached_producer = rewind(self.inner.cached_producer, nb);
    }

    /// Submit a number of buffers: one release store of the producer head, advanced by `nb`.
    ///
    /// The cached heads are not adjusted; `reserve` has advanced the cached producer already.
    pub fn submit(&mut self, nb: u32)
        ensures
            final(self)@ == (RingState { published: final(self)@.published, ..old(self)@ }),
            final(self).wf() == old(self).wf(),
            final(self)@.published.len() == old(self)@.published.len() + 1,
            final(self)@.published.drop_last() == old(self)@.published,
            final(self)@.published.last().1 == head_add(final(self)@.published.last().0, nb),
    {
        // We are the only writer, all other writes are ordered before.
        let cur = self.inner.producer.load(Ordering::Relaxed);
        let next = cur.wrapping_add(nb);
        // When the kernel reads it, all writes to slots are ordered before this write.
        self.inner.producer.store(next, Ordering::Release);
        proof {
            let ghost before = self.published@;
            self.published = Ghost(before.push((cur, next)));
            assert(self.published@.drop_last() =~= before);
        }
    }

    /// The number of slots submitted that the kernel has not consumed yet.
    pub fn count_pending(&self) -> u32 {
        let committed = self.inner.producer.load(Ordering::Relaxed);
        let consumed = self.inner.consumer.load(Ordering::Relaxed);
        heads_between(committed, consumed)
    }

    /// Whether the kernel asks to be woken up.
    pub fn needs_wakeup(&self) -> bool {
        XskRing::wakeup_flag(self.inner.check_flags())
    }
}

impl XskRingCons {
    /// Take a ring to consume from: we publish its consumer head.
    pub fn new(inner: XskRing) -> (r: RingCons)
        requires
            inner.wf(),
        ensures
            r.wf(),
            r@.size == inner.spec_size(),
            r@.slot_words == inner.spec_slot_words(),
            r@.origin == inner.spec_cached_consumer(),
            r@.cached_producer == inner.spec_cached_producer(),
            r@.cached_consumer == inner.spec_cached_consumer(),
            r@.published == Seq::<(u32, u32)>::empty(),
            r@.writes == Seq::<(u32, SlotValue)>::empty(),
            r@.reads == Seq::<(u32, SlotValue)>::empty(),
    {
        let ghost origin = inner.cached_consumer;
        RingCons {
            inner,
            origin: Ghost(origin),
            published: Ghost(Seq::empty()),
            reads: Ghost(Seq::empty()),
        }
    }

    /// Read the frame address in the slot of `idx`, in a ring of address slots.
    pub fn read_addr(&mut self, idx: BufIdx) -> (r: u64)
        requires
            old(self).wf(),
            old(self)@.slot_words == old(self)@.size,
        ensures
            final(self).wf(),
            final(self)@ == (RingState {
                reads: old(self)@.reads.push(
                    (slot_of(idx.0, old(self)@.size), SlotValue::Addr(r)),
                ),
                ..old(self)@
            }),
    {
        let s = slot(idx.0, self.inner.mask);
        let r = self.inner.slots[s].load(Ordering::Relaxed);
        proof {
            let ghost read = (slot_of(idx.0, self.inner.size), SlotValue::Addr(r));
            self.reads = Ghost(self.reads@.push(read));
        }
        r
    }

    /// Read the descriptor in the slot of `idx`, in a ring of descriptor slots.
    pub fn read_desc(&mut self, idx: BufIdx) -> (r: XdpDesc)
        requires
            old(self).wf(),
            old(self)@.slot_words == 2 * old(self)@.size,
        ensures
            final(self).wf(),
            final(self)@ == (RingState {
                reads: old(self)@.reads.push(
                    (slot_of(idx.0, old(self)@.size), SlotValue::Desc(r)),
                ),
                ..old(self)@
            }),
    {
        let s = slot(idx.0, self.inner.mask);
        let words = self.inner.slots.len();
        assert(2 * s + 1 < words);
        let addr = self.inner.slots[2 * s].load(Ordering::Relaxed);
        let tail = self.inner.slots[2 * s + 1].load(Ordering::Relaxed);
        let r = XdpDesc::from_words(addr, tail);
        proof {
            let ghost read = (slot_of(idx.0, self.inner.size), SlotValue::Desc(r));
            self.reads = Ghost(self.reads@.push(read));
        }
        r
    }

    /// Refresh the cached producer head from a value of the shared producer head, then count
    /// the available slots.
    pub fn refresh_available(&mut self, producer: u32) -> (r: u32)
        ensures
            final(self)@ == (RingState { cached_producer: producer, ..old(self)@ }),
            r == head_sub(producer, old(self)@.cached_consumer),
            final(self).wf() == old(self).wf(),
    {
        self.inner.cached_producer = producer;
        producer.wrapping_sub(self.inner.cached_consumer)
    }

    /// Find the number of available entries.
    ///
    /// Any count lower than `expected` reads the producer head again (acquire).
    pub fn count_available(&mut self, expected: u32) -> (r: u32)
        ensures
            final(self)@ == (RingState {
                cached_producer: final(self)@.cached_producer,
                ..old(self)@
            }),
            final(self).wf() == old(self).wf(),
            r == head_sub(final(self)@.cached_producer, old(self)@.cached_consumer),
            head_sub(old(self)@.cached_producer, old(self)@.cached_consumer) >= expected
                ==> final(self)@ == old(self)@,
    {
        let available = self.inner.cached_producer.wrapping_sub(self.inner.cached_consumer);
        if available >= expected {
            return available;
        }
        let producer = self.inner.producer.load(Ordering::Acquire);
        self.refresh_available(producer)
    }

    /// Peek between `nb.start()` and `nb.end()` filled slots, not releasing them yet.
    ///
    /// Writes the index of the first peeked slot into `idx` and returns the number peeked:
    /// nothing when fewer than `nb.start()` are available (and `idx` stays as it was).
    pub fn peek(&mut self, nb: RangeInclusive<u32>, idx: &mut BufIdx) -> (r: u32)
        ensures
            final(self)@ == (RingState {
                cached_producer: final(self)@.cached_producer,
                cached_consumer: final(self)@.cached_consumer,
                ..old(self)@
            }),
            final(self).wf() == old(self).wf(),
            head_sub(old(self)@.cached_producer, old(self)@.cached_consumer) >= nb@.start
                ==> final(self)@.cached_producer == old(self)@.cached_producer,
            r == grant(
                head_sub(final(self)@.cached_producer, old(self)@.cached_consumer),
                nb@.start,
                nb@.end,
            ),
            final(self)@.cached_consumer == head_add(old(self)@.cached_consumer, r),
            r == 0 && head_sub(final(self)@.cached_producer, old(self)@.cached_consumer)
                < nb@.start ==> *final(idx) == *old(idx),
            r > 0 || head_sub(final(self)@.cached_producer, old(self)@.cached_consumer)
                >= nb@.start ==> final(idx).0 == old(self)@.cached_consumer,
    {
        let start = *nb.start();
        let end = *nb.end();
        let count = self.count_available(start);
        if count < start {
            return 0;
        }
        let count = if count < end {
            count
        } else {
            end
        };
        *idx = BufIdx(self.inner.cached_consumer);
        self.inner.cached_consumer = self.inner.cached_consumer.wrapping_add(count);
        count
    }

    /// Cancel a previous `peek`.
    ///
    /// If passed a smaller number, the remaining slots stay peeked.
    pub fn cancel(&mut self, nb: u32)
        ensures
            final(self)@ == (RingState {
                cached_consumer: head_sub(old(self)@.cached_consumer, nb),
                ..old(self)@
            }),
            final(self).wf() == old(self).wf(),
        opens_invariants none
        no_unwind
    {
        self.inner.cached_consumer = rewind(self.inner.cached_consumer, nb);
    }

    /// Mark some slots as processed: one release store of the consumer head, advanced by `nb`.
    pub fn release(&mut self, nb: u32)
        ensures
            final(self)@ == (RingState { published: final(self)@.published, ..old(self)@ }),
            final(self).wf() == old(self).wf(),
            final(self)@.published.len() == old(self)@.published.len() + 1,
            final(self)@.published.drop_last() == old(self)@.published,
            final(self)@.published.last().1 == head_add(final(self)@.published.last().0, nb),
    {
        // We are the only writer, all other writes are ordered before.
        let cur = self.inner.consumer.load(Ordering::Relaxed);
        let next = cur.wrapping_add(nb);
        // All our reads from slots are ordered before this write.
        self.inner.consumer.store(next, Ordering::Release);
        proof {
            let ghost before = self.published@;
            self.published = Ghost(before.push((cur, next)));
            assert(self.published@.drop_last() =~= before);
        }
    }

    /// The number of slots the kernel has produced that we have not released yet.
    pub fn count_pending(&self) -> u32 {
        let available = self.inner.producer.load(Ordering::Relaxed);
        let consumed = self.inner.consumer.load(Ordering::Relaxed);
        heads_between(available, consumed)
    }
}

} // verus!
