use std::sync::atomic::{AtomicU32, AtomicU64, Ordering};

use xdpilone::xdp::XdpDesc;
use xdpilone::{heads_between, BufIdx, RingCons, RingProd, RingTx, XskRing};

fn word(v: u32) -> &'static AtomicU32 {
    Box::leak(Box::new(AtomicU32::new(v)))
}

fn slots(n: usize) -> &'static [AtomicU64] {
    let v: Vec<AtomicU64> = (0..n).map(|_| AtomicU64::new(0)).collect();
    Box::leak(v.into_boxed_slice())
}

/// A producer ring whose shared heads both start at `head`.
fn producer(head: u32, size: u32) -> (RingProd, &'static AtomicU32, &'static AtomicU32) {
    let prod = word(head);
    let cons = word(head);
    let ring = RingProd::new(XskRing::new(prod, cons, word(0), slots(size as usize), size));
    (ring, prod, cons)
}

#[test]
fn reserve_then_cancel_restores_producer() {
    let (mut ring, prod, _) = producer(0, 16);
    let mut idx = BufIdx(0);
    let got = ring.reserve(1..=4, &mut idx);
    assert_eq!(got, 4);
    assert_eq!(idx.0, 0);
    ring.cancel(4);
    // The whole ring is free again, from the same head.
    let got = ring.reserve(1..=16, &mut idx);
    assert_eq!(got, 16);
    assert_eq!(idx.0, 0);
    assert_eq!(prod.load(Ordering::Relaxed), 0);
}

#[test]
fn peek_then_cancel_restores_consumer() {
    let prod = word(100);
    let cons = word(100);
    let mut ring = RingCons::new(XskRing::new(prod, cons, word(0), slots(8), 8));
    // The kernel produced five entries.
    prod.store(105, Ordering::Release);
    let mut idx = BufIdx(0);
    assert_eq!(ring.peek(1..=3, &mut idx), 3);
    assert_eq!(idx.0, 100);
    ring.cancel(3);
    assert_eq!(ring.peek(1..=8, &mut idx), 5);
    assert_eq!(idx.0, 100);
    assert_eq!(cons.load(Ordering::Relaxed), 100);
}

#[test]
fn submit_stores_previous_head_plus_count() {
    let (mut ring, prod, _) = producer(5, 16);
    let mut idx = BufIdx(0);
    assert_eq!(ring.reserve(3..=3, &mut idx), 3);
    // Reserving publishes nothing.
    assert_eq!(prod.load(Ordering::Relaxed), 5);
    ring.submit(3);
    assert_eq!(prod.load(Ordering::Relaxed), 8);
}

#[test]
fn release_stores_previous_head_plus_count() {
    let prod = word(7);
    let cons = word(7);
    let mut ring = RingCons::new(XskRing::new(prod, cons, word(0), slots(4), 4));
    prod.store(10, Ordering::Release);
    let mut idx = BufIdx(0);
    assert_eq!(ring.peek(1..=4, &mut idx), 3);
    assert_eq!(cons.load(Ordering::Relaxed), 7);
    ring.release(2);
    assert_eq!(cons.load(Ordering::Relaxed), 9);
}

#[test]
fn commits_accumulate_in_producer_head() {
    let prod = word(1000);
    let cons = word(1000);
    let inner = XskRing::new(prod, cons, word(0), slots(2 * 64), 64);
    let mut tx = RingTx::new(RingProd::new(inner), 3);
    let desc = XdpDesc { addr: 0, len: 42, options: 0 };
    let mut total = 0;
    for n in [5u32, 1, 17, 9] {
        let mut w = tx.transmit(n);
        assert_eq!(w.capacity(), n);
        for _ in 0..n {
            assert_eq!(w.insert_once(desc), 1);
        }
        w.commit();
        total += n;
        // The kernel consumes everything.
        cons.store(prod.load(Ordering::Relaxed), Ordering::Release);
    }
    assert_eq!(total, 32);
    assert_eq!(prod.load(Ordering::Relaxed), 1000 + total);
}

#[test]
fn reserve_more_than_free() {
    let (mut ring, _, _) = producer(0, 16);
    let mut idx = BufIdx(77);
    // Only 16 slots exist: a minimum of 20 cannot be met.
    assert_eq!(ring.reserve(20..=30, &mut idx), 0);
    assert_eq!(idx.0, 77);
    // A minimum that can be met is granted up to what is free.
    assert_eq!(ring.reserve(4..=30, &mut idx), 16);
    assert_eq!(idx.0, 0);
    assert_eq!(ring.reserve(1..=1, &mut idx), 0);
}

#[test]
fn count_free_refreshes_only_when_short() {
    let (mut ring, _, cons) = producer(0, 8);
    let mut idx = BufIdx(0);
    assert_eq!(ring.reserve(8..=8, &mut idx), 8);
    assert_eq!(ring.count_free(0), 0);
    // The kernel consumed three entries.
    cons.store(3, Ordering::Release);
    assert_eq!(ring.count_free(1), 3);
}

#[test]
fn partial_reserve_on_tx_ring() {
    let prod = word(0);
    let cons = word(0);
    let mut ring = RingProd::new(XskRing::new(prod, cons, word(0), slots(2 * 4096), 4096));
    let mut idx = BufIdx(0);
    // 3000 slots reserved and not committed.
    assert_eq!(ring.reserve(3000..=3000, &mut idx), 3000);
    let got = ring.reserve(1..=2000, &mut idx);
    assert!(got <= 1096);
    assert_eq!(got, 1096);
    assert_eq!(idx.0, 3000);
    ring.cancel(got);
    assert_eq!(ring.reserve(2000..=2000, &mut idx), 0);
    assert_eq!(prod.load(Ordering::Relaxed), 0);
}

#[test]
fn dropped_transmit_gives_slots_back() {
    let prod = word(0);
    let cons = word(0);
    let inner = XskRing::new(prod, cons, word(0), slots(2 * 8), 8);
    let mut tx = RingTx::new(RingProd::new(inner), 3);
    {
        let mut w = tx.transmit(6);
        assert_eq!(w.capacity(), 6);
        assert_eq!(w.insert(&[XdpDesc { addr: 0, len: 1, options: 0 }; 2]), 2);
    }
    // Nothing was committed, and all eight slots can be had again.
    let w = tx.transmit(8);
    assert_eq!(w.capacity(), 8);
    drop(w);
    assert_eq!(prod.load(Ordering::Relaxed), 0);
}

#[test]
fn wrap_around_slots_and_heads() {
    let prod = word(0xFFFF_FFF0);
    let cons = word(0xFFFF_FFF0);
    let words = slots(16);
    let mut ring = RingProd::new(XskRing::new(prod, cons, word(0), words, 16));
    let mut written = 0u64;
    for _ in 0..2 {
        let mut idx = BufIdx(0);
        let got = ring.reserve(16..=16, &mut idx);
        assert_eq!(got, 16);
        for k in 0..got {
            let at = BufIdx(idx.0.wrapping_add(k));
            ring.write_addr(at, written);
            // The slot is the head value masked to the ring.
            let slot = (at.0 & 15) as usize;
            assert!(slot < 16);
            assert_eq!(words[slot].load(Ordering::Relaxed), written);
            written += 1;
        }
        ring.submit(got);
        // The kernel consumes everything.
        cons.store(prod.load(Ordering::Relaxed), Ordering::Release);
    }
    assert_eq!(written, 32);
    assert_eq!(prod.load(Ordering::Relaxed), 0x0000_0010);
    // The second round landed on the slots of the first, in the same order.
    for s in 0..16usize {
        assert_eq!(words[s].load(Ordering::Relaxed), 16 + s as u64);
    }
}

#[test]
fn reserve_across_head_max_value() {
    let (mut ring, _, _) = producer(0xFFFF_FFFF, 8);
    let mut idx = BufIdx(0);
    assert_eq!(ring.reserve(1..=4, &mut idx), 4);
    assert_eq!(idx.0, 0xFFFF_FFFF);
    let slots_seen: Vec<u32> = (0..4u32).map(|k| idx.0.wrapping_add(k) & 7).collect();
    assert_eq!(slots_seen, vec![7, 0, 1, 2]);
    ring.submit(4);
    let mut next = BufIdx(0);
    assert_eq!(ring.reserve(1..=1, &mut next), 1);
    assert_eq!(next.0, 3);
}

#[test]
fn descriptors_read_back_as_written() {
    let prod = word(0);
    let cons = word(0);
    let words = slots(2 * 4);
    let mut tx = RingProd::new(XskRing::new(prod, cons, word(0), words, 4));
    let mut rx = RingCons::new(XskRing::new(prod, cons, word(0), words, 4));
    let desc = XdpDesc { addr: 0x1234_5678_9abc, len: 42, options: 0xdead_beef };
    let mut idx = BufIdx(0);
    assert_eq!(tx.reserve(1..=1, &mut idx), 1);
    tx.write_desc(idx, desc);
    tx.submit(1);
    let mut at = BufIdx(0);
    assert_eq!(rx.peek(1..=1, &mut at), 1);
    assert_eq!(rx.read_desc(at), desc);
}

#[test]
fn needs_wakeup_reads_the_flag_bit() {
    let flags = word(0);
    let ring = RingProd::new(XskRing::new(word(0), word(0), flags, slots(4), 4));
    assert!(!ring.needs_wakeup());
    flags.store(1, Ordering::Relaxed);
    assert!(ring.needs_wakeup());
    flags.store(2, Ordering::Relaxed);
    assert!(!ring.needs_wakeup());
    assert!(XskRing::wakeup_flag(3));
}

#[test]
fn pending_counts_submitted_not_consumed() {
    let (mut ring, _, cons) = producer(10, 8);
    let mut idx = BufIdx(0);
    assert_eq!(ring.reserve(1..=5, &mut idx), 5);
    ring.submit(5);
    assert_eq!(ring.count_pending(), 5);
    cons.store(12, Ordering::Release);
    assert_eq!(ring.count_pending(), 3);
}

#[test]
fn distance_between_heads_wraps() {
    assert_eq!(heads_between(3, 0xFFFF_FFFE), 5);
    assert_eq!(heads_between(10, 4), 6);
    assert_eq!(heads_between(4, 4), 0);
}

#[test]
fn seeded_producer_wraps_to_sixteen() {
    let prod = word(0xFFFF_FFF0);
    let cons = word(0xFFFF_FFF0);
    let words = slots(16);
    let inner = XskRing::with_heads(prod, cons, word(0), words, 16, 0xFFFF_FFF0, 0xFFFF_FFF0);
    let mut ring = RingProd::new(inner);
    let mut seen = Vec::new();
    for _ in 0..2 {
        let mut idx = BufIdx(0);
        assert_eq!(ring.reserve(1..=32, &mut idx), 16);
        for k in 0..16u32 {
            seen.push(idx.0.wrapping_add(k) & 15);
        }
        ring.submit(16);
        cons.store(prod.load(Ordering::Relaxed), Ordering::Release);
    }
    assert_eq!(prod.load(Ordering::Relaxed), 0x0000_0010);
    let first: Vec<u32> = (0..16).collect();
    assert_eq!(&seen[..16], &first[..]);
    assert_eq!(&seen[16..], &first[..]);
}

#[test]
fn reads_come_from_consecutive_slots() {
    let prod = word(6);
    let cons = word(6);
    let words = slots(4);
    let mut ring = RingCons::new(XskRing::new(prod, cons, word(0), words, 4));
    for (i, w) in words.iter().enumerate() {
        w.store(100 + i as u64, Ordering::Relaxed);
    }
    prod.store(9, Ordering::Release);
    let mut idx = BufIdx(0);
    assert_eq!(ring.peek(1..=4, &mut idx), 3);
    let got: Vec<u64> = (0..3).map(|k| ring.read_addr(BufIdx(idx.0 + k))).collect();
    assert_eq!(got, vec![102, 103, 100]);
}
