//! A fixed ring that tracks the four most recently accepted connections.
//!
//! The hosted serial worker keeps at most four live connections. A fifth
//! accepted connection overwrites the slot of the oldest tracked one —
//! pure FIFO overwrite, never usage-based. [`ConnRing::push`] hands the
//! evicted connection back so the caller can close it.

use vstd::prelude::*;

verus! {

/// Number of connections the ring tracks.
pub const RING_SLOTS: usize = 4;

/// What one push does to the ring's slots: the slot under `next` is
/// overwritten and `next` advances by one, wrapping around.
pub open spec fn spec_ring_push<T>(slots: Seq<Option<T>>, next: int, v: T) -> (Seq<Option<T>>, int) {
    (slots.update(next, Some(v)), (next + 1) % (RING_SLOTS as int))
}

/// Which connection a push at `next` throws out.
pub open spec fn spec_ring_evicted<T>(slots: Seq<Option<T>>, next: int) -> Option<T> {
    slots[next]
}

/// The four most recently accepted connections, oldest overwritten first.
pub struct ConnRing<T> {
    slots: Vec<Option<T>>,
    next: usize,
}

impl<T> ConnRing<T> {
    pub closed spec fn wf(&self) -> bool {
        self.slots@.len() == RING_SLOTS && self.next < RING_SLOTS
    }

    /// The ring's slots, in storage order.
    pub closed spec fn view(&self) -> Seq<Option<T>> {
        self.slots@
    }

    /// The slot the next push will overwrite.
    pub closed spec fn next_slot(&self) -> int {
        self.next as int
    }

    /// An empty ring.
    pub fn new() -> (r: Self)
        ensures
            r.wf(),
            r.next_slot() == 0,
            r@ =~= seq![None::<T>, None::<T>, None::<T>, None::<T>],
    {
        let mut slots: Vec<Option<T>> = Vec::new();
        slots.push(None);
        slots.push(None);
        slots.push(None);
        slots.push(None);
        ConnRing { slots, next: 0 }
    }

    /// Track a new connection. Returns the connection it evicts, which is
    /// exactly the one pushed four pushes earlier once the ring is full.
    pub fn push(&mut self, v: T) -> (evicted: Option<T>)
        requires
            old(self).wf(),
        ensures
            final (self).wf(),
            evicted == spec_ring_evicted(old(self)@, old(self).next_slot()),
            (final (self)@, final (self).next_slot()) == spec_ring_push(
                old(self)@,
                old(self).next_slot(),
                v,
            ),
    {
        let evicted = self.slots.remove(self.next);
        self.slots.insert(self.next, Some(v));
        self.next = (self.next + 1) % RING_SLOTS;
        evicted
    }

    /// Take the connection out of slot `i`, leaving `other` in its place.
    ///
    /// The worker loop uses this to borrow one tracked connection at a
    /// time: take it out, do one read or write, put it back.
    pub fn swap_slot(&mut self, i: usize, other: Option<T>) -> (prev: Option<T>)
        requires
            old(self).wf(),
            i < RING_SLOTS,
        ensures
            final (self).wf(),
            prev == old(self)@[i as int],
            final (self)@ == old(self)@.update(i as int, other),
            final (self).next_slot() == old(self).next_slot(),
    {
        let prev = self.slots.remove(i);
        self.slots.insert(i, other);
        prev
    }

    /// How many slots the ring has.
    pub fn capacity(&self) -> (r: usize)
        requires
            self.wf(),
        ensures
            r == RING_SLOTS,
    {
        self.slots.len()
    }
}

/// Pure FIFO overwrite: whatever the ring held, pushing four connections
/// and then a fifth evicts exactly the first of the four on that fifth
/// push — never a newer one.
pub proof fn lemma_ring_fifo<T>(slots: Seq<Option<T>>, next: int, a: T, b: T, c: T, d: T)
    requires
        slots.len() == RING_SLOTS,
        0 <= next < RING_SLOTS,
    ensures
        ({
            let (s1, n1) = spec_ring_push(slots, next, a);
            let (s2, n2) = spec_ring_push(s1, n1, b);
            let (s3, n3) = spec_ring_push(s2, n2, c);
            let (s4, n4) = spec_ring_push(s3, n3, d);
            spec_ring_evicted(s4, n4) == Some(a)
        }),
{
    let (s1, n1) = spec_ring_push(slots, next, a);
    let (s2, n2) = spec_ring_push(s1, n1, b);
    let (s3, n3) = spec_ring_push(s2, n2, c);
    let (s4, n4) = spec_ring_push(s3, n3, d);
    assert(n4 == next);
    assert(n1 != next && n2 != next && n3 != next);
    assert(s4[next] == Some(a));
}

} // verus!
