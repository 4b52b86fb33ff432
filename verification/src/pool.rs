//! The fixed pool of HTTP worker slots, all competing to accept on one
//! listening port. The pool itself is the backpressure mechanism: once all
//! slots serve connections, further attempts queue at the transport layer —
//! none is rejected or dropped — until a slot frees and accepts one.

use vstd::prelude::*;

verus! {

/// How many of the slots are occupied.
pub open spec fn busy_count(slots: Seq<bool>) -> int
    decreases slots.len(),
{
    if slots.len() == 0 {
        0
    } else {
        busy_count(slots.drop_last()) + (if slots.last() {
            1int
        } else {
            0int
        })
    }
}

/// The occupied slots are never fewer than none nor more than all.
pub proof fn lemma_busy_count_bounds(slots: Seq<bool>)
    ensures
        0 <= busy_count(slots) <= slots.len(),
    decreases slots.len(),
{
    if slots.len() > 0 {
        lemma_busy_count_bounds(slots.drop_last());
    }
}

/// A free slot keeps the count strictly below the slot number.
pub proof fn lemma_free_slot_below_capacity(slots: Seq<bool>, k: int)
    requires
        0 <= k < slots.len(),
        !slots[k],
    ensures
        busy_count(slots) < slots.len(),
    decreases slots.len(),
{
    if k == slots.len() - 1 {
        lemma_busy_count_bounds(slots.drop_last());
    } else {
        lemma_free_slot_below_capacity(slots.drop_last(), k);
    }
}

/// Appending a slot adds its own occupancy to the count.
pub proof fn lemma_busy_count_push(slots: Seq<bool>, b: bool)
    ensures
        busy_count(slots.push(b)) == busy_count(slots) + (if b {
            1int
        } else {
            0int
        }),
{
    assert(slots.push(b).drop_last() =~= slots);
}

/// Rewriting one slot changes the count by exactly that slot's change.
pub proof fn lemma_busy_count_update(slots: Seq<bool>, k: int, b: bool)
    requires
        0 <= k < slots.len(),
    ensures
        busy_count(slots.update(k, b)) == busy_count(slots) - (if slots[k] {
            1int
        } else {
            0int
        }) + (if b {
            1int
        } else {
            0int
        }),
    decreases slots.len(),
{
    let updated = slots.update(k, b);
    if k == slots.len() - 1 {
        assert(updated.drop_last() =~= slots.drop_last());
    } else {
        assert(updated.drop_last() =~= slots.drop_last().update(k, b));
        lemma_busy_count_update(slots.drop_last(), k, b);
    }
}

/// Occupancy and queue after one connection attempt: a free slot accepts it
/// at once, a full pool leaves it queued at the transport layer.
pub open spec fn spec_arrive(capacity: int, busy: int, waiting: int) -> (int, int) {
    if busy < capacity {
        (busy + 1, waiting)
    } else {
        (busy, waiting + 1)
    }
}

/// Occupancy and queue after one connection finishes on its slot: the freed
/// slot at once accepts a queued attempt if one is pending, else it goes
/// free.
pub open spec fn spec_complete(busy: int, waiting: int) -> (int, int) {
    if waiting > 0 {
        (busy, waiting - 1)
    } else {
        (busy - 1, waiting)
    }
}

/// Occupancy and queue after `k` connection attempts in a row.
pub open spec fn spec_arrivals(capacity: int, busy: int, waiting: int, k: nat) -> (int, int)
    decreases k,
{
    if k == 0 {
        (busy, waiting)
    } else {
        let prior = spec_arrivals(capacity, busy, waiting, (k - 1) as nat);
        spec_arrive(capacity, prior.0, prior.1)
    }
}

/// The fixed pool: one occupancy flag per worker slot, and the number of
/// connection attempts queued at the transport layer because every slot was
/// taken when they arrived.
pub struct WorkerPool {
    slots: Vec<bool>,
    waiting: usize,
}

impl WorkerPool {
    /// The number of worker slots, fixed at creation.
    pub closed spec fn capacity(self) -> int {
        self.slots@.len() as int
    }

    /// How many slots currently serve a connection.
    pub closed spec fn busy(self) -> int {
        busy_count(self.slots@)
    }

    /// How many attempts are queued at the transport layer.
    pub closed spec fn waiting(self) -> int {
        self.waiting as int
    }

    /// Whether slot `k` currently serves a connection.
    pub closed spec fn slot_busy(self, k: int) -> bool {
        self.slots@[k]
    }

    /// A fresh pool of `capacity` idle slots.
    pub fn new(capacity: usize) -> (r: WorkerPool)
        requires
            capacity >= 1,
        ensures
            r.capacity() == capacity,
            r.busy() == 0,
            r.waiting() == 0,
            forall|k: int| 0 <= k < capacity ==> !r.slot_busy(k),
    {
        let mut slots: Vec<bool> = Vec::new();
        let mut i: usize = 0;
        while i < capacity
            invariant
                i <= capacity,
                slots@.len() == i,
                busy_count(slots@) == 0,
                forall|k: int| 0 <= k < i ==> !slots@[k],
            decreases capacity - i,
        {
            proof {
                lemma_busy_count_push(slots@, false);
            }
            slots.push(false);
            i = i + 1;
        }
        WorkerPool { slots, waiting: 0 }
    }

    /// The number of worker slots.
    pub fn slot_count(&self) -> (r: usize)
        ensures
            r == self.capacity(),
    {
        self.slots.len()
    }

    /// How many slots currently serve a connection.
    pub fn busy_slots(&self) -> (r: usize)
        ensures
            r == self.busy(),
    {
        let n = self.slots.len();
        let mut count: usize = 0;
        let mut i: usize = 0;
        while i < n
            invariant
                i <= n,
                n == self.slots@.len(),
                count == busy_count(self.slots@.subrange(0, i as int)),
                count <= i,
            decreases n - i,
        {
            proof {
                assert(self.slots@.subrange(0, i as int + 1).drop_last() =~= self.slots@.subrange(
                    0,
                    i as int,
                ));
            }
            if self.slots[i] {
                count = count + 1;
            }
            i = i + 1;
        }
        proof {
            assert(self.slots@.subrange(0, n as int) =~= self.slots@);
        }
        count
    }

    /// How many attempts are queued at the transport layer.
    pub fn queued(&self) -> (r: usize)
        ensures
            r == self.waiting(),
    {
        self.waiting
    }

    /// Whether slot `k` currently serves a connection.
    pub fn is_slot_busy(&self, k: usize) -> (r: bool)
        requires
            k < self.capacity(),
        ensures
            r == self.slot_busy(k as int),
    {
        self.slots[k]
    }

    /// One connection attempt reaches the listening port. If any slot is
    /// free, one free slot accepts it at once and the attempt is bound to
    /// that slot; if every slot is taken, the attempt queues at the
    /// transport layer. It is never rejected and never dropped, and no slot
    /// already serving a connection is touched.
    pub fn arrive(&mut self) -> (r: Option<usize>)
        requires
            old(self).waiting() < usize::MAX,
        ensures
            final(self).capacity() == old(self).capacity(),
            (final(self).busy(), final(self).waiting()) == spec_arrive(
                old(self).capacity(),
                old(self).busy(),
                old(self).waiting(),
            ),
            final(self).busy() + final(self).waiting() == old(self).busy() + old(self).waiting()
                + 1,
            (match r {
                Some(slot) => {
                    &&& old(self).busy() < old(self).capacity()
                    &&& slot < old(self).capacity()
                    &&& !old(self).slot_busy(slot as int)
                    &&& final(self).slot_busy(slot as int)
                    &&& final(self).waiting() == old(self).waiting()
                    &&& forall|j: int|
                        0 <= j < old(self).capacity() && j != slot ==> final(self).slot_busy(j)
                            == old(self).slot_busy(j)
                },
                None => {
                    &&& old(self).busy() == old(self).capacity()
                    &&& final(self).waiting() == old(self).waiting() + 1
                    &&& forall|j: int|
                        0 <= j < old(self).capacity() ==> final(self).slot_busy(j) == old(
                            self,
                        ).slot_busy(j)
                },
            }),
    {
        let n = self.slots.len();
        let mut i: usize = 0;
        while i < n
            invariant
                i <= n,
                self.slots@ == old(self).slots@,
                self.waiting == old(self).waiting,
                old(self).waiting < usize::MAX,
                n == self.slots@.len(),
                forall|k: int| 0 <= k < i ==> self.slots@[k],
            decreases n - i,
        {
            if !self.slots[i] {
                proof {
                    lemma_free_slot_below_capacity(self.slots@, i as int);
                    lemma_busy_count_update(self.slots@, i as int, true);
                }
                self.slots[i] = true;
                return Some(i);
            }
            i = i + 1;
        }
        proof {
            lemma_all_busy_is_full(self.slots@);
        }
        self.waiting = self.waiting + 1;
        None
    }

    /// The connection served on `slot` finishes. If an attempt is queued,
    /// the freed slot at once accepts it — the slot stays occupied and the
    /// queue shortens; otherwise the slot goes free. Every other slot is
    /// left exactly as it was: one connection's end never affects another
    /// worker's connection.
    pub fn complete(&mut self, slot: usize)
        requires
            slot < old(self).capacity(),
            old(self).slot_busy(slot as int),
        ensures
            final(self).capacity() == old(self).capacity(),
            (final(self).busy(), final(self).waiting()) == spec_complete(
                old(self).busy(),
                old(self).waiting(),
            ),
            old(self).waiting() > 0 ==> final(self).slot_busy(slot as int),
            old(self).waiting() == 0 ==> !final(self).slot_busy(slot as int),
            forall|k: int|
                0 <= k < old(self).capacity() && k != slot ==> final(self).slot_busy(k) == old(
                    self,
                ).slot_busy(k),
    {
        if self.waiting > 0 {
            self.waiting = self.waiting - 1;
            proof {
                assert(self.slots@ =~= old(self).slots@);
            }
        } else {
            proof {
                lemma_busy_count_update(self.slots@, slot as int, false);
            }
            self.slots[slot] = false;
        }
    }
}

/// A pool with every slot taken is at capacity.
pub proof fn lemma_all_busy_is_full(slots: Seq<bool>)
    requires
        forall|k: int| 0 <= k < slots.len() ==> slots[k],
    ensures
        busy_count(slots) == slots.len(),
    decreases slots.len(),
{
    if slots.len() > 0 {
        lemma_all_busy_is_full(slots.drop_last());
    }
}

/// On an idle pool, `k` attempts occupy `k` slots at once, as long as slots
/// remain.
pub proof fn lemma_arrivals_fill(capacity: int, k: nat)
    requires
        k <= capacity,
    ensures
        spec_arrivals(capacity, 0, 0, k) == (k as int, 0int),
    decreases k,
{
    if k > 0 {
        lemma_arrivals_fill(capacity, (k - 1) as nat);
    }
}

/// With `capacity` worker slots and `capacity + 1` simultaneous connection
/// attempts on an idle pool: the first `capacity` are accepted promptly,
/// the extra one is queued — never rejected, never dropped — and it is
/// accepted as soon as any one of the accepted connections completes.
pub proof fn lemma_overload_queues_then_accepts(capacity: int)
    requires
        capacity >= 1,
    ensures
        spec_arrivals(capacity, 0, 0, capacity as nat) == (capacity, 0int),
        spec_arrivals(capacity, 0, 0, (capacity + 1) as nat) == (capacity, 1int),
        spec_complete(capacity, 1) == (capacity, 0int),
{
    lemma_arrivals_fill(capacity, capacity as nat);
}

} // verus!
