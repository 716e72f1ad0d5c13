//! Bounded FIFO buffers of quantized metric samples, consumed by the
//! presentation layer as sparkline data.

use vstd::prelude::*;

verus! {

/// Fixed-capacity ordered buffer of unsigned samples. Insertion evicts the
/// single oldest element once the buffer is at capacity; insertion order is
/// the only order.
#[derive(Clone)]
pub struct History {
    data: Vec<u64>,
    capacity: usize,
}

impl History {
    /// The stored samples, oldest first.
    pub closed spec fn values(self) -> Seq<u64> {
        self.data@
    }

    /// The fixed capacity chosen at construction.
    pub closed spec fn cap(self) -> int {
        self.capacity as int
    }

    /// The buffer never holds more than its capacity, and the capacity is
    /// at least one so that a push always has room for the new sample.
    pub closed spec fn wf(self) -> bool {
        &&& 1 <= self.capacity
        &&& self.data@.len() <= self.capacity
    }

    /// The contents after appending `val`: the oldest sample is evicted
    /// first exactly when the buffer is at capacity.
    pub open spec fn pushed(self, val: u64) -> Seq<u64> {
        if self.values().len() < self.cap() {
            self.values().push(val)
        } else {
            self.values().drop_first().push(val)
        }
    }

    pub fn new(capacity: usize) -> (h: History)
        requires
            1 <= capacity,
        ensures
            h.wf(),
            h.cap() == capacity as int,
            h.values() == Seq::<u64>::empty(),
    {
        History { data: Vec::new(), capacity }
    }

    /// Appends `val`; if the buffer is full, the oldest sample is evicted
    /// first, keeping strict first-in-first-out order.
    pub fn push(&mut self, val: u64)
        requires
            old(self).wf(),
        ensures
            final(self).wf(),
            final(self).cap() == old(self).cap(),
            final(self).values() == old(self).pushed(val),
    {
        if self.data.len() >= self.capacity {
            self.data.remove(0);
            proof {
                assert(self.data@ =~= old(self).values().drop_first());
            }
        }
        self.data.push(val);
    }

    /// Read-only view of the stored samples, oldest first.
    pub fn data(&self) -> (r: &Vec<u64>)
        ensures
            r@ == self.values(),
    {
        &self.data
    }
}


/// Law: pushing below capacity never evicts — the new contents are the
/// old ones with `val` appended.
pub proof fn lemma_push_below_capacity(h: History, val: u64)
    requires
        h.values().len() < h.cap(),
    ensures
        h.pushed(val) == h.values().push(val),
        h.pushed(val).len() == h.values().len() + 1,
{
}

/// Law: pushing at capacity evicts exactly the single oldest sample, and
/// the length never exceeds the capacity.
pub proof fn lemma_push_at_capacity(h: History, val: u64)
    requires
        h.wf(),
        h.values().len() == h.cap(),
    ensures
        h.pushed(val) == h.values().drop_first().push(val),
        h.pushed(val).len() == h.cap(),
{
}

} // verus!
