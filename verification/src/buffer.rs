//! The circular action buffer: a fixed-capacity ring of encoded action
//! records that decouples action production (refill) from action rendering.
//!
//! Within one generation loop both the producing step and the consuming step
//! run on the same execution context, so the ring needs no locking. Records
//! leave in exactly the order they entered (FIFO); the view of a buffer is the
//! sequence of buffered records, oldest first.

use vstd::prelude::*;
use vstd::pervasive::VecAdditionalExecFns;
use crate::codec::ActionRecord;
use crate::codec::ACTION_IDLE;

verus! {

/// A fixed-capacity FIFO ring of encoded action records.
pub struct ActionBuffer {
    slots: Vec<ActionRecord>,
    head: usize,
    count: usize,
}

impl View for ActionBuffer {
    type V = Seq<Seq<u32>>;

    /// The buffered records, oldest first.
    closed spec fn view(&self) -> Seq<Seq<u32>> {
        Seq::new(
            self.count as nat,
            |i: int|
                self.slots@[if self.head + i < self.slots@.len() {
                    self.head + i
                } else {
                    self.head + i - self.slots@.len()
                }]@,
        )
    }
}

impl ActionBuffer {
    /// Number of records the ring can hold.
    pub closed spec fn cap(&self) -> nat {
        self.slots@.len()
    }

    /// Structural validity: at least one slot, and the head cursor and the
    /// occupancy count stay within the ring.
    pub closed spec fn wf(&self) -> bool {
        &&& self.slots@.len() >= 1
        &&& self.head < self.slots@.len()
        &&& self.count <= self.slots@.len()
    }

    /// Create an empty ring with the given capacity.
    pub fn new(capacity: usize) -> (b: ActionBuffer)
        requires
            capacity >= 1,
        ensures
            b.wf(),
            b.cap() == capacity,
            b@ == Seq::<Seq<u32>>::empty(),
    {
        let mut slots: Vec<ActionRecord> = Vec::new();
        while slots.len() < capacity
            invariant
                slots@.len() <= capacity,
            decreases capacity - slots.len(),
        {
            slots.push([ACTION_IDLE, 0u32, 0u32]);
        }
        let b = ActionBuffer { slots, head: 0, count: 0 };
        proof {
            assert(b@ =~= Seq::<Seq<u32>>::empty());
        }
        b
    }

    /// Current occupancy, in records.
    pub fn len(&self) -> (n: usize)
        ensures
            n == self@.len(),
    {
        self.count
    }

    /// Capacity, in records.
    pub fn capacity(&self) -> (n: usize)
        ensures
            n == self.cap(),
    {
        self.slots.len()
    }

    /// The low-water query: is occupancy below the given refill threshold?
    pub fn is_low(&self, threshold: usize) -> (r: bool)
        ensures
            r == (self@.len() < threshold),
    {
        self.count < threshold
    }

    /// Append one record at the tail of the ring. The refill protocol never
    /// pushes into a full ring, so a free slot is a precondition.
    pub fn push(&mut self, rec: ActionRecord)
        requires
            old(self).wf(),
            old(self)@.len() < old(self).cap(),
        ensures
            final(self).wf(),
            final(self).cap() == old(self).cap(),
            final(self)@ == old(self)@.push(rec@),
    {
        let gap = self.slots.len() - self.head;
        let idx = if self.count < gap {
            self.head + self.count
        } else {
            self.count - gap
        };
        self.slots.set(idx, rec);
        self.count = self.count + 1;
        proof {
            assert(final(self)@ =~= old(self)@.push(rec@));
        }
    }

    /// Remove and return the oldest record, or nothing if the ring is empty.
    /// An empty ring is not an error: it signals backpressure from the action
    /// source.
    pub fn pop(&mut self) -> (r: Option<ActionRecord>)
        requires
            old(self).wf(),
        ensures
            final(self).wf(),
            final(self).cap() == old(self).cap(),
            old(self)@.len() == 0 ==> r is None && final(self)@ == old(self)@,
            old(self)@.len() > 0 ==> (r matches Some(rec) && rec@ == old(self)@[0]
                && final(self)@ == old(self)@.skip(1)),
    {
        if self.count == 0 {
            None
        } else {
            let rec = self.slots[self.head];
            self.head = if self.head == self.slots.len() - 1 {
                0
            } else {
                self.head + 1
            };
            self.count = self.count - 1;
            proof {
                assert(final(self)@ =~= old(self)@.skip(1));
            }
            Some(rec)
        }
    }

    /// Discard every buffered record; part of per-run teardown.
    pub fn clear(&mut self)
        requires
            old(self).wf(),
        ensures
            final(self).wf(),
            final(self).cap() == old(self).cap(),
            final(self)@ == Seq::<Seq<u32>>::empty(),
    {
        self.count = 0;
        proof {
            assert(final(self)@ =~= Seq::<Seq<u32>>::empty());
        }
    }
}

} // verus!
