//! Bounded first-in first-out queue of delivery slots.
//!
//! The queue never grows past the capacity it was made with. An offer made
//! to a full queue fails at once and hands the slot back: producers are
//! never stalled, excess work is dropped.

use std::collections::VecDeque;
use vstd::prelude::*;

verus! {

/// Number of slots a transport's queue holds unless told otherwise.
pub const QUEUE_DEPTH: usize = 50;

/// One entry of the delivery queue.
#[derive(Debug, PartialEq, Eq)]
pub enum QueueSlot<T> {
    /// A record that awaits delivery.
    Record(T),
    /// The marker that tells the worker to stop.
    Sentinel,
}

/// What a queue holds after `slot` was offered to it: the slot is appended
/// when room remains, and the queue is unchanged otherwise.
pub open spec fn offered<T>(queue: Seq<QueueSlot<T>>, capacity: nat, slot: QueueSlot<T>) -> Seq<
    QueueSlot<T>,
> {
    if queue.len() < capacity {
        queue.push(slot)
    } else {
        queue
    }
}

/// A bounded queue of slots, oldest first.
pub struct DeliveryQueue<T> {
    slots: VecDeque<QueueSlot<T>>,
    capacity: usize,
}

impl<T> View for DeliveryQueue<T> {
    type V = Seq<QueueSlot<T>>;

    closed spec fn view(&self) -> Seq<QueueSlot<T>> {
        self.slots@
    }
}

impl<T> DeliveryQueue<T> {
    /// The capacity the queue was made with.
    pub closed spec fn spec_capacity(&self) -> nat {
        self.capacity as nat
    }

    /// The queue holds no more than its capacity.
    pub open spec fn wf(&self) -> bool {
        self@.len() <= self.spec_capacity()
    }

    /// An empty queue that holds at most `capacity` slots.
    pub fn new(capacity: usize) -> (queue: Self)
        ensures
            queue.wf(),
            queue@ == Seq::<QueueSlot<T>>::empty(),
            queue.spec_capacity() == capacity,
    {
        DeliveryQueue { slots: VecDeque::new(), capacity }
    }

    /// The capacity the queue was made with.
    pub fn capacity(&self) -> (capacity: usize)
        ensures
            capacity == self.spec_capacity(),
    {
        self.capacity
    }

    /// Number of slots queued, never more than the capacity.
    pub fn len(&self) -> (len: usize)
        ensures
            len == self@.len(),
    {
        self.slots.len()
    }

    /// Whether nothing is queued.
    pub fn is_empty(&self) -> (empty: bool)
        ensures
            empty == (self@.len() == 0),
    {
        self.slots.len() == 0
    }

    /// Whether the next offer would be turned away.
    pub fn is_full(&self) -> (full: bool)
        ensures
            full == (self@.len() >= self.spec_capacity()),
    {
        self.slots.len() >= self.capacity
    }

    /// Offers a slot without waiting. With room left the slot goes to the
    /// back of the queue; a full queue is left as it was and the slot comes
    /// back in the error.
    pub fn try_enqueue(&mut self, slot: QueueSlot<T>) -> (outcome: Result<(), QueueSlot<T>>)
        requires
            old(self).wf(),
        ensures
            final(self).wf(),
            final(self).spec_capacity() == old(self).spec_capacity(),
            final(self)@ == offered(old(self)@, old(self).spec_capacity(), slot),
            outcome == if old(self)@.len() < old(self).spec_capacity() {
                Ok::<(), QueueSlot<T>>(())
            } else {
                Err::<(), QueueSlot<T>>(slot)
            },
    {
        if self.slots.len() < self.capacity {
            self.slots.push_back(slot);
            Ok(())
        } else {
            Err(slot)
        }
    }

    /// Takes the oldest slot, or nothing when the queue is empty, in which
    /// case a consumer has to wait for the next offer.
    pub fn dequeue(&mut self) -> (slot: Option<QueueSlot<T>>)
        requires
            old(self).wf(),
        ensures
            final(self).wf(),
            final(self).spec_capacity() == old(self).spec_capacity(),
            old(self)@.len() == 0 ==> slot is None && final(self)@ == old(self)@,
            old(self)@.len() > 0 ==> slot == Some(old(self)@[0]) && final(self)@ == old(
                self,
            )@.drop_first(),
    {
        self.slots.pop_front()
    }
}

} // verus!
