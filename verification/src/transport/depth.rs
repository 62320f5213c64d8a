//! In-flight accounting: how many records are reserved or queued and not
//! yet fully processed.
//!
//! A producer reserves before it offers its record to the queue and
//! releases at once when the offer is turned away. The worker counts a
//! record off when its delivery attempt is over, whatever came of it. The
//! host keeps the counter behind its lock and broadcasts the wake signal
//! whenever `complete` reports that the counter reached zero and after
//! every `reset`.

use vstd::prelude::*;

verus! {

/// Count of records reserved or queued and not yet fully processed.
pub struct DepthCounter {
    count: usize,
}

impl View for DepthCounter {
    type V = nat;

    closed spec fn view(&self) -> nat {
        self.count as nat
    }
}

impl DepthCounter {
    /// A counter with nothing outstanding.
    pub fn new() -> (counter: Self)
        ensures
            counter@ == 0,
    {
        DepthCounter { count: 0 }
    }

    /// The number of records outstanding.
    pub fn get(&self) -> (count: usize)
        ensures
            count == self@,
    {
        self.count
    }

    /// Whether nothing is outstanding, so that a shutdown has nothing to
    /// wait for.
    pub fn is_idle(&self) -> (idle: bool)
        ensures
            idle == (self@ == 0),
    {
        self.count == 0
    }

    /// Counts one more record before it is offered to the queue. The
    /// reservation is refused only when the counter cannot go higher; the
    /// record is then dropped like one that found the queue full.
    pub fn reserve(&mut self) -> (reserved: bool)
        ensures
            reserved == (old(self)@ < usize::MAX),
            final(self)@ == if reserved {
                old(self)@ + 1
            } else {
                old(self)@
            },
    {
        if self.count < usize::MAX {
            self.count = self.count + 1;
            true
        } else {
            false
        }
    }

    /// Gives back the reservation of a record that the queue turned away.
    /// No wake signal follows a release. A counter that a hard stop has
    /// cleared in the meantime stays at zero.
    pub fn release(&mut self)
        ensures
            final(self)@ == if old(self)@ > 0 {
                (old(self)@ - 1) as nat
            } else {
                0
            },
    {
        if self.count > 0 {
            self.count = self.count - 1;
        }
    }

    /// Counts off the record whose delivery attempt just ended and says
    /// whether nothing is outstanding any more, in which case the wake
    /// signal is due.
    pub fn complete(&mut self) -> (drained: bool)
        ensures
            final(self)@ == if old(self)@ > 0 {
                (old(self)@ - 1) as nat
            } else {
                0
            },
            drained == (final(self)@ == 0),
    {
        if self.count > 0 {
            self.count = self.count - 1;
        }
        self.count == 0
    }

    /// Abandons the accounting on a hard stop: nothing is outstanding any
    /// more. The wake signal is due after every reset.
    pub fn reset(&mut self)
        ensures
            final(self)@ == 0,
    {
        self.count = 0;
    }
}

} // verus!
