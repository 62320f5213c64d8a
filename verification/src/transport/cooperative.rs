//! The transport for hosts with a single event loop and no way to block a
//! caller. There is no depth counter: the queue's capacity is the only
//! backpressure. Shutdown cancels the worker at once and does not wait for
//! the backlog; it means "stop taking work", not "finish the work".

use crate::configuration::Configuration;
use crate::transport::queue::{DeliveryQueue, QueueSlot};
use vstd::prelude::*;

verus! {

/// How the worker's race between the next record and the cancellation
/// signal ended.
#[derive(Debug, PartialEq, Eq)]
pub enum RaceOutcome<T> {
    /// The cancellation signal arrived.
    Cancelled,
    /// The queue answered: with a record, or with nothing if it is closed.
    Next(Option<T>),
}

/// What the worker of the event-loop variant does next.
#[derive(Debug, PartialEq, Eq)]
pub enum LoopAction<T> {
    /// End the worker.
    Stop,
    /// Post the record, log what came of it, and race again.
    Deliver(T),
    /// Race again.
    Continue,
}

/// The worker's rule: cancellation ends it, a record is posted, and an
/// answer without a record is passed over.
pub open spec fn loop_decision<T>(outcome: RaceOutcome<T>) -> LoopAction<T> {
    match outcome {
        RaceOutcome::Cancelled => LoopAction::Stop,
        RaceOutcome::Next(Some(record)) => LoopAction::Deliver(record),
        RaceOutcome::Next(None) => LoopAction::Continue,
    }
}

/// Decides what the worker does after a race ended with `outcome`. Which
/// side wins a race that both could win is the host's affair; the rule
/// holds for either.
pub fn decide_race<T>(outcome: RaceOutcome<T>) -> (action: LoopAction<T>)
    ensures
        action == loop_decision(outcome),
{
    match outcome {
        RaceOutcome::Cancelled => LoopAction::Stop,
        RaceOutcome::Next(Some(record)) => LoopAction::Deliver(record),
        RaceOutcome::Next(None) => LoopAction::Continue,
    }
}

/// State of an event-loop transport.
pub struct CooperativeModel<T> {
    /// The queued records, oldest first.
    pub queue: Seq<T>,
    /// The fixed capacity of the queue.
    pub capacity: nat,
    /// Whether the one-shot cancellation is still unused.
    pub armed: bool,
    /// Whether the worker has ended.
    pub stopped: bool,
}

/// The transport handle of the event-loop variant.
pub struct CooperativeTransport<T> {
    queue: DeliveryQueue<T>,
    armed: bool,
    stopped: bool,
    configuration: Configuration,
}

/// The records of a queue that holds no sentinel.
pub open spec fn records_of<T>(queue: Seq<QueueSlot<T>>) -> Seq<T>
    recommends
        forall|i: int| 0 <= i < queue.len() ==> queue[i] is Record,
{
    Seq::new(queue.len(), |i: int| queue[i]->Record_0)
}

impl<T> View for CooperativeTransport<T> {
    type V = CooperativeModel<T>;

    closed spec fn view(&self) -> CooperativeModel<T> {
        CooperativeModel {
            queue: records_of(self.queue@),
            capacity: self.queue.spec_capacity(),
            armed: self.armed,
            stopped: self.stopped,
        }
    }
}

impl<T> CooperativeTransport<T> {
    /// The settings the handle was made with.
    pub closed spec fn spec_config(&self) -> Configuration {
        self.configuration
    }

    /// The queue respects its capacity and holds records only.
    pub closed spec fn wf(&self) -> bool {
        &&& self.queue.wf()
        &&& forall|i: int| 0 <= i < self.queue@.len() ==> (#[trigger] self.queue@[i]) is Record
    }

    /// A handle with an empty queue, its cancellation unused and its
    /// worker alive.
    pub fn new(configuration: Configuration, capacity: usize) -> (transport: Self)
        ensures
            transport.wf(),
            transport@ == (CooperativeModel::<T> {
                queue: Seq::empty(),
                capacity: capacity as nat,
                armed: true,
                stopped: false,
            }),
            transport.spec_config() == configuration,
    {
        let transport = CooperativeTransport {
            queue: DeliveryQueue::new(capacity),
            armed: true,
            stopped: false,
            configuration,
        };
        assert(transport@.queue =~= Seq::<T>::empty());
        transport
    }

    /// The settings the handle was made with.
    pub fn config(&self) -> (configuration: &Configuration)
        ensures
            *configuration == self.spec_config(),
    {
        &self.configuration
    }

    /// The number of records queued, never more than the capacity.
    pub fn queued(&self) -> (queued: usize)
        requires
            self.wf(),
        ensures
            queued == self@.queue.len(),
            queued <= self@.capacity,
    {
        self.queue.len()
    }

    /// Hands a record in without waiting. A record that finds the queue
    /// full is dropped.
    pub fn send(&mut self, record: T)
        requires
            old(self).wf(),
        ensures
            final(self).wf(),
            final(self)@ == (CooperativeModel {
                queue: if old(self)@.queue.len() < old(self)@.capacity {
                    old(self)@.queue.push(record)
                } else {
                    old(self)@.queue
                },
                ..old(self)@
            }),
            final(self).spec_config() == old(self).spec_config(),
    {
        let _ = self.queue.try_enqueue(QueueSlot::Record(record));
        assert(self@.queue =~= if old(self)@.queue.len() < old(self)@.capacity {
            old(self)@.queue.push(record)
        } else {
            old(self)@.queue
        });
    }

    /// Cancels the worker. Only the first call can succeed, and it does if
    /// the worker is still there to be cancelled; every later call returns
    /// `false`. Nothing waits for queued records, and the timeout of the
    /// other variants has no part here.
    pub fn shutdown(&mut self) -> (cancelled: bool)
        ensures
            final(self).wf() == old(self).wf(),
            cancelled == (old(self)@.armed && !old(self)@.stopped),
            final(self)@ == (CooperativeModel {
                armed: false,
                stopped: old(self)@.stopped || old(self)@.armed,
                ..old(self)@
            }),
            final(self).spec_config() == old(self).spec_config(),
    {
        if self.armed {
            self.armed = false;
            let alive = !self.stopped;
            self.stopped = true;
            alive
        } else {
            false
        }
    }

    /// Lets the worker take its next turn. A cancelled worker takes
    /// nothing more, whatever is queued; otherwise the oldest record, if
    /// there is one, leaves the queue to be posted.
    pub fn poll(&mut self) -> (action: LoopAction<T>)
        requires
            old(self).wf(),
        ensures
            final(self).wf(),
            action == if old(self)@.stopped {
                LoopAction::Stop
            } else if old(self)@.queue.len() > 0 {
                LoopAction::Deliver(old(self)@.queue[0])
            } else {
                LoopAction::Continue
            },
            final(self)@ == (CooperativeModel {
                queue: if !old(self)@.stopped && old(self)@.queue.len() > 0 {
                    old(self)@.queue.drop_first()
                } else {
                    old(self)@.queue
                },
                ..old(self)@
            }),
            final(self).spec_config() == old(self).spec_config(),
    {
        if self.stopped {
            decide_race(RaceOutcome::Cancelled)
        } else {
            match self.queue.dequeue() {
                Some(QueueSlot::Record(record)) => {
                    assert(self@.queue =~= old(self)@.queue.drop_first());
                    decide_race(RaceOutcome::Next(Some(record)))
                },
                Some(QueueSlot::Sentinel) => {
                    decide_race(RaceOutcome::Next(None))
                },
                None => {
                    decide_race(RaceOutcome::Next(None))
                },
            }
        }
    }
}

} // verus!
