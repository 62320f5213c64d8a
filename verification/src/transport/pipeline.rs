//! The transport handle as one object: queue, depth counter, shutdown
//! flag and worker, with every step of producers, worker and shutdown a
//! method that never waits.
//!
//! A host with threads keeps the handle behind one lock and takes each
//! step under it; sleeping until there is work, and waiting for the wake
//! signal, are the host's. A host whose queue is a channel of its
//! scheduler keeps counter and flag apart and follows the same rules
//! through the parts this handle is made of.

use crate::configuration::Configuration;
use crate::transport::depth::DepthCounter;
use crate::transport::model::{
    lemma_record_count_bounded, lemma_record_count_drop_first, lemma_record_count_push,
    PipelineModel, WorkerPhase,
};
use crate::transport::queue::{DeliveryQueue, QueueSlot};
use crate::transport::worker::{decide, DeliveryOutcome, WorkerAction, WorkerEvent};
use vstd::prelude::*;

verus! {

/// A transport handle over records of type `T`.
pub struct Pipeline<T> {
    queue: DeliveryQueue<T>,
    depth: DepthCounter,
    hard_stop: bool,
    phase: WorkerPhase,
    configuration: Configuration,
}

impl<T> View for Pipeline<T> {
    type V = PipelineModel<T>;

    closed spec fn view(&self) -> PipelineModel<T> {
        PipelineModel {
            queue: self.queue@,
            capacity: self.queue.spec_capacity(),
            depth: self.depth@,
            hard_stop: self.hard_stop,
            phase: self.phase,
        }
    }
}

impl<T> Pipeline<T> {
    /// The settings the handle was made with.
    pub closed spec fn spec_config(&self) -> Configuration {
        self.configuration
    }

    /// The state is one that a handle can reach.
    pub open spec fn wf(&self) -> bool {
        self@.wf()
    }

    /// A handle with an empty queue of the given capacity, nothing
    /// outstanding and the worker ready.
    pub fn new(configuration: Configuration, capacity: usize) -> (pipeline: Self)
        requires
            capacity < usize::MAX,
        ensures
            pipeline.wf(),
            pipeline@ == PipelineModel::<T>::fresh(capacity as nat),
            pipeline.spec_config() == configuration,
    {
        Pipeline {
            queue: DeliveryQueue::new(capacity),
            depth: DepthCounter::new(),
            hard_stop: false,
            phase: WorkerPhase::Waiting,
            configuration,
        }
    }

    /// The settings the handle was made with.
    pub fn config(&self) -> (configuration: &Configuration)
        ensures
            *configuration == self.spec_config(),
    {
        &self.configuration
    }

    /// The number of records outstanding.
    pub fn depth(&self) -> (depth: usize)
        ensures
            depth == self@.depth,
    {
        self.depth.get()
    }

    /// The number of slots queued.
    pub fn queued(&self) -> (queued: usize)
        ensures
            queued == self@.queue.len(),
    {
        self.queue.len()
    }

    /// Where the worker stands.
    pub fn phase(&self) -> (phase: WorkerPhase)
        ensures
            phase == self@.phase,
    {
        self.phase
    }

    /// Whether the shutdown flag is up.
    pub fn is_hard_stopped(&self) -> (up: bool)
        ensures
            up == self@.hard_stop,
    {
        self.hard_stop
    }

    /// Hands a record in. It never waits and never fails towards the
    /// caller: the record is reserved, offered to the queue, and dropped
    /// with its reservation if the queue is full.
    pub fn send(&mut self, record: T)
        requires
            old(self).wf(),
        ensures
            final(self).wf(),
            final(self)@ == old(self)@.send(record),
            final(self).spec_config() == old(self).spec_config(),
    {
        proof {
            lemma_record_count_bounded(self.queue@);
            lemma_record_count_push(self.queue@, QueueSlot::Record(record));
        }
        let reserved = self.depth.reserve();
        if reserved {
            match self.queue.try_enqueue(QueueSlot::Record(record)) {
                Ok(()) => {},
                Err(_) => {
                    self.depth.release();
                },
            }
        }
    }

    /// Offers the sentinel without waiting and says whether the queue took
    /// it. The sentinel is not counted.
    pub fn offer_sentinel(&mut self) -> (accepted: bool)
        requires
            old(self).wf(),
        ensures
            final(self).wf(),
            final(self)@ == old(self)@.offer_sentinel(),
            accepted == old(self)@.has_room(),
            final(self).spec_config() == old(self).spec_config(),
    {
        proof {
            lemma_record_count_push(self.queue@, QueueSlot::<T>::Sentinel);
        }
        self.queue.try_enqueue(QueueSlot::Sentinel).is_ok()
    }

    /// What happens when the handle goes away: the shutdown flag goes up
    /// and the sentinel is offered once. Nothing waits for the worker.
    pub fn hard_stop(&mut self)
        requires
            old(self).wf(),
        ensures
            final(self).wf(),
            final(self)@ == old(self)@.hard_stop(),
            final(self).spec_config() == old(self).spec_config(),
    {
        self.hard_stop = true;
        let _ = self.offer_sentinel();
    }

    /// Lets the worker look for the next slot. `None` means that it has
    /// nothing to do now: the queue is empty or a delivery is under way.
    /// On `Deliver` the host attempts the delivery and reports its end
    /// with `complete`. On `HardStop` the counter has been cleared, and the
    /// host broadcasts the wake signal.
    pub fn poll(&mut self) -> (action: Option<WorkerAction<T>>)
        requires
            old(self).wf(),
        ensures
            final(self).wf(),
            final(self)@ == old(self)@.poll(),
            action == old(self)@.polled(),
            final(self).spec_config() == old(self).spec_config(),
    {
        match self.phase {
            WorkerPhase::Stopped => Some(WorkerAction::Stop),
            WorkerPhase::Delivering => None,
            WorkerPhase::Waiting => {
                proof {
                    if self.queue@.len() > 0 {
                        lemma_record_count_drop_first(self.queue@);
                    }
                }
                match self.queue.dequeue() {
                    None => None,
                    Some(slot) => {
                        let action = decide(WorkerEvent::Slot(slot), self.hard_stop);
                        match &action {
                            WorkerAction::Deliver(_) => {
                                self.phase = WorkerPhase::Delivering;
                            },
                            WorkerAction::Stop => {
                                self.phase = WorkerPhase::Stopped;
                            },
                            WorkerAction::HardStop => {
                                self.depth.reset();
                                self.phase = WorkerPhase::Stopped;
                            },
                        }
                        Some(action)
                    },
                }
            },
        }
    }

    /// Reports that the delivery attempt under way has ended. The record
    /// is counted off whatever came of the attempt: nothing is retried.
    /// The result says whether the counter reached zero, in which case the
    /// host broadcasts the wake signal.
    pub fn complete(&mut self, outcome: DeliveryOutcome) -> (signal: bool)
        requires
            old(self).wf(),
        ensures
            final(self).wf(),
            final(self)@ == old(self)@.complete(),
            signal == old(self)@.completion_signals(),
            final(self).spec_config() == old(self).spec_config(),
    {
        match self.phase {
            WorkerPhase::Delivering => {
                let drained = self.depth.complete();
                self.phase = WorkerPhase::Waiting;
                drained
            },
            _ => false,
        }
    }
}

} // verus!
