//! The pipeline as a mathematical state and the transitions that `send`,
//! the worker and the shutdown paths make on it.

use crate::transport::queue::{offered, QueueSlot};
use crate::transport::worker::{decision, WorkerAction, WorkerEvent};
use vstd::prelude::*;

verus! {

/// Where the single worker stands.
#[derive(Clone, Copy, Debug, PartialEq, Eq, Structural)]
pub enum WorkerPhase {
    /// Ready to take the next slot.
    Waiting,
    /// A record left the queue and its delivery attempt is not over.
    Delivering,
    /// The worker has ended and takes nothing more.
    Stopped,
}

/// Number of records among the slots of a queue; sentinels do not count.
pub open spec fn record_count<T>(queue: Seq<QueueSlot<T>>) -> nat
    decreases queue.len(),
{
    if queue.len() == 0 {
        0
    } else {
        record_count(queue.drop_last()) + if queue.last() is Record {
            1nat
        } else {
            0nat
        }
    }
}

/// State of a pipeline.
pub struct PipelineModel<T> {
    /// The queued slots, oldest first.
    pub queue: Seq<QueueSlot<T>>,
    /// The fixed capacity of the queue.
    pub capacity: nat,
    /// The depth counter.
    pub depth: nat,
    /// The shutdown flag: once up it stays up.
    pub hard_stop: bool,
    /// Where the worker stands.
    pub phase: WorkerPhase,
}

impl<T> PipelineModel<T> {
    /// A pipeline right after construction.
    pub open spec fn fresh(capacity: nat) -> Self {
        PipelineModel {
            queue: Seq::empty(),
            capacity,
            depth: 0,
            hard_stop: false,
            phase: WorkerPhase::Waiting,
        }
    }

    /// One if a delivery attempt is under way, zero otherwise.
    pub open spec fn in_flight(self) -> nat {
        if self.phase == WorkerPhase::Delivering {
            1
        } else {
            0
        }
    }

    /// The queue respects its capacity, and the counter is accurate: while
    /// the worker lives it equals the records queued plus the one in
    /// flight; once the worker has ended it never exceeds the records left
    /// in the queue.
    pub open spec fn wf(self) -> bool {
        &&& self.queue.len() <= self.capacity
        &&& self.capacity < usize::MAX
        &&& self.phase != WorkerPhase::Stopped ==> self.depth == record_count(self.queue)
            + self.in_flight()
        &&& self.phase == WorkerPhase::Stopped ==> self.depth <= record_count(self.queue)
    }

    /// Whether the next offer finds room.
    pub open spec fn has_room(self) -> bool {
        self.queue.len() < self.capacity
    }

    /// A producer hands in a record: it is reserved, offered, and the
    /// reservation released again if the queue was full. A record that
    /// finds no room leaves no trace.
    pub open spec fn send(self, record: T) -> Self {
        if self.has_room() {
            PipelineModel {
                queue: self.queue.push(QueueSlot::Record(record)),
                depth: self.depth + 1,
                ..self
            }
        } else {
            self
        }
    }

    /// The sentinel is offered without waiting. It is not counted.
    pub open spec fn offer_sentinel(self) -> Self {
        PipelineModel { queue: offered(self.queue, self.capacity, QueueSlot::Sentinel), ..self }
    }

    /// The handle goes away: the shutdown flag goes up and the sentinel is
    /// offered once, without waiting.
    pub open spec fn hard_stop(self) -> Self {
        PipelineModel { hard_stop: true, ..self.offer_sentinel() }
    }

    /// What the worker decides when it looks for the next slot: nothing
    /// while the queue is empty or a delivery is under way, to stay stopped
    /// once it has ended, and the worker's rule on the oldest slot
    /// otherwise.
    pub open spec fn polled(self) -> Option<WorkerAction<T>> {
        match self.phase {
            WorkerPhase::Stopped => Some(WorkerAction::Stop),
            WorkerPhase::Delivering => None,
            WorkerPhase::Waiting => if self.queue.len() == 0 {
                None
            } else {
                Some(decision(WorkerEvent::Slot(self.queue[0]), self.hard_stop))
            },
        }
    }

    /// The state after the worker looked for the next slot. A slot taken
    /// leaves the queue whatever is decided on it; a hard stop clears the
    /// counter.
    pub open spec fn poll(self) -> Self {
        match self.polled() {
            None => self,
            Some(action) => if self.phase == WorkerPhase::Stopped {
                self
            } else {
                match action {
                    WorkerAction::Deliver(_) => PipelineModel {
                        queue: self.queue.drop_first(),
                        phase: WorkerPhase::Delivering,
                        ..self
                    },
                    WorkerAction::Stop => PipelineModel {
                        queue: self.queue.drop_first(),
                        phase: WorkerPhase::Stopped,
                        ..self
                    },
                    WorkerAction::HardStop => PipelineModel {
                        queue: self.queue.drop_first(),
                        depth: 0,
                        phase: WorkerPhase::Stopped,
                        ..self
                    },
                }
            },
        }
    }

    /// The state after the delivery attempt under way has ended: the
    /// record is counted off and the worker is ready again. Without an
    /// attempt under way nothing changes.
    pub open spec fn complete(self) -> Self {
        if self.phase == WorkerPhase::Delivering {
            PipelineModel {
                depth: (self.depth - 1) as nat,
                phase: WorkerPhase::Waiting,
                ..self
            }
        } else {
            self
        }
    }

    /// Whether the end of the delivery attempt under way takes the counter
    /// to zero, so that the wake signal is broadcast.
    pub open spec fn completion_signals(self) -> bool {
        self.phase == WorkerPhase::Delivering && self.depth <= 1
    }
}

/// Appending a slot adds one to the record count if it is a record.
pub proof fn lemma_record_count_push<T>(queue: Seq<QueueSlot<T>>, slot: QueueSlot<T>)
    ensures
        record_count(queue.push(slot)) == record_count(queue) + if slot is Record {
            1nat
        } else {
            0nat
        },
{
    assert(queue.push(slot).drop_last() =~= queue);
}

/// Taking the oldest slot takes one from the record count if it is a
/// record.
pub proof fn lemma_record_count_drop_first<T>(queue: Seq<QueueSlot<T>>)
    requires
        queue.len() > 0,
    ensures
        record_count(queue) == record_count(queue.drop_first()) + if queue[0] is Record {
            1nat
        } else {
            0nat
        },
    decreases queue.len(),
{
    if queue.len() == 1 {
        assert(queue.drop_last() =~= Seq::<QueueSlot<T>>::empty());
        assert(queue.drop_first() =~= Seq::<QueueSlot<T>>::empty());
    } else {
        lemma_record_count_drop_first(queue.drop_last());
        assert(queue.drop_last().drop_first() =~= queue.drop_first().drop_last());
    }
}

/// No more records than slots.
pub proof fn lemma_record_count_bounded<T>(queue: Seq<QueueSlot<T>>)
    ensures
        record_count(queue) <= queue.len(),
    decreases queue.len(),
{
    if queue.len() > 0 {
        lemma_record_count_bounded(queue.drop_last());
    }
}

} // verus!
