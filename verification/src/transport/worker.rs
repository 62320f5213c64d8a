//! What the single delivery worker decides each time its wait for the next
//! slot ends.

use crate::transport::queue::QueueSlot;
use vstd::prelude::*;

verus! {

/// How a wait for the next slot ended.
#[derive(Debug, PartialEq, Eq)]
pub enum WorkerEvent<T> {
    /// A slot came off the queue.
    Slot(QueueSlot<T>),
    /// The queue is closed for good: no producer is left.
    Closed,
}

/// What the worker does next.
#[derive(Debug, PartialEq, Eq)]
pub enum WorkerAction<T> {
    /// Attempt delivery of the record, count it off whatever comes of the
    /// attempt, broadcast the wake signal if the counter reached zero, and
    /// wait for the next slot.
    Deliver(T),
    /// End the worker and leave the counter as it is.
    Stop,
    /// Clear the counter, broadcast the wake signal and end the worker:
    /// what is still queued is abandoned.
    HardStop,
}

/// How a delivery attempt ended.
#[derive(Clone, Copy, Debug, PartialEq, Eq, Structural)]
pub enum DeliveryOutcome {
    /// The collector answered and its acknowledgement could be read.
    Acknowledged,
    /// The collector answered, but the answer could not be read.
    Unreadable,
    /// The request did not go through.
    Failed,
}

/// The worker's rule. A closed queue ends the worker. A slot taken while
/// the shutdown flag is up is abandoned with all that follows it, be it a
/// record or the sentinel. Without the flag the sentinel ends the worker
/// and a record is delivered.
pub open spec fn decision<T>(event: WorkerEvent<T>, hard_stop: bool) -> WorkerAction<T> {
    match event {
        WorkerEvent::Closed => WorkerAction::Stop,
        WorkerEvent::Slot(slot) => if hard_stop {
            WorkerAction::HardStop
        } else {
            match slot {
                QueueSlot::Sentinel => WorkerAction::Stop,
                QueueSlot::Record(record) => WorkerAction::Deliver(record),
            }
        },
    }
}

/// Decides what the worker does after its wait ended with `event`, given
/// the shutdown flag as read after the wait.
pub fn decide<T>(event: WorkerEvent<T>, hard_stop: bool) -> (action: WorkerAction<T>)
    ensures
        action == decision(event, hard_stop),
{
    match event {
        WorkerEvent::Closed => WorkerAction::Stop,
        WorkerEvent::Slot(slot) => {
            if hard_stop {
                WorkerAction::HardStop
            } else {
                match slot {
                    QueueSlot::Sentinel => WorkerAction::Stop,
                    QueueSlot::Record(record) => WorkerAction::Deliver(record),
                }
            }
        },
    }
}

/// Whether the record's bytes reached the collector. An answer that cannot
/// be read does not undo the delivery.
pub open spec fn was_sent(outcome: DeliveryOutcome) -> bool {
    outcome != DeliveryOutcome::Failed
}

/// Whether the record's bytes reached the collector. Nothing is retried
/// either way: the record is done once its attempt is over.
pub fn delivered(outcome: DeliveryOutcome) -> (sent: bool)
    ensures
        sent == was_sent(outcome),
{
    match outcome {
        DeliveryOutcome::Acknowledged => true,
        DeliveryOutcome::Unreadable => true,
        DeliveryOutcome::Failed => false,
    }
}

} // verus!
