//! The producer's side of a transport whose queue is a bounded channel of
//! the tokio runtime. The channel decides whether it takes a slot; what
//! becomes of the counter for either answer is decided here.

use crate::transport::depth::DepthCounter;
use crate::transport::queue::QueueSlot;
use tokio::sync::mpsc::Sender;
use vstd::prelude::*;

verus! {

/// `tokio::sync::mpsc::Sender`, the producers' end of a bounded channel.
/// Nothing is known of its inside.
#[verifier::external_type_specification]
#[verifier::external_body]
#[verifier::reject_recursive_types(T)]
pub struct ExSender<T>(Sender<T>);

/// Offers a slot with `tokio::sync::mpsc::Sender::try_send`, which never
/// waits, and says whether the channel took it. A channel that is full or
/// closed does not. Which of these holds depends on what the consumer has
/// taken by then, so nothing is promised of the answer.
#[verifier::external_body]
fn try_offer<T>(sender: &Sender<QueueSlot<T>>, slot: QueueSlot<T>) -> (accepted: bool) {
    sender.try_send(slot).is_ok()
}

/// The counter after a send: one more if the record is on its way, and
/// what it was if the record was dropped.
pub open spec fn settled(depth: nat, accepted: bool) -> nat {
    if accepted {
        depth + 1
    } else {
        depth
    }
}

/// The counter after the channel answered the offer of a record that was
/// reserved: what it is if the channel took the record, and one less, the
/// reservation given back, if it did not.
pub open spec fn answered(reserved: nat, accepted: bool) -> nat {
    if accepted || reserved == 0 {
        reserved
    } else {
        (reserved - 1) as nat
    }
}

/// Takes the channel's answer to the offer of a reserved record: an
/// accepted record stays counted until the worker is done with it, and the
/// reservation of a record that the channel turned away is given back at
/// once. No wake signal follows either way.
pub fn settle(counter: &mut DepthCounter, accepted: bool)
    ensures
        final(counter)@ == answered(old(counter)@, accepted),
{
    if !accepted {
        counter.release();
    }
}

/// Hands a record to the channel without waiting: the record is reserved,
/// offered, and the reservation given back if the channel did not take
/// it. The caller holds the counter's lock for the length of the call.
/// The result says whether the record is on its way; a producer has no
/// use for it and drops it. A counter that cannot go higher refuses the
/// reservation, and the record is dropped without an offer. In every other
/// case the channel alone decides, and the counter follows its answer as
/// `settle` says.
pub fn send_through<T>(counter: &mut DepthCounter, sender: &Sender<QueueSlot<T>>, record: T) -> (accepted:
    bool)
    ensures
        final(counter)@ == settled(old(counter)@, accepted),
        accepted ==> old(counter)@ < usize::MAX,
{
    if !counter.reserve() {
        return false;
    }
    let accepted = try_offer(sender, QueueSlot::Record(record));
    settle(counter, accepted);
    accepted
}

} // verus!
