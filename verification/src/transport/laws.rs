//! What holds of every pipeline, proved over the model: the queue never
//! outgrows its capacity, the counter stays accurate, accepted records are
//! delivered in the order they were sent, records that found no room are
//! never delivered, and a shutdown tells truly whether the backlog
//! drained in time.

use crate::transport::model::{
    lemma_record_count_bounded, lemma_record_count_drop_first, lemma_record_count_push,
    PipelineModel, WorkerPhase,
};
use crate::transport::queue::QueueSlot;
use crate::transport::shutdown::{
    next_action, next_stage, ShutdownAction, ShutdownEvent, ShutdownStage,
};
use crate::transport::worker::WorkerAction;
use core::time::Duration;
use vstd::prelude::*;

verus! {

/// One step of the life of a pipeline. Producers, the worker and the
/// callers of shutdown take their steps in any order; that a step of one
/// stands between two steps of another is how they run side by side.
pub enum HostStep<T> {
    /// A producer sends a record.
    Send(T),
    /// The worker looks for the next slot and, if it takes a record,
    /// begins its delivery attempt.
    Poll,
    /// The delivery attempt under way ends.
    Complete,
    /// A caller of `shutdown` offers the sentinel.
    Sentinel,
    /// The handle goes away: the shutdown flag goes up and the sentinel is
    /// offered.
    HardStop,
}

/// The state after one step.
pub open spec fn step_state<T>(model: PipelineModel<T>, step: HostStep<T>) -> PipelineModel<T> {
    match step {
        HostStep::Send(record) => model.send(record),
        HostStep::Poll => model.poll(),
        HostStep::Complete => model.complete(),
        HostStep::Sentinel => model.offer_sentinel(),
        HostStep::HardStop => model.hard_stop(),
    }
}

/// The records that one step hands to delivery.
pub open spec fn step_yield<T>(model: PipelineModel<T>, step: HostStep<T>) -> Seq<T> {
    match step {
        HostStep::Poll => match model.polled() {
            Some(WorkerAction::Deliver(record)) => seq![record],
            _ => Seq::empty(),
        },
        _ => Seq::empty(),
    }
}

/// The state after a schedule of steps.
pub open spec fn run<T>(model: PipelineModel<T>, steps: Seq<HostStep<T>>) -> PipelineModel<T>
    decreases steps.len(),
{
    if steps.len() == 0 {
        model
    } else {
        step_state(run(model, steps.drop_last()), steps.last())
    }
}

/// The records that a schedule of steps hands to delivery, in order.
pub open spec fn delivered<T>(model: PipelineModel<T>, steps: Seq<HostStep<T>>) -> Seq<T>
    decreases steps.len(),
{
    if steps.len() == 0 {
        Seq::empty()
    } else {
        delivered(model, steps.drop_last()) + step_yield(
            run(model, steps.drop_last()),
            steps.last(),
        )
    }
}

/// The records that a schedule sends, in order.
pub open spec fn sends_of<T>(steps: Seq<HostStep<T>>) -> Seq<T>
    decreases steps.len(),
{
    if steps.len() == 0 {
        Seq::empty()
    } else {
        match steps.last() {
            HostStep::Send(record) => sends_of(steps.drop_last()).push(record),
            _ => sends_of(steps.drop_last()),
        }
    }
}

/// Whether a schedule holds steps of producers and of the worker only:
/// nobody shuts the pipeline down while it runs.
pub open spec fn undisturbed<T>(steps: Seq<HostStep<T>>) -> bool {
    forall|i: int|
        0 <= i < steps.len() ==> (#[trigger] steps[i]) is Send || steps[i] is Poll
            || steps[i] is Complete
}

/// A schedule that sends the given records back to back.
pub open spec fn burst<T>(records: Seq<T>) -> Seq<HostStep<T>> {
    Seq::new(records.len(), |i: int| HostStep::Send(records[i]))
}

/// One turn of the worker with nothing in between: it looks for a slot,
/// and the attempt it may have begun ends.
pub open spec fn turn<T>() -> Seq<HostStep<T>> {
    seq![HostStep::Poll, HostStep::Complete]
}

/// A schedule of `rounds` turns of the worker and nothing else.
pub open spec fn work_rounds<T>(rounds: nat) -> Seq<HostStep<T>>
    decreases rounds,
{
    if rounds == 0 {
        Seq::empty()
    } else {
        work_rounds::<T>((rounds - 1) as nat) + turn::<T>()
    }
}

/// A pipeline that nobody has shut down: its flag is down, its queue
/// holds exactly the given records, and its worker is either ready or
/// busy with one more record. Every record is counted.
pub open spec fn serving<T>(capacity: nat, pending: Seq<T>, busy: bool) -> PipelineModel<T> {
    PipelineModel {
        queue: Seq::new(pending.len(), |i: int| QueueSlot::Record(pending[i])),
        capacity,
        depth: pending.len() + if busy {
            1nat
        } else {
            0nat
        },
        hard_stop: false,
        phase: if busy {
            WorkerPhase::Delivering
        } else {
            WorkerPhase::Waiting
        },
    }
}

/// A pipeline whose worker is ready, whose flag is down and whose queue
/// holds exactly the given records, all of them counted.
pub open spec fn backlog<T>(capacity: nat, pending: Seq<T>) -> PipelineModel<T> {
    serving(capacity, pending, false)
}

/// The smaller of two numbers.
pub open spec fn least(a: nat, b: nat) -> nat {
    if a <= b {
        a
    } else {
        b
    }
}

proof fn lemma_serving_send<T>(capacity: nat, pending: Seq<T>, busy: bool, record: T)
    ensures
        serving(capacity, pending, busy).send(record) == if pending.len() < capacity {
            serving(capacity, pending.push(record), busy)
        } else {
            serving(capacity, pending, busy)
        },
{
    if pending.len() < capacity {
        assert(serving(capacity, pending, busy).send(record).queue =~= serving(
            capacity,
            pending.push(record),
            busy,
        ).queue);
    }
}

proof fn lemma_serving_poll<T>(capacity: nat, pending: Seq<T>, busy: bool)
    ensures
        serving(capacity, pending, busy).poll() == if !busy && pending.len() > 0 {
            serving(capacity, pending.drop_first(), true)
        } else {
            serving(capacity, pending, busy)
        },
        step_yield(serving(capacity, pending, busy), HostStep::Poll) == if !busy && pending.len()
            > 0 {
            seq![pending[0]]
        } else {
            Seq::<T>::empty()
        },
{
    let model = serving(capacity, pending, busy);
    if !busy && pending.len() > 0 {
        assert(model.poll().queue =~= serving(capacity, pending.drop_first(), true).queue);
    }
}

proof fn lemma_turn<T>(model: PipelineModel<T>)
    ensures
        run(model, turn()) == model.poll().complete(),
        delivered(model, turn()) == step_yield(model, HostStep::Poll),
{
    let poll = seq![HostStep::<T>::Poll];
    let none = Seq::<HostStep<T>>::empty();
    assert(turn::<T>().drop_last() =~= poll);
    assert(poll.drop_last() =~= none);
    assert(run(model, none) == model);
    assert(delivered(model, none) == Seq::<T>::empty());
    assert(delivered(model, poll) =~= step_yield(model, HostStep::Poll));
    assert(delivered(model, turn()) =~= step_yield(model, HostStep::Poll));
}

proof fn lemma_turn_from_backlog<T>(capacity: nat, pending: Seq<T>)
    ensures
        run(backlog(capacity, pending), turn()) == if pending.len() > 0 {
            backlog(capacity, pending.drop_first())
        } else {
            backlog(capacity, pending)
        },
        delivered(backlog(capacity, pending), turn()) == if pending.len() > 0 {
            seq![pending[0]]
        } else {
            Seq::<T>::empty()
        },
{
    lemma_turn(backlog(capacity, pending));
    lemma_serving_poll(capacity, pending, false);
}

/// Every transition takes a well-formed pipeline to a well-formed one. In
/// particular no more than `capacity` slots are ever queued at once, and
/// the counter stays accurate.
pub proof fn law_transitions_keep_wf<T>(model: PipelineModel<T>, record: T)
    requires
        model.wf(),
    ensures
        model.send(record).wf(),
        model.offer_sentinel().wf(),
        model.hard_stop().wf(),
        model.poll().wf(),
        model.complete().wf(),
{
    lemma_record_count_bounded(model.queue);
    lemma_record_count_push(model.queue, QueueSlot::Record(record));
    lemma_record_count_push(model.queue, QueueSlot::<T>::Sentinel);
    if model.queue.len() > 0 {
        lemma_record_count_drop_first(model.queue);
    }
}

/// A record sent to a full queue leaves no trace: the pipeline is exactly
/// what it was, so the record can never reach the worker.
pub proof fn law_full_queue_drops<T>(model: PipelineModel<T>, record: T)
    requires
        model.queue.len() >= model.capacity,
    ensures
        model.send(record) == model,
{
}

/// Whatever producers, worker and callers of shutdown do, in whatever
/// order, the pipeline stays well-formed: the counter is accurate and at
/// most `capacity` slots are queued after every step.
pub proof fn law_schedule_keeps_wf<T>(model: PipelineModel<T>, steps: Seq<HostStep<T>>)
    requires
        model.wf(),
    ensures
        run(model, steps).wf(),
        run(model, steps).queue.len() <= model.capacity,
        run(model, steps).capacity == model.capacity,
    decreases steps.len(),
{
    if steps.len() > 0 {
        let before = run(model, steps.drop_last());
        law_schedule_keeps_wf(model, steps.drop_last());
        match steps.last() {
            HostStep::Send(record) => {
                law_transitions_keep_wf(before, record);
            },
            _ => {
                let witness: T = arbitrary();
                law_transitions_keep_wf(before, witness);
            },
        }
    }
}

/// Schedules compose: running one after another is running their
/// concatenation.
pub proof fn lemma_run_concat<T>(
    model: PipelineModel<T>,
    first: Seq<HostStep<T>>,
    second: Seq<HostStep<T>>,
)
    ensures
        run(model, first + second) == run(run(model, first), second),
        delivered(model, first + second) == delivered(model, first) + delivered(
            run(model, first),
            second,
        ),
    decreases second.len(),
{
    if second.len() == 0 {
    } else {
        lemma_run_concat(model, first, second.drop_last());
        assert((first + second).drop_last() =~= first + second.drop_last());
        let mid = run(run(model, first), second.drop_last());
        assert(delivered(model, first) + delivered(run(model, first), second.drop_last())
            + step_yield(mid, second.last()) =~= delivered(model, first) + (delivered(
            run(model, first),
            second.drop_last(),
        ) + step_yield(mid, second.last())));
    }
}

proof fn lemma_burst_from_backlog<T>(capacity: nat, pending: Seq<T>, records: Seq<T>)
    requires
        pending.len() <= capacity,
    ensures
        run(backlog(capacity, pending), burst(records)) == backlog(
            capacity,
            pending + records.take(least(records.len(), (capacity - pending.len()) as nat) as int),
        ),
        delivered(backlog(capacity, pending), burst(records)) == Seq::<T>::empty(),
    decreases records.len(),
{
    let room = (capacity - pending.len()) as nat;
    if records.len() == 0 {
    } else {
        let head = records.drop_last();
        lemma_burst_from_backlog(capacity, pending, head);
        assert(burst(records).drop_last() =~= burst(head));
        let kept = pending + head.take(least(head.len(), room) as int);
        lemma_serving_send(capacity, kept, false, records.last());
        if head.len() < room {
            assert(kept.push(records.last()) =~= pending + records.take(records.len() as int));
        } else {
            assert(head.take(room as int) =~= records.take(room as int));
        }
    }
}

proof fn lemma_rounds_from_backlog<T>(capacity: nat, pending: Seq<T>, rounds: nat)
    ensures
        run(backlog(capacity, pending), work_rounds(rounds)) == backlog(
            capacity,
            pending.skip(least(rounds, pending.len()) as int),
        ),
        delivered(backlog(capacity, pending), work_rounds(rounds)) == pending.take(
            least(rounds, pending.len()) as int,
        ),
    decreases rounds,
{
    if rounds == 0 {
        assert(pending.skip(0) =~= pending);
    } else {
        let earlier = (rounds - 1) as nat;
        lemma_rounds_from_backlog(capacity, pending, earlier);
        lemma_run_concat(backlog(capacity, pending), work_rounds(earlier), turn());
        let done = least(earlier, pending.len());
        let rest = pending.skip(done as int);
        lemma_turn_from_backlog(capacity, rest);
        if earlier < pending.len() {
            assert(rest.drop_first() =~= pending.skip(rounds as int));
        } else {
            assert(pending.take(done as int) + Seq::<T>::empty() =~= pending.take(
                pending.len() as int,
            ));
        }
    }
}

proof fn lemma_rounds_turn_first<T>(rounds: nat)
    requires
        rounds > 0,
    ensures
        work_rounds::<T>(rounds) == turn::<T>() + work_rounds::<T>((rounds - 1) as nat),
    decreases rounds,
{
    if rounds == 1 {
    } else {
        let earlier = (rounds - 1) as nat;
        lemma_rounds_turn_first::<T>(earlier);
        assert((turn::<T>() + work_rounds::<T>((earlier - 1) as nat)) + turn::<T>() =~= turn::<T>()
            + (work_rounds::<T>((earlier - 1) as nat) + turn::<T>()));
    }
}

/// Sends that never outnumber the capacity are never dropped, however
/// they fall between the steps of the worker, as long as nobody shuts the
/// pipeline down: at every moment the records handed to delivery so far,
/// followed by the records still queued, are exactly the records sent, in
/// the order they were sent, and every record not yet done is counted.
pub proof fn law_nothing_lost_within_capacity<T>(capacity: nat, steps: Seq<HostStep<T>>)
    requires
        capacity < usize::MAX,
        undisturbed(steps),
        sends_of(steps).len() <= capacity,
    ensures
        delivered(PipelineModel::<T>::fresh(capacity), steps).len() <= sends_of(steps).len(),
        delivered(PipelineModel::<T>::fresh(capacity), steps) == sends_of(steps).take(
            delivered(PipelineModel::<T>::fresh(capacity), steps).len() as int,
        ),
        run(PipelineModel::<T>::fresh(capacity), steps) == serving(
            capacity,
            sends_of(steps).skip(delivered(PipelineModel::<T>::fresh(capacity), steps).len() as int),
            run(PipelineModel::<T>::fresh(capacity), steps).phase == WorkerPhase::Delivering,
        ),
    decreases steps.len(),
{
    let fresh = PipelineModel::<T>::fresh(capacity);
    if steps.len() == 0 {
        assert(fresh.queue =~= backlog(capacity, Seq::<T>::empty()).queue);
    } else {
        let head = steps.drop_last();
        assert(steps[steps.len() - 1] is Send || steps[steps.len() - 1] is Poll || steps[steps.len()
            - 1] is Complete);
        assert forall|i: int| 0 <= i < head.len() implies (#[trigger] head[i]) is Send
            || head[i] is Poll || head[i] is Complete by {
            assert(head[i] == steps[i]);
        }
        law_nothing_lost_within_capacity(capacity, head);
        let sent = sends_of(head);
        let out = delivered(fresh, head);
        let pending = sent.skip(out.len() as int);
        let busy = run(fresh, head).phase == WorkerPhase::Delivering;
        match steps.last() {
            HostStep::Send(record) => {
                lemma_serving_send(capacity, pending, busy, record);
                assert(pending.push(record) =~= sent.push(record).skip(out.len() as int));
            },
            HostStep::Poll => {
                lemma_serving_poll(capacity, pending, busy);
                if !busy && pending.len() > 0 {
                    assert(pending.drop_first() =~= sent.skip(out.len() as int + 1));
                }
            },
            _ => {},
        }
    }
}

/// When no more records are sent than the queue holds and nobody shuts
/// the pipeline down, the worker processes exactly the records sent, in
/// the order they were sent: once it has had a further turn for every
/// record not yet done, everything sent has been delivered, the queue is
/// empty and nothing is outstanding.
pub proof fn law_all_delivered_in_send_order<T>(
    capacity: nat,
    steps: Seq<HostStep<T>>,
    rounds: nat,
)
    requires
        capacity < usize::MAX,
        undisturbed(steps),
        sends_of(steps).len() <= capacity,
        rounds >= run(PipelineModel::<T>::fresh(capacity), steps).depth,
    ensures
        delivered(PipelineModel::<T>::fresh(capacity), steps + work_rounds(rounds)) == sends_of(
            steps,
        ),
        run(PipelineModel::<T>::fresh(capacity), steps + work_rounds(rounds)) == backlog(
            capacity,
            Seq::<T>::empty(),
        ),
        run(PipelineModel::<T>::fresh(capacity), steps + work_rounds(rounds)).depth == 0,
{
    let fresh = PipelineModel::<T>::fresh(capacity);
    law_nothing_lost_within_capacity(capacity, steps);
    let sent = sends_of(steps);
    let out = delivered(fresh, steps);
    let pending = sent.skip(out.len() as int);
    let reached = run(fresh, steps);
    lemma_run_concat(fresh, steps, work_rounds(rounds));
    assert(pending.skip(pending.len() as int) =~= Seq::<T>::empty());
    if reached.phase == WorkerPhase::Delivering {
        let rest = (rounds - 1) as nat;
        lemma_rounds_turn_first::<T>(rounds);
        lemma_run_concat(reached, turn(), work_rounds(rest));
        lemma_turn(reached);
        lemma_serving_poll(capacity, pending, true);
        lemma_rounds_from_backlog(capacity, pending, rest);
        assert(Seq::<T>::empty() + pending.take(pending.len() as int) =~= pending.take(
            pending.len() as int,
        ));
    } else {
        lemma_rounds_from_backlog(capacity, pending, rounds);
    }
}

/// When records are sent faster than the worker drains, only as many as
/// the queue holds are kept: after a burst into a fresh pipeline the queue
/// holds the first `capacity` records and no more, and however long the
/// worker runs afterwards it delivers those, in order, and none of the
/// excess.
pub proof fn law_burst_beyond_capacity<T>(capacity: nat, records: Seq<T>, rounds: nat)
    requires
        capacity < usize::MAX,
    ensures
        run(PipelineModel::<T>::fresh(capacity), burst(records)) == backlog(
            capacity,
            records.take(least(records.len(), capacity) as int),
        ),
        run(PipelineModel::<T>::fresh(capacity), burst(records)).queue.len() == least(
            records.len(),
            capacity,
        ),
        delivered(PipelineModel::<T>::fresh(capacity), burst(records) + work_rounds(rounds))
            == records.take(least(rounds, least(records.len(), capacity)) as int),
{
    let fresh = PipelineModel::<T>::fresh(capacity);
    let kept = records.take(least(records.len(), capacity) as int);
    assert(fresh.queue =~= backlog(capacity, Seq::<T>::empty()).queue);
    lemma_burst_from_backlog(capacity, Seq::<T>::empty(), records);
    lemma_run_concat(fresh, burst(records), work_rounds(rounds));
    lemma_rounds_from_backlog(capacity, kept, rounds);
    assert(Seq::<T>::empty() + kept.take(least(rounds, kept.len()) as int) =~= records.take(
        least(rounds, least(records.len(), capacity)) as int,
    ));
}

/// The wake signal fires exactly when the backlog is gone: while the
/// worker drains a backlog, the end of a delivery attempt signals if and
/// only if it was the attempt on the last record outstanding.
pub proof fn law_signal_fires_when_backlog_drains<T>(capacity: nat, pending: Seq<T>, rounds: nat)
    requires
        rounds < pending.len(),
    ensures
        run(backlog(capacity, pending), work_rounds(rounds)).poll().completion_signals() == (rounds
            + 1 == pending.len()),
{
    lemma_rounds_from_backlog(capacity, pending, rounds);
}

/// A worker that has ended takes nothing more: whatever happens
/// afterwards, nothing is delivered, the worker stays ended, and the slots
/// that were queued when it ended stay queued, in their places. A sentinel
/// that a second caller of shutdown got into the queue is among them.
pub proof fn law_ended_worker_takes_nothing<T>(model: PipelineModel<T>, steps: Seq<HostStep<T>>)
    requires
        model.phase == WorkerPhase::Stopped,
    ensures
        delivered(model, steps) == Seq::<T>::empty(),
        run(model, steps).phase == WorkerPhase::Stopped,
        model.queue.len() <= run(model, steps).queue.len(),
        run(model, steps).queue.take(model.queue.len() as int) == model.queue,
    decreases steps.len(),
{
    if steps.len() == 0 {
    } else {
        law_ended_worker_takes_nothing(model, steps.drop_last());
        let before = run(model, steps.drop_last());
        let after = run(model, steps);
        assert(after.queue.take(model.queue.len() as int) =~= before.queue.take(
            model.queue.len() as int,
        ));
    }
}

/// A hard stop abandons the backlog: once the flag is up, the next slot
/// the worker takes (a queued record, or the sentinel that the stop itself
/// put in) ends it, the counter is cleared, and nothing is delivered
/// afterwards, whatever happens.
pub proof fn law_hard_stop_abandons_backlog<T>(model: PipelineModel<T>, steps: Seq<HostStep<T>>)
    requires
        model.phase == WorkerPhase::Waiting,
        model.queue.len() > 0 || model.capacity > 0,
    ensures
        model.hard_stop().polled() == Some(WorkerAction::<T>::HardStop),
        model.hard_stop().poll().depth == 0,
        model.hard_stop().poll().phase == WorkerPhase::Stopped,
        delivered(model.hard_stop().poll(), steps) == Seq::<T>::empty(),
        run(model.hard_stop().poll(), steps).phase == WorkerPhase::Stopped,
{
    law_ended_worker_takes_nothing(model.hard_stop().poll(), steps);
}

/// The shutdown flag never comes down: once it is up, it is up after
/// every schedule.
pub proof fn law_flag_stays_up<T>(model: PipelineModel<T>, steps: Seq<HostStep<T>>)
    requires
        model.hard_stop,
    ensures
        run(model, steps).hard_stop,
    decreases steps.len(),
{
    if steps.len() > 0 {
        law_flag_stays_up(model, steps.drop_last());
    }
}

/// A shutdown that finds nothing outstanding returns `true` at once: the
/// sentinel is offered, the result follows whatever became of the offer,
/// and no wait is ever asked for.
pub proof fn law_idle_shutdown_is_immediate(timeout: Duration, accepted: bool)
    ensures
        next_action(ShutdownStage::Start, ShutdownEvent::Begin { depth: 0 }, timeout) == Some(
            ShutdownAction::OfferSentinel,
        ),
        next_action(
            next_stage(ShutdownStage::Start, ShutdownEvent::Begin { depth: 0 }),
            ShutdownEvent::Offered { accepted },
            timeout,
        ) == Some(ShutdownAction::Finish(true)),
        next_stage(
            next_stage(ShutdownStage::Start, ShutdownEvent::Begin { depth: 0 }),
            ShutdownEvent::Offered { accepted },
        ) == ShutdownStage::Done(true),
{
}

/// The stage a call with a backlog has reached when its wait begins: the
/// sentinel went in at the first offer, or after an enqueue with waiting.
pub open spec fn stage_before_wait(depth: usize, accepted: bool) -> ShutdownStage {
    let offered = next_stage(
        next_stage(ShutdownStage::Start, ShutdownEvent::Begin { depth }),
        ShutdownEvent::Offered { accepted },
    );
    if accepted {
        offered
    } else {
        next_stage(offered, ShutdownEvent::Pushed)
    }
}

/// A shutdown that finds a backlog waits once, bounded by the timeout it
/// was called with, whether the sentinel went in at the first offer or
/// only after an enqueue with waiting. It returns `true` if the backlog
/// drained before the deadline and `false` if the deadline passed first.
pub proof fn law_backlog_shutdown_reports_drain(
    depth: usize,
    timeout: Duration,
    accepted: bool,
    signalled: bool,
)
    requires
        depth > 0,
    ensures
        stage_before_wait(depth, accepted) == ShutdownStage::Waiting,
        next_action(
            next_stage(ShutdownStage::Start, ShutdownEvent::Begin { depth }),
            ShutdownEvent::Offered { accepted },
            timeout,
        ) == Some(
            if accepted {
                ShutdownAction::Wait(timeout)
            } else {
                ShutdownAction::PushSentinel
            },
        ),
        next_action(ShutdownStage::Pushing, ShutdownEvent::Pushed, timeout) == Some(
            ShutdownAction::Wait(timeout),
        ),
        next_action(
            stage_before_wait(depth, accepted),
            ShutdownEvent::WaitEnded { signalled },
            timeout,
        ) == Some(ShutdownAction::Finish(signalled)),
        next_stage(stage_before_wait(depth, accepted), ShutdownEvent::WaitEnded { signalled })
            == ShutdownStage::Done(signalled),
{
}

/// A pipeline at the moment a shutdown begins to wait: the worker is
/// ready, the flag is down, and the queue holds the backlog followed by
/// the sentinel.
pub open spec fn draining<T>(capacity: nat, pending: Seq<T>) -> PipelineModel<T> {
    PipelineModel {
        queue: backlog(capacity, pending).queue.push(QueueSlot::Sentinel),
        ..backlog(capacity, pending)
    }
}

/// Whether the wake signal fires during a wait in which the worker gets
/// `rounds` turns: one of those turns ends a delivery attempt that takes
/// the counter to zero.
pub open spec fn signalled_within<T>(model: PipelineModel<T>, rounds: nat) -> bool {
    exists|before: nat|
        before < rounds && (#[trigger] run(
            model,
            work_rounds::<T>(before),
        )).poll().completion_signals()
}

proof fn lemma_draining_turn<T>(capacity: nat, pending: Seq<T>)
    requires
        pending.len() > 0,
    ensures
        run(draining(capacity, pending), turn()) == draining(capacity, pending.drop_first()),
        draining(capacity, pending).poll().completion_signals() == (pending.len() == 1),
{
    let model = draining(capacity, pending);
    lemma_turn(model);
    assert(model.poll().complete().queue =~= draining(capacity, pending.drop_first()).queue);
}

proof fn lemma_draining_rounds<T>(capacity: nat, pending: Seq<T>, rounds: nat)
    requires
        rounds <= pending.len(),
    ensures
        run(draining(capacity, pending), work_rounds(rounds)) == draining(
            capacity,
            pending.skip(rounds as int),
        ),
    decreases rounds,
{
    if rounds == 0 {
        assert(pending.skip(0) =~= pending);
    } else {
        let earlier = (rounds - 1) as nat;
        lemma_draining_rounds(capacity, pending, earlier);
        lemma_run_concat(draining(capacity, pending), work_rounds(earlier), turn());
        lemma_draining_turn(capacity, pending.skip(earlier as int));
        assert(pending.skip(earlier as int).drop_first() =~= pending.skip(rounds as int));
    }
}

/// A shutdown that waits for a backlog returns `true` exactly when the
/// backlog drains in time. If the worker gets `rounds` turns while the
/// caller waits, the wake signal fires within the wait if and only if
/// those turns are enough for every record outstanding, and the call
/// returns just that.
pub proof fn law_shutdown_tells_whether_drained_in_time<T>(
    capacity: nat,
    pending: Seq<T>,
    rounds: nat,
    timeout: Duration,
)
    requires
        pending.len() > 0,
    ensures
        signalled_within(draining(capacity, pending), rounds) == (rounds >= pending.len()),
        next_action(
            ShutdownStage::Waiting,
            ShutdownEvent::WaitEnded {
                signalled: signalled_within(draining(capacity, pending), rounds),
            },
            timeout,
        ) == Some(ShutdownAction::Finish(rounds >= pending.len())),
{
    let start = draining(capacity, pending);
    if rounds >= pending.len() {
        let last = (pending.len() - 1) as nat;
        lemma_draining_rounds(capacity, pending, last);
        lemma_draining_turn(capacity, pending.skip(last as int));
    } else {
        assert forall|before: nat| before < rounds implies !(#[trigger] run(
            start,
            work_rounds::<T>(before),
        )).poll().completion_signals() by {
            lemma_draining_rounds(capacity, pending, before);
            lemma_draining_turn(capacity, pending.skip(before as int));
        }
    }
}

/// Every call has exactly one result. A result is handed out only by the
/// step that ends the call, it is the result the call then holds, and a
/// call that is over answers no further event and keeps its result.
pub proof fn law_one_result_per_call(
    stage: ShutdownStage,
    event: ShutdownEvent,
    timeout: Duration,
    result: bool,
)
    ensures
        next_action(stage, event, timeout) == Some(ShutdownAction::Finish(result)) <==> !(stage is Done)
            && next_stage(stage, event) == ShutdownStage::Done(result),
        stage is Done ==> next_stage(stage, event) == stage && next_action(stage, event, timeout)
            is None,
{
}

} // verus!
