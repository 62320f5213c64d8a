use rollbar_rust::configuration::Configuration;
use rollbar_rust::transport::model::WorkerPhase;
use rollbar_rust::transport::pipeline::Pipeline;
use rollbar_rust::transport::shutdown::{
    ShutdownAction, ShutdownCall, ShutdownEvent, ShutdownPhase, ShutdownStage,
};
use rollbar_rust::transport::worker::{DeliveryOutcome, WorkerAction};
use std::time::Duration;

/// Lets the worker run until it has nothing to do, and returns what it
/// delivered.
fn drain(pipeline: &mut Pipeline<u32>) -> Vec<u32> {
    let mut out = Vec::new();
    while let Some(WorkerAction::Deliver(record)) = pipeline.poll() {
        out.push(record);
        pipeline.complete(DeliveryOutcome::Acknowledged);
    }
    out
}

/// Plays the host of one `shutdown` call on a single thread. While the
/// caller waits, the worker runs on a simulated clock and takes `cost`
/// for each delivery; a delivery that would end after the deadline does
/// not end within the wait.
fn shutdown(pipeline: &mut Pipeline<u32>, timeout: Duration, cost: Duration, log: &mut Vec<u32>) -> bool {
    let mut call = ShutdownCall::new(timeout);
    let mut action = call.step(ShutdownEvent::Begin { depth: pipeline.depth() });
    loop {
        match action {
            Some(ShutdownAction::OfferSentinel) => {
                let accepted = pipeline.offer_sentinel();
                action = call.step(ShutdownEvent::Offered { accepted });
            }
            Some(ShutdownAction::PushSentinel) => {
                while !pipeline.offer_sentinel() {
                    match pipeline.poll() {
                        Some(WorkerAction::Deliver(record)) => {
                            log.push(record);
                            pipeline.complete(DeliveryOutcome::Acknowledged);
                        }
                        _ => panic!("a full queue holds something to deliver"),
                    }
                }
                action = call.step(ShutdownEvent::Pushed);
            }
            Some(ShutdownAction::Wait(limit)) => {
                assert_eq!(limit, timeout);
                let mut elapsed = Duration::ZERO;
                let mut signalled = false;
                while !signalled && elapsed + cost <= limit {
                    match pipeline.poll() {
                        Some(WorkerAction::Deliver(record)) => {
                            elapsed += cost;
                            log.push(record);
                            signalled = pipeline.complete(DeliveryOutcome::Acknowledged);
                        }
                        Some(WorkerAction::HardStop) => signalled = true,
                        _ => break,
                    }
                }
                action = call.step(ShutdownEvent::WaitEnded { signalled });
            }
            Some(ShutdownAction::Finish(result)) => {
                assert_eq!(call.result(), Some(result));
                assert_eq!(call.phase(), ShutdownPhase::Stopped);
                return result;
            }
            None => panic!("the call stalled"),
        }
    }
}

#[test]
fn sends_within_capacity_are_delivered_in_order() {
    let mut pipeline: Pipeline<u32> = Pipeline::new(Configuration::default(), 5);
    for record in [10, 20, 30, 40, 50] {
        pipeline.send(record);
    }
    assert_eq!(pipeline.queued(), 5);
    assert_eq!(pipeline.depth(), 5);
    assert_eq!(drain(&mut pipeline), vec![10, 20, 30, 40, 50]);
    assert_eq!(pipeline.queued(), 0);
    assert_eq!(pipeline.depth(), 0);
}

#[test]
fn interleaved_sends_within_capacity_lose_nothing() {
    let mut pipeline: Pipeline<u32> = Pipeline::new(Configuration::default(), 3);
    let mut out = Vec::new();
    pipeline.send(1);
    pipeline.send(2);
    out.extend(drain(&mut pipeline));
    pipeline.send(3);
    assert_eq!(pipeline.poll(), Some(WorkerAction::Deliver(3)));
    assert_eq!(pipeline.phase(), WorkerPhase::Delivering);
    assert_eq!(pipeline.depth(), 1);
    assert_eq!(pipeline.poll(), None);
    assert!(pipeline.complete(DeliveryOutcome::Failed));
    out.push(3);
    assert_eq!(out, vec![1, 2, 3]);
    assert_eq!(pipeline.depth(), 0);
}

#[test]
fn burst_beyond_capacity_keeps_the_first_and_drops_the_rest() {
    let mut pipeline: Pipeline<u32> = Pipeline::new(Configuration::default(), 50);
    for record in 0..80 {
        pipeline.send(record);
        assert!(pipeline.queued() <= 50);
    }
    assert_eq!(pipeline.queued(), 50);
    assert_eq!(pipeline.depth(), 50);
    let out = drain(&mut pipeline);
    assert_eq!(out, (0..50).collect::<Vec<u32>>());
    assert_eq!(drain(&mut pipeline), Vec::<u32>::new());
}

#[test]
fn capacity_two_keeps_two_of_three_then_shutdown_is_true() {
    let mut pipeline: Pipeline<u32> = Pipeline::new(Configuration::default(), 2);
    pipeline.send(1);
    pipeline.send(2);
    pipeline.send(3);
    assert_eq!(pipeline.queued(), 2);
    assert_eq!(pipeline.depth(), 2);
    assert_eq!(drain(&mut pipeline), vec![1, 2]);
    let mut log = Vec::new();
    assert!(shutdown(&mut pipeline, Duration::from_secs(5), Duration::from_millis(1), &mut log));
    assert!(log.is_empty());
}

#[test]
fn slow_worker_times_out_then_drains() {
    let mut pipeline: Pipeline<u32> = Pipeline::new(Configuration::default(), 50);
    for record in 0..50 {
        pipeline.send(record);
    }
    let cost = Duration::from_millis(100);
    let mut log = Vec::new();
    // The queue is full, so the sentinel goes in only after the worker has
    // made room; two more deliveries fit into the wait that follows.
    assert!(!shutdown(&mut pipeline, Duration::from_millis(200), cost, &mut log));
    assert_eq!(log, vec![0, 1, 2]);
    assert_eq!(pipeline.depth(), 47);
    // The caller waits outside while the worker goes on.
    loop {
        match pipeline.poll() {
            Some(WorkerAction::Deliver(record)) => {
                log.push(record);
                pipeline.complete(DeliveryOutcome::Acknowledged);
            }
            _ => break,
        }
    }
    assert_eq!(log, (0..50).collect::<Vec<u32>>());
    assert_eq!(pipeline.depth(), 0);
    assert!(shutdown(&mut pipeline, Duration::from_millis(200), cost, &mut log));
    assert_eq!(log.len(), 50);
}

#[test]
fn hard_stop_abandons_the_backlog() {
    let mut pipeline: Pipeline<u32> = Pipeline::new(Configuration::default(), 50);
    for record in 0..10 {
        pipeline.send(record);
    }
    assert_eq!(pipeline.poll(), Some(WorkerAction::Deliver(0)));
    pipeline.hard_stop();
    assert!(pipeline.is_hard_stopped());
    assert!(!pipeline.complete(DeliveryOutcome::Acknowledged));
    assert_eq!(pipeline.depth(), 9);
    assert_eq!(pipeline.poll(), Some(WorkerAction::HardStop));
    assert_eq!(pipeline.depth(), 0);
    assert_eq!(pipeline.phase(), WorkerPhase::Stopped);
    for _ in 0..20 {
        assert_eq!(pipeline.poll(), Some(WorkerAction::Stop));
    }
    assert_eq!(pipeline.depth(), 0);
    assert_eq!(pipeline.queued(), 9);
}

#[test]
fn hard_stop_on_an_empty_queue_ends_the_worker_at_the_sentinel() {
    let mut pipeline: Pipeline<u32> = Pipeline::new(Configuration::default(), 4);
    assert_eq!(pipeline.poll(), None);
    pipeline.hard_stop();
    assert_eq!(pipeline.queued(), 1);
    assert_eq!(pipeline.poll(), Some(WorkerAction::HardStop));
    assert_eq!(pipeline.depth(), 0);
}

#[test]
fn shutdown_with_nothing_outstanding_is_immediate() {
    let mut call = ShutdownCall::new(Duration::from_secs(5));
    assert_eq!(call.phase(), ShutdownPhase::Idle);
    assert_eq!(call.result(), None);
    assert_eq!(call.step(ShutdownEvent::Begin { depth: 0 }), Some(ShutdownAction::OfferSentinel));
    assert_eq!(call.phase(), ShutdownPhase::Draining);
    assert_eq!(
        call.step(ShutdownEvent::Offered { accepted: false }),
        Some(ShutdownAction::Finish(true))
    );
    assert_eq!(call.stage(), ShutdownStage::Done(true));
    assert_eq!(call.result(), Some(true));
}

#[test]
fn shutdown_result_is_the_outcome_of_the_wait() {
    let timeout = Duration::from_millis(250);
    for signalled in [true, false] {
        let mut call = ShutdownCall::new(timeout);
        assert_eq!(call.step(ShutdownEvent::Begin { depth: 3 }), Some(ShutdownAction::OfferSentinel));
        assert_eq!(
            call.step(ShutdownEvent::Offered { accepted: true }),
            Some(ShutdownAction::Wait(timeout))
        );
        assert_eq!(
            call.step(ShutdownEvent::WaitEnded { signalled }),
            Some(ShutdownAction::Finish(signalled))
        );
        assert_eq!(call.result(), Some(signalled));
    }
}

#[test]
fn shutdown_on_a_full_queue_pushes_then_waits_with_the_same_timeout() {
    let timeout = Duration::from_secs(2);
    let mut call = ShutdownCall::new(timeout);
    assert_eq!(call.step(ShutdownEvent::Begin { depth: 50 }), Some(ShutdownAction::OfferSentinel));
    assert_eq!(
        call.step(ShutdownEvent::Offered { accepted: false }),
        Some(ShutdownAction::PushSentinel)
    );
    assert_eq!(call.stage(), ShutdownStage::Pushing);
    assert_eq!(call.step(ShutdownEvent::Pushed), Some(ShutdownAction::Wait(timeout)));
    assert_eq!(
        call.step(ShutdownEvent::WaitEnded { signalled: false }),
        Some(ShutdownAction::Finish(false))
    );
}

#[test]
fn shutdown_ignores_events_out_of_turn_and_has_one_result() {
    let mut call = ShutdownCall::new(Duration::from_secs(1));
    assert_eq!(call.step(ShutdownEvent::Pushed), None);
    assert_eq!(call.step(ShutdownEvent::WaitEnded { signalled: true }), None);
    assert_eq!(call.stage(), ShutdownStage::Start);
    call.step(ShutdownEvent::Begin { depth: 1 });
    call.step(ShutdownEvent::Offered { accepted: true });
    assert_eq!(call.step(ShutdownEvent::Begin { depth: 0 }), None);
    assert_eq!(
        call.step(ShutdownEvent::WaitEnded { signalled: true }),
        Some(ShutdownAction::Finish(true))
    );
    assert_eq!(call.step(ShutdownEvent::WaitEnded { signalled: false }), None);
    assert_eq!(call.step(ShutdownEvent::Begin { depth: 0 }), None);
    assert_eq!(call.result(), Some(true));
}

#[test]
fn shutdown_on_a_full_queue_with_a_working_worker() {
    let mut pipeline: Pipeline<u32> = Pipeline::new(Configuration::default(), 3);
    for record in 0..3 {
        pipeline.send(record);
    }
    let mut log = Vec::new();
    assert!(shutdown(&mut pipeline, Duration::from_secs(5), Duration::from_millis(10), &mut log));
    assert_eq!(log, vec![0, 1, 2]);
    assert_eq!(pipeline.depth(), 0);
    // The sentinel is still queued; the worker ends when it takes it.
    assert_eq!(pipeline.poll(), Some(WorkerAction::Stop));
    assert_eq!(pipeline.phase(), WorkerPhase::Stopped);
}

#[test]
fn overlapping_shutdowns_each_get_one_result() {
    let mut pipeline: Pipeline<u32> = Pipeline::new(Configuration::default(), 10);
    pipeline.send(1);
    pipeline.send(2);
    let timeout = Duration::from_secs(1);
    let mut first = ShutdownCall::new(timeout);
    let mut second = ShutdownCall::new(timeout);
    first.step(ShutdownEvent::Begin { depth: pipeline.depth() });
    second.step(ShutdownEvent::Begin { depth: pipeline.depth() });
    let a = pipeline.offer_sentinel();
    let b = pipeline.offer_sentinel();
    assert_eq!(first.step(ShutdownEvent::Offered { accepted: a }), Some(ShutdownAction::Wait(timeout)));
    assert_eq!(second.step(ShutdownEvent::Offered { accepted: b }), Some(ShutdownAction::Wait(timeout)));
    assert_eq!(pipeline.queued(), 4);
    assert_eq!(drain(&mut pipeline), vec![1, 2]);
    // Both waiters see the one broadcast.
    assert_eq!(
        first.step(ShutdownEvent::WaitEnded { signalled: true }),
        Some(ShutdownAction::Finish(true))
    );
    assert_eq!(
        second.step(ShutdownEvent::WaitEnded { signalled: true }),
        Some(ShutdownAction::Finish(true))
    );
    // The worker ended at the first sentinel and never takes the second.
    assert_eq!(pipeline.phase(), WorkerPhase::Stopped);
    assert_eq!(pipeline.queued(), 1);
    assert_eq!(pipeline.poll(), Some(WorkerAction::Stop));
    assert_eq!(pipeline.queued(), 1);
}

#[test]
fn records_sent_after_the_sentinel_are_never_delivered() {
    let mut pipeline: Pipeline<u32> = Pipeline::new(Configuration::default(), 10);
    pipeline.send(1);
    assert!(pipeline.offer_sentinel());
    pipeline.send(2);
    assert_eq!(pipeline.depth(), 2);
    assert_eq!(drain(&mut pipeline), vec![1]);
    assert_eq!(pipeline.poll(), Some(WorkerAction::Stop));
    assert_eq!(pipeline.depth(), 1);
    assert_eq!(pipeline.queued(), 1);
}

#[test]
fn sentinel_is_not_counted() {
    let mut pipeline: Pipeline<u32> = Pipeline::new(Configuration::default(), 1);
    assert!(pipeline.offer_sentinel());
    assert_eq!(pipeline.depth(), 0);
    assert!(!pipeline.offer_sentinel());
    pipeline.send(5);
    assert_eq!(pipeline.depth(), 0);
    assert_eq!(pipeline.queued(), 1);
}

#[test]
fn pipeline_keeps_its_configuration() {
    let mut conf = Configuration::default();
    conf.access_token = Some("tok".to_owned());
    conf.timeout = 3;
    let mut pipeline: Pipeline<u32> = Pipeline::new(conf, 2);
    pipeline.send(1);
    assert_eq!(pipeline.config().access_token.as_deref(), Some("tok"));
    assert_eq!(pipeline.config().timeout, 3);
}
