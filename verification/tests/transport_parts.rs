use rollbar_rust::configuration::Configuration;
use rollbar_rust::transport::channel::{send_through, settle};
use rollbar_rust::transport::cooperative::{decide_race, CooperativeTransport, LoopAction, RaceOutcome};
use rollbar_rust::transport::depth::DepthCounter;
use rollbar_rust::transport::queue::{DeliveryQueue, QueueSlot, QUEUE_DEPTH};
use rollbar_rust::transport::request::{post_request, request_with_token, ACCESS_TOKEN_HEADER};
use rollbar_rust::transport::worker::{decide, delivered, DeliveryOutcome, WorkerAction, WorkerEvent};

#[test]
fn queue_default_depth_is_fifty() {
    assert_eq!(QUEUE_DEPTH, 50);
}

#[test]
fn queue_is_first_in_first_out() {
    let mut queue: DeliveryQueue<u32> = DeliveryQueue::new(3);
    assert!(queue.is_empty());
    assert_eq!(queue.capacity(), 3);
    assert_eq!(queue.try_enqueue(QueueSlot::Record(1)), Ok(()));
    assert_eq!(queue.try_enqueue(QueueSlot::Sentinel), Ok(()));
    assert_eq!(queue.try_enqueue(QueueSlot::Record(2)), Ok(()));
    assert_eq!(queue.len(), 3);
    assert_eq!(queue.dequeue(), Some(QueueSlot::Record(1)));
    assert_eq!(queue.dequeue(), Some(QueueSlot::Sentinel));
    assert_eq!(queue.dequeue(), Some(QueueSlot::Record(2)));
    assert_eq!(queue.dequeue(), None);
}

#[test]
fn queue_full_offer_hands_slot_back() {
    let mut queue: DeliveryQueue<&str> = DeliveryQueue::new(1);
    assert_eq!(queue.try_enqueue(QueueSlot::Record("a")), Ok(()));
    assert!(queue.is_full());
    assert_eq!(queue.try_enqueue(QueueSlot::Record("b")), Err(QueueSlot::Record("b")));
    assert_eq!(queue.try_enqueue(QueueSlot::Sentinel), Err(QueueSlot::Sentinel));
    assert_eq!(queue.len(), 1);
    assert_eq!(queue.dequeue(), Some(QueueSlot::Record("a")));
    assert!(!queue.is_full());
    assert_eq!(queue.try_enqueue(QueueSlot::Record("c")), Ok(()));
}

#[test]
fn queue_of_capacity_zero_takes_nothing() {
    let mut queue: DeliveryQueue<u8> = DeliveryQueue::new(0);
    assert!(queue.is_full());
    assert!(queue.is_empty());
    assert_eq!(queue.try_enqueue(QueueSlot::Record(9)), Err(QueueSlot::Record(9)));
    assert_eq!(queue.dequeue(), None);
}

#[test]
fn depth_counter_reserve_release_complete() {
    let mut depth = DepthCounter::new();
    assert!(depth.is_idle());
    assert!(depth.reserve());
    assert!(depth.reserve());
    assert_eq!(depth.get(), 2);
    depth.release();
    assert_eq!(depth.get(), 1);
    assert!(depth.complete());
    assert_eq!(depth.get(), 0);
    assert!(depth.is_idle());
}

#[test]
fn depth_counter_signals_only_at_zero() {
    let mut depth = DepthCounter::new();
    for _ in 0..3 {
        assert!(depth.reserve());
    }
    assert!(!depth.complete());
    assert!(!depth.complete());
    assert!(depth.complete());
}

#[test]
fn depth_counter_never_goes_below_zero() {
    let mut depth = DepthCounter::new();
    depth.release();
    assert_eq!(depth.get(), 0);
    assert!(depth.complete());
    assert_eq!(depth.get(), 0);
    assert!(depth.reserve());
    depth.reset();
    assert_eq!(depth.get(), 0);
    depth.release();
    assert_eq!(depth.get(), 0);
}

#[test]
fn worker_decision_table() {
    assert_eq!(decide(WorkerEvent::Slot(QueueSlot::Record(7)), false), WorkerAction::Deliver(7));
    assert_eq!(decide(WorkerEvent::Slot(QueueSlot::<u8>::Sentinel), false), WorkerAction::Stop);
    assert_eq!(decide(WorkerEvent::Slot(QueueSlot::Record(7)), true), WorkerAction::HardStop);
    assert_eq!(decide(WorkerEvent::Slot(QueueSlot::<u8>::Sentinel), true), WorkerAction::HardStop);
    assert_eq!(decide(WorkerEvent::<u8>::Closed, false), WorkerAction::Stop);
    assert_eq!(decide(WorkerEvent::<u8>::Closed, true), WorkerAction::Stop);
}

#[test]
fn unreadable_answer_still_counts_as_sent() {
    assert!(delivered(DeliveryOutcome::Acknowledged));
    assert!(delivered(DeliveryOutcome::Unreadable));
    assert!(!delivered(DeliveryOutcome::Failed));
}

#[test]
fn request_carries_endpoint_and_token() {
    let mut conf = Configuration::default();
    conf.timeout = 7;
    let request = request_with_token(&conf, "abc123");
    assert_eq!(request.endpoint, "https://api.rollbar.com/api/1/item/");
    assert_eq!(request.access_token, "abc123");
    assert_eq!(request.timeout, 7);
    assert_eq!(ACCESS_TOKEN_HEADER, "X-Rollbar-Access-Token");
}

#[test]
fn post_request_needs_a_token() {
    let mut conf = Configuration::default();
    assert!(post_request(&conf).is_none());
    conf.access_token = Some("tok".to_owned());
    conf.endpoint = "http://localhost:8080/item/".to_owned();
    let request = post_request(&conf).unwrap();
    assert_eq!(request.endpoint, "http://localhost:8080/item/");
    assert_eq!(request.access_token, "tok");
    assert_eq!(request.timeout, 10);
}

#[test]
fn race_decision_table() {
    assert_eq!(decide_race(RaceOutcome::<u8>::Cancelled), LoopAction::Stop);
    assert_eq!(decide_race(RaceOutcome::Next(Some(3u8))), LoopAction::Deliver(3));
    assert_eq!(decide_race(RaceOutcome::<u8>::Next(None)), LoopAction::Continue);
}

#[test]
fn cooperative_transport_drops_when_full() {
    let mut transport: CooperativeTransport<u32> = CooperativeTransport::new(Configuration::default(), 2);
    transport.send(1);
    transport.send(2);
    transport.send(3);
    assert_eq!(transport.queued(), 2);
    assert_eq!(transport.poll(), LoopAction::Deliver(1));
    assert_eq!(transport.poll(), LoopAction::Deliver(2));
    assert_eq!(transport.poll(), LoopAction::Continue);
    assert_eq!(transport.config().timeout, 10);
}

#[test]
fn cooperative_shutdown_is_immediate_and_one_shot() {
    let mut transport: CooperativeTransport<u32> = CooperativeTransport::new(Configuration::default(), 50);
    for i in 0..5 {
        transport.send(i);
    }
    assert_eq!(transport.poll(), LoopAction::Deliver(0));
    assert!(transport.shutdown());
    assert_eq!(transport.poll(), LoopAction::Stop);
    assert_eq!(transport.queued(), 4);
    assert!(!transport.shutdown());
    assert_eq!(transport.poll(), LoopAction::Stop);
}

#[test]
fn send_through_a_channel_reserves_and_releases() {
    let (tx, mut rx) = tokio::sync::mpsc::channel::<QueueSlot<u32>>(2);
    let mut depth = DepthCounter::new();
    assert!(send_through(&mut depth, &tx, 1));
    assert!(send_through(&mut depth, &tx, 2));
    assert!(!send_through(&mut depth, &tx, 3));
    assert_eq!(depth.get(), 2);
    assert_eq!(rx.try_recv().ok(), Some(QueueSlot::Record(1)));
    assert!(depth.complete() == false);
    assert!(send_through(&mut depth, &tx, 4));
    assert_eq!(depth.get(), 2);
    assert_eq!(rx.try_recv().ok(), Some(QueueSlot::Record(2)));
    assert_eq!(rx.try_recv().ok(), Some(QueueSlot::Record(4)));
    assert!(rx.try_recv().is_err());
}

#[test]
fn send_through_a_closed_channel_drops_the_record() {
    let (tx, rx) = tokio::sync::mpsc::channel::<QueueSlot<u32>>(2);
    drop(rx);
    let mut depth = DepthCounter::new();
    assert!(!send_through(&mut depth, &tx, 1));
    assert_eq!(depth.get(), 0);
}

#[test]
fn settle_gives_back_the_reservation_of_a_rejected_record() {
    let mut depth = DepthCounter::new();
    assert!(depth.reserve());
    assert!(depth.reserve());
    settle(&mut depth, true);
    assert_eq!(depth.get(), 2);
    settle(&mut depth, false);
    assert_eq!(depth.get(), 1);
    settle(&mut depth, false);
    settle(&mut depth, false);
    assert_eq!(depth.get(), 0);
}
