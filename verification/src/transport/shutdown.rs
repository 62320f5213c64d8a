//! The shutdown handshake: a caller asks the worker to stop and waits, no
//! longer than its timeout, for the backlog to drain.
//!
//! One call is a small machine. The host feeds it what happened (the
//! counter as read under its lock, whether the queue took the sentinel,
//! how the wait ended) and carries out the action it answers with. The
//! machine never waits itself.
//!
//! Calls are not serialised against each other. Two calls that overlap
//! each run their own machine to exactly one result, but both may get a
//! sentinel into the queue; the worker ends at the first and never takes
//! the second. A caller must not assume that a second call finds the
//! state the first one left.

use core::time::Duration;
use vstd::prelude::*;

verus! {

/// Where the handshake stands, seen from outside.
#[derive(Clone, Copy, Debug, PartialEq, Eq, Structural)]
pub enum ShutdownPhase {
    /// No shutdown has been asked for.
    Idle,
    /// The sentinel is on its way and the caller waits for the backlog.
    Draining,
    /// The call is over.
    Stopped,
}

/// Progress of one call.
#[derive(Clone, Copy, Debug, PartialEq, Eq, Structural)]
pub enum ShutdownStage {
    /// Nothing has happened yet.
    Start,
    /// Nothing was outstanding: the sentinel is offered as a courtesy and
    /// the call succeeds whatever becomes of the offer.
    Farewell,
    /// A backlog exists and the sentinel has been offered without waiting.
    Offering,
    /// The queue was full: the sentinel is being enqueued with waiting.
    Pushing,
    /// The caller waits for the wake signal.
    Waiting,
    /// The call is over with this result.
    Done(bool),
}

/// What the host reports to the machine.
#[derive(Clone, Copy, Debug, PartialEq, Eq, Structural)]
pub enum ShutdownEvent {
    /// The call begins; `depth` is the counter as read under its lock.
    Begin { depth: usize },
    /// The offer of the sentinel made without waiting has been answered.
    Offered { accepted: bool },
    /// The enqueue of the sentinel made with waiting has gone through.
    Pushed,
    /// The wait is over: the wake signal fired, or the deadline passed.
    WaitEnded { signalled: bool },
}

/// What the host does next.
#[derive(Debug, PartialEq, Eq)]
pub enum ShutdownAction {
    /// Offer the sentinel to the queue without waiting, then report
    /// `Offered`.
    OfferSentinel,
    /// Enqueue the sentinel, waiting for room, then report `Pushed`.
    PushSentinel,
    /// Wait for the wake signal, no longer than this, then report
    /// `WaitEnded`.
    Wait(Duration),
    /// Return this result to the caller.
    Finish(bool),
}

/// The stage that follows `stage` on `event`. An event that does not
/// belong to the stage leaves it unchanged.
pub open spec fn next_stage(stage: ShutdownStage, event: ShutdownEvent) -> ShutdownStage {
    match (stage, event) {
        (ShutdownStage::Start, ShutdownEvent::Begin { depth }) => if depth == 0 {
            ShutdownStage::Farewell
        } else {
            ShutdownStage::Offering
        },
        (ShutdownStage::Farewell, ShutdownEvent::Offered { accepted }) => ShutdownStage::Done(true),
        (ShutdownStage::Offering, ShutdownEvent::Offered { accepted }) => if accepted {
            ShutdownStage::Waiting
        } else {
            ShutdownStage::Pushing
        },
        (ShutdownStage::Pushing, ShutdownEvent::Pushed) => ShutdownStage::Waiting,
        (ShutdownStage::Waiting, ShutdownEvent::WaitEnded { signalled }) => ShutdownStage::Done(
            signalled,
        ),
        _ => stage,
    }
}

/// The action that `event` calls for in `stage`, or nothing for an event
/// that does not belong to the stage. Every wait is bounded by the timeout
/// that the call was made with, also the one that follows a sentinel
/// enqueued with waiting.
pub open spec fn next_action(
    stage: ShutdownStage,
    event: ShutdownEvent,
    timeout: Duration,
) -> Option<ShutdownAction> {
    match (stage, event) {
        (ShutdownStage::Start, ShutdownEvent::Begin { depth }) => Some(
            ShutdownAction::OfferSentinel,
        ),
        (ShutdownStage::Farewell, ShutdownEvent::Offered { accepted }) => Some(
            ShutdownAction::Finish(true),
        ),
        (ShutdownStage::Offering, ShutdownEvent::Offered { accepted }) => if accepted {
            Some(ShutdownAction::Wait(timeout))
        } else {
            Some(ShutdownAction::PushSentinel)
        },
        (ShutdownStage::Pushing, ShutdownEvent::Pushed) => Some(ShutdownAction::Wait(timeout)),
        (ShutdownStage::Waiting, ShutdownEvent::WaitEnded { signalled }) => Some(
            ShutdownAction::Finish(signalled),
        ),
        _ => None,
    }
}

/// The handshake phase that a stage of a call belongs to.
pub open spec fn phase_of(stage: ShutdownStage) -> ShutdownPhase {
    match stage {
        ShutdownStage::Start => ShutdownPhase::Idle,
        ShutdownStage::Done(_) => ShutdownPhase::Stopped,
        _ => ShutdownPhase::Draining,
    }
}

/// One call of `shutdown`.
pub struct ShutdownCall {
    stage: ShutdownStage,
    timeout: Duration,
}

impl ShutdownCall {
    /// The stage the call has reached.
    pub closed spec fn spec_stage(&self) -> ShutdownStage {
        self.stage
    }

    /// The timeout the call was made with.
    pub closed spec fn spec_timeout(&self) -> Duration {
        self.timeout
    }

    /// A call that has not begun, with the caller's bound on the wait.
    pub fn new(timeout: Duration) -> (call: Self)
        ensures
            call.spec_stage() == ShutdownStage::Start,
            call.spec_timeout() == timeout,
    {
        ShutdownCall { stage: ShutdownStage::Start, timeout }
    }

    /// The stage the call has reached.
    pub fn stage(&self) -> (stage: ShutdownStage)
        ensures
            stage == self.spec_stage(),
    {
        self.stage
    }

    /// The handshake phase the call is in.
    pub fn phase(&self) -> (phase: ShutdownPhase)
        ensures
            phase == phase_of(self.spec_stage()),
    {
        match self.stage {
            ShutdownStage::Start => ShutdownPhase::Idle,
            ShutdownStage::Done(_) => ShutdownPhase::Stopped,
            _ => ShutdownPhase::Draining,
        }
    }

    /// The result of the call once it is over: `true` if nothing was
    /// outstanding or the backlog drained before the deadline, `false` if
    /// the deadline passed first.
    pub fn result(&self) -> (result: Option<bool>)
        ensures
            result == match self.spec_stage() {
                ShutdownStage::Done(drained) => Some(drained),
                _ => None::<bool>,
            },
    {
        match self.stage {
            ShutdownStage::Done(drained) => Some(drained),
            _ => None,
        }
    }

    /// Takes in what happened and answers with what to do next. An event
    /// that does not belong to the call's stage changes nothing and is
    /// answered with `None`.
    pub fn step(&mut self, event: ShutdownEvent) -> (action: Option<ShutdownAction>)
        ensures
            final(self).spec_timeout() == old(self).spec_timeout(),
            final(self).spec_stage() == next_stage(old(self).spec_stage(), event),
            action == next_action(old(self).spec_stage(), event, old(self).spec_timeout()),
    {
        let timeout = self.timeout;
        match (self.stage, event) {
            (ShutdownStage::Start, ShutdownEvent::Begin { depth }) => {
                if depth == 0 {
                    self.stage = ShutdownStage::Farewell;
                } else {
                    self.stage = ShutdownStage::Offering;
                }
                Some(ShutdownAction::OfferSentinel)
            },
            (ShutdownStage::Farewell, ShutdownEvent::Offered { accepted: _ }) => {
                self.stage = ShutdownStage::Done(true);
                Some(ShutdownAction::Finish(true))
            },
            (ShutdownStage::Offering, ShutdownEvent::Offered { accepted }) => {
                if accepted {
                    self.stage = ShutdownStage::Waiting;
                    Some(ShutdownAction::Wait(timeout))
                } else {
                    self.stage = ShutdownStage::Pushing;
                    Some(ShutdownAction::PushSentinel)
                }
            },
            (ShutdownStage::Pushing, ShutdownEvent::Pushed) => {
                self.stage = ShutdownStage::Waiting;
                Some(ShutdownAction::Wait(timeout))
            },
            (ShutdownStage::Waiting, ShutdownEvent::WaitEnded { signalled }) => {
                self.stage = ShutdownStage::Done(signalled);
                Some(ShutdownAction::Finish(signalled))
            },
            _ => None,
        }
    }
}

} // verus!
