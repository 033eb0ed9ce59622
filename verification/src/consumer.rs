//! The message consumption loop: when to receive, when to pause, when to
//! stop, what to do with each delivered message and how many to work on at
//! once.

use vstd::prelude::*;

verus! {

/// Seconds the loop pauses after the broker failed to deliver.
pub const RECEIVE_BACKOFF_SECS: u64 = 5;

/// What the loop has just seen.
#[derive(Clone, Copy, Debug, PartialEq, Eq, Structural)]
pub enum LoopEvent {
    /// The loop begins.
    Started,
    /// A receive cycle ended without an error.
    ReceiveCompleted,
    /// The broker failed to deliver.
    ReceiveFailed,
    /// The pause after a failure is over.
    BackoffElapsed,
}

/// What the loop does next.
#[derive(Clone, Copy, Debug, PartialEq, Eq, Structural)]
pub enum LoopAction {
    /// Open the subscription and receive.
    Receive,
    /// Pause for the given number of seconds.
    Backoff { seconds: u64 },
    /// Leave the loop.
    Exit,
}

/// The next action of the loop. A broker failure is always followed by the
/// fixed pause; before every new receive cycle the shutdown signal is looked
/// at, and the loop leaves if it was given.
pub open spec fn loop_action(event: LoopEvent, shutdown_requested: bool) -> LoopAction {
    match event {
        LoopEvent::ReceiveFailed => LoopAction::Backoff { seconds: RECEIVE_BACKOFF_SECS },
        _ => if shutdown_requested {
            LoopAction::Exit
        } else {
            LoopAction::Receive
        },
    }
}

/// Decides the next action of the loop.
pub fn next_loop_action(event: LoopEvent, shutdown_requested: bool) -> (action: LoopAction)
    ensures
        action == loop_action(event, shutdown_requested),
{
    match event {
        LoopEvent::ReceiveFailed => LoopAction::Backoff { seconds: RECEIVE_BACKOFF_SECS },
        _ => if shutdown_requested {
            LoopAction::Exit
        } else {
            LoopAction::Receive
        },
    }
}

/// How far the work on one delivered message has come.
#[derive(Clone, Copy, Debug, PartialEq, Eq, Structural)]
pub enum MessageProgress {
    /// The message was delivered and nothing has been done with it.
    Delivered,
    /// The outcome event has been made.
    Handled,
    /// The outcome event has been handed to the publisher.
    Published,
    /// The message has been acknowledged, or the attempt has failed.
    Acknowledged,
}

/// What is done next with a delivered message.
#[derive(Clone, Copy, Debug, PartialEq, Eq, Structural)]
pub enum MessageAction {
    /// Decode the payload and make the outcome event.
    Handle,
    /// Publish the outcome event.
    Publish,
    /// Acknowledge the message.
    Acknowledge,
    /// Leave the message alone: it is not acknowledged and will be
    /// delivered again.
    Skip,
    /// Nothing more.
    Done,
}

/// The next action on a delivered message. A message that arrives after the
/// shutdown signal is left alone; one that was taken up is worked on to the
/// end: handled, then published, then acknowledged.
pub open spec fn message_action(progress: MessageProgress, shutdown_at_delivery: bool) -> MessageAction {
    match progress {
        MessageProgress::Delivered => if shutdown_at_delivery {
            MessageAction::Skip
        } else {
            MessageAction::Handle
        },
        MessageProgress::Handled => MessageAction::Publish,
        MessageProgress::Published => MessageAction::Acknowledge,
        MessageProgress::Acknowledged => MessageAction::Done,
    }
}

/// Decides the next action on a delivered message.
pub fn next_message_action(progress: MessageProgress, shutdown_at_delivery: bool) -> (action:
    MessageAction)
    ensures
        action == message_action(progress, shutdown_at_delivery),
{
    match progress {
        MessageProgress::Delivered => if shutdown_at_delivery {
            MessageAction::Skip
        } else {
            MessageAction::Handle
        },
        MessageProgress::Handled => MessageAction::Publish,
        MessageProgress::Published => MessageAction::Acknowledge,
        MessageProgress::Acknowledged => MessageAction::Done,
    }
}

/// The progress of a message once an action on it has been carried out.
pub open spec fn progress_after(progress: MessageProgress, action: MessageAction) -> MessageProgress {
    match action {
        MessageAction::Handle => MessageProgress::Handled,
        MessageAction::Publish => MessageProgress::Published,
        MessageAction::Acknowledge => MessageProgress::Acknowledged,
        _ => progress,
    }
}

/// Records that an action on a message has been carried out.
pub fn record_message_action(progress: MessageProgress, action: MessageAction) -> (next:
    MessageProgress)
    ensures
        next == progress_after(progress, action),
{
    match action {
        MessageAction::Handle => MessageProgress::Handled,
        MessageAction::Publish => MessageProgress::Published,
        MessageAction::Acknowledge => MessageProgress::Acknowledged,
        _ => progress,
    }
}

/// A message that was taken up is acknowledged after exactly three actions,
/// in the order handle, publish, acknowledge, whether or not the shutdown
/// signal is given meanwhile; and no message is acknowledged before its
/// outcome has been published.
pub proof fn lemma_message_runs_to_completion(shutdown_later: bool)
    ensures
        ({
            let first = message_action(MessageProgress::Delivered, false);
            let second = message_action(
                progress_after(MessageProgress::Delivered, first),
                shutdown_later,
            );
            let after_second = progress_after(
                progress_after(MessageProgress::Delivered, first),
                second,
            );
            let third = message_action(after_second, shutdown_later);
            &&& first == MessageAction::Handle
            &&& second == MessageAction::Publish
            &&& third == MessageAction::Acknowledge
            &&& message_action(progress_after(after_second, third), shutdown_later)
                == MessageAction::Done
        }),
        forall|progress: MessageProgress, shutdown: bool|
            message_action(progress, shutdown) == MessageAction::Acknowledge ==> progress
                == MessageProgress::Published,
{
}

/// The limiter that bounds how many messages are worked on at once.
#[derive(Clone, Copy, Debug)]
pub struct AdmissionLimiter {
    max_concurrent: usize,
    in_flight: usize,
}

impl AdmissionLimiter {
    /// The bound on the messages in work.
    pub closed spec fn limit(self) -> nat {
        self.max_concurrent as nat
    }

    /// The number of messages in work.
    pub closed spec fn admitted(self) -> nat {
        self.in_flight as nat
    }

    #[verifier::type_invariant]
    spec fn within_limit(self) -> bool {
        self.in_flight <= self.max_concurrent
    }

    /// A limiter with the given bound and no message in work.
    pub fn new(max_concurrent: usize) -> (limiter: AdmissionLimiter)
        ensures
            limiter.limit() == max_concurrent,
            limiter.admitted() == 0,
    {
        AdmissionLimiter { max_concurrent, in_flight: 0 }
    }

    pub fn max_concurrent(&self) -> (limit: usize)
        ensures
            limit == self.limit(),
    {
        self.max_concurrent
    }

    pub fn in_flight(&self) -> (count: usize)
        ensures
            count == self.admitted(),
            count <= self.limit(),
    {
        proof {
            use_type_invariant(self);
        }
        self.in_flight
    }

    /// Admits one more message if the bound allows it, and says whether it
    /// did. The number in work never exceeds the bound.
    pub fn try_admit(self) -> (out: (AdmissionLimiter, bool))
        ensures
            out.0.limit() == self.limit(),
            out.1 == (self.admitted() < self.limit()),
            out.0.admitted() == if out.1 {
                self.admitted() + 1
            } else {
                self.admitted()
            },
            out.0.admitted() <= out.0.limit(),
    {
        proof {
            use_type_invariant(self);
        }
        if self.in_flight < self.max_concurrent {
            (
                AdmissionLimiter { max_concurrent: self.max_concurrent, in_flight: self.in_flight + 1 },
                true,
            )
        } else {
            (self, false)
        }
    }

    /// Marks the work on one message as ended, and says whether there was one
    /// in work.
    pub fn release(self) -> (out: (AdmissionLimiter, bool))
        ensures
            out.0.limit() == self.limit(),
            out.1 == (self.admitted() > 0),
            out.0.admitted() == if out.1 {
                self.admitted() - 1
            } else {
                self.admitted() as int
            },
            out.0.admitted() <= out.0.limit(),
    {
        proof {
            use_type_invariant(self);
        }
        if self.in_flight > 0 {
            (
                AdmissionLimiter { max_concurrent: self.max_concurrent, in_flight: self.in_flight - 1 },
                true,
            )
        } else {
            (self, false)
        }
    }
}

} // verus!
