//! Event forwarder: the producer end of the queue that carries events from
//! the dispatcher to the consumer.
//!
//! Pushing never waits. The consumer reads on its own; what this module keeps
//! track of is the sequence of events that the queue has accepted from this
//! producer.

use vstd::prelude::*;
use async_channel::Sender;
use crate::events::UIEvent;
use crate::events::UIEventView;

verus! {

#[verifier::external_type_specification]
#[verifier::external_body]
#[verifier::reject_recursive_types(T)]
pub struct ExSender<T>(async_channel::Sender<T>);

/// The capacity that the channel behind `sender` was created with: `None`
/// for an unbounded channel. It is fixed when the channel is made.
pub uninterp spec fn channel_capacity(sender: Sender<UIEvent>) -> Option<usize>;

/// Why the queue did not take an event. The event comes back untouched.
#[derive(Debug, PartialEq, Eq)]
pub enum SendFailure {
    /// The queue is bounded and has no room.
    Full(UIEvent),
    /// The queue is closed: the consumer is gone.
    Closed(UIEvent),
}

/// `async_channel::Sender::try_send`: pushes `event` without waiting.
///
/// Not proved. The contract claims that a refused event is handed back as
/// it was given, and that only a channel created with a capacity can refuse
/// for want of room. Nothing is claimed of when the channel is closed: that
/// is up to the other end.
#[verifier::external_body]
fn try_send(sender: &Sender<UIEvent>, event: UIEvent) -> (result: Result<(), SendFailure>)
    ensures
        match result {
            Ok(()) => true,
            Err(SendFailure::Full(e)) => e == event && channel_capacity(*sender) is Some,
            Err(SendFailure::Closed(e)) => e == event,
        },
{
    match sender.try_send(event) {
        Ok(()) => Ok(()),
        Err(async_channel::TrySendError::Full(e)) => Err(SendFailure::Full(e)),
        Err(async_channel::TrySendError::Closed(e)) => Err(SendFailure::Closed(e)),
    }
}

/// `async_channel::Sender::capacity`: the capacity the channel was created
/// with, `None` for an unbounded one.
///
/// Not proved. The contract only gives the result its name.
#[verifier::external_body]
fn capacity(sender: &Sender<UIEvent>) -> (capacity: Option<usize>)
    ensures
        capacity == channel_capacity(*sender),
{
    sender.capacity()
}

/// How forwarding one event ended.
#[derive(Debug, PartialEq, Eq)]
pub enum ForwardOutcome {
    /// The queue took the event.
    Delivered,
    /// The consumer end is closed. The event is handed back.
    ConsumerGone(UIEvent),
    /// The queue is bounded and full. The event is handed back.
    QueueFull(UIEvent),
}

impl ForwardOutcome {
    /// Tells whether the queue took the event.
    pub open spec fn accepted(self) -> bool {
        self is Delivered
    }

    /// Reads the result of a push.
    pub fn from_result(result: Result<(), SendFailure>) -> (outcome: ForwardOutcome)
        ensures
            outcome == match result {
                Ok(()) => ForwardOutcome::Delivered,
                Err(SendFailure::Closed(e)) => ForwardOutcome::ConsumerGone(e),
                Err(SendFailure::Full(e)) => ForwardOutcome::QueueFull(e),
            },
    {
        match result {
            Ok(()) => ForwardOutcome::Delivered,
            Err(SendFailure::Closed(e)) => ForwardOutcome::ConsumerGone(e),
            Err(SendFailure::Full(e)) => ForwardOutcome::QueueFull(e),
        }
    }

    /// Tells whether the queue took the event.
    pub fn is_delivered(&self) -> (delivered: bool)
        ensures
            delivered == self.accepted(),
    {
        match self {
            ForwardOutcome::Delivered => true,
            _ => false,
        }
    }
}

/// The events accepted so far, after one more push that was `accepted` or not.
pub open spec fn delivered_after(
    before: Seq<UIEventView>,
    event: UIEventView,
    accepted: bool,
) -> Seq<UIEventView> {
    if accepted {
        before.push(event)
    } else {
        before
    }
}

/// Producer end of the forwarding queue.
pub struct EventForwarder {
    sender: Sender<UIEvent>,
    delivered: Ghost<Seq<UIEventView>>,
}

impl EventForwarder {
    /// The producer handle that events are pushed through.
    pub closed spec fn channel(&self) -> Sender<UIEvent> {
        self.sender
    }

    /// The events that the queue has accepted from this forwarder, oldest
    /// first.
    pub closed spec fn delivered(&self) -> Seq<UIEventView> {
        self.delivered@
    }

    /// Tells whether the queue can hold any number of events.
    pub open spec fn unbounded(&self) -> bool {
        channel_capacity(self.channel()) is None
    }

    /// A forwarder that pushes through `sender` and has delivered nothing
    /// yet.
    pub fn new(sender: Sender<UIEvent>) -> (forwarder: EventForwarder)
        ensures
            forwarder.channel() == sender,
            forwarder.delivered() == Seq::<UIEventView>::empty(),
    {
        EventForwarder { sender, delivered: Ghost(Seq::empty()) }
    }

    /// Tells whether the queue can hold any number of events.
    pub fn is_unbounded(&self) -> (unbounded: bool)
        ensures
            unbounded == self.unbounded(),
    {
        capacity(&self.sender).is_none()
    }

    /// Pushes `event` onto the queue without waiting.
    ///
    /// An accepted event is the newest of the delivered ones; a refused one
    /// comes back in the outcome and leaves no trace. An unbounded queue
    /// refuses only when the consumer is gone.
    pub fn send(&mut self, event: UIEvent) -> (outcome: ForwardOutcome)
        ensures
            final(self).channel() == old(self).channel(),
            final(self).delivered() == delivered_after(
                old(self).delivered(),
                event@,
                outcome.accepted(),
            ),
            outcome matches ForwardOutcome::ConsumerGone(e) ==> e == event,
            outcome matches ForwardOutcome::QueueFull(e) ==> e == event && !old(self).unbounded(),
    {
        let ghost content = event@;
        let outcome = ForwardOutcome::from_result(try_send(&self.sender, event));
        if outcome.is_delivered() {
            self.delivered = Ghost(self.delivered@.push(content));
        }
        outcome
    }
}

} // verus!
