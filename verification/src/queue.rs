//! The bounded first-in-first-out queue between the button monitors and the
//! LED controller.
//!
//! Nothing here waits. A producer that finds the queue full gets its event
//! back and offers it again once the consumer has taken one out; a consumer
//! that finds the queue empty gets nothing and asks again later. No event is
//! dropped or overwritten.

use embassy_sync::channel::{TryReceiveError, TrySendError};
use vstd::prelude::*;

use crate::channel::{
    channel_items, channel_len, channel_new, channel_try_receive, channel_try_send, EventChannel,
    QUEUE_CAPACITY,
};
use crate::event::ButtonEvent;

verus! {

/// Whether a queue that holds `q` takes another event.
pub open spec fn has_room(q: Seq<ButtonEvent>) -> bool {
    q.len() < QUEUE_CAPACITY
}

/// What a queue that holds `q` holds after `event` was offered to it.
pub open spec fn enqueued(q: Seq<ButtonEvent>, event: ButtonEvent) -> Seq<ButtonEvent> {
    if has_room(q) {
        q.push(event)
    } else {
        q
    }
}

/// What a producer that offers `event` to a queue holding `q` is told: `Ok`
/// if the event was taken in, or the event back if there was no room.
pub open spec fn offer_result(q: Seq<ButtonEvent>, event: ButtonEvent) -> Result<(), ButtonEvent> {
    if has_room(q) {
        Ok(())
    } else {
        Err(event)
    }
}

/// The event that the consumer of a queue holding `q` gets next, if any.
pub open spec fn head(q: Seq<ButtonEvent>) -> Option<ButtonEvent> {
    if q.len() > 0 {
        Some(q[0])
    } else {
        None
    }
}

/// What a queue that holds `q` holds after its consumer asked for an event.
pub open spec fn dequeued(q: Seq<ButtonEvent>) -> Seq<ButtonEvent> {
    if q.len() > 0 {
        q.drop_first()
    } else {
        q
    }
}

/// A queue of at most [`QUEUE_CAPACITY`] events, delivered in arrival order.
pub struct EventQueue {
    channel: EventChannel,
}

impl View for EventQueue {
    type V = Seq<ButtonEvent>;

    /// The undelivered events, oldest first.
    closed spec fn view(&self) -> Seq<ButtonEvent> {
        channel_items(self.channel)
    }
}

impl EventQueue {
    #[verifier::type_invariant]
    spec fn within_capacity(self) -> bool {
        channel_items(self.channel).len() <= QUEUE_CAPACITY
    }

    /// An empty queue.
    pub fn new() -> (q: EventQueue)
        ensures
            q@ == Seq::<ButtonEvent>::empty(),
    {
        EventQueue { channel: channel_new() }
    }

    /// Number of undelivered events.
    pub fn len(&self) -> (n: usize)
        ensures
            n == self@.len(),
            n <= QUEUE_CAPACITY,
    {
        proof {
            use_type_invariant(self);
        }
        channel_len(&self.channel)
    }

    /// Whether no event is waiting.
    pub fn is_empty(&self) -> (empty: bool)
        ensures
            empty == (self@.len() == 0),
    {
        self.len() == 0
    }

    /// Whether the queue refuses another event.
    pub fn is_full(&self) -> (full: bool)
        ensures
            full == !has_room(self@),
            full == (self@.len() == QUEUE_CAPACITY),
    {
        self.len() == QUEUE_CAPACITY
    }

    /// Offers `event` to the queue. With room left the event goes behind
    /// those already waiting; a full queue stays as it is and hands the
    /// event back.
    pub fn try_enqueue(&mut self, event: ButtonEvent) -> (r: Result<(), ButtonEvent>)
        ensures
            final(self)@ == enqueued(old(self)@, event),
            final(self)@.len() <= QUEUE_CAPACITY,
            r == offer_result(old(self)@, event),
    {
        proof {
            use_type_invariant(&*self);
        }
        match channel_try_send(&mut self.channel, event) {
            Ok(()) => Ok(()),
            Err(TrySendError::Full(back)) => Err(back),
        }
    }

    /// Takes the oldest waiting event out of the queue, if there is one.
    pub fn try_dequeue(&mut self) -> (r: Option<ButtonEvent>)
        ensures
            final(self)@ == dequeued(old(self)@),
            final(self)@.len() <= QUEUE_CAPACITY,
            r == head(old(self)@),
    {
        proof {
            use_type_invariant(&*self);
        }
        match channel_try_receive(&mut self.channel) {
            Ok(event) => Some(event),
            Err(TryReceiveError::Empty) => None,
        }
    }
}

/// One call on a queue.
pub enum QueueOp {
    /// A producer offers an event.
    Enqueue(ButtonEvent),
    /// The consumer asks for an event.
    Dequeue,
}

/// A queue together with what has gone into it and come out of it.
pub struct History {
    /// The events that were taken into the queue, in the order they were
    /// taken in.
    pub accepted: Seq<ButtonEvent>,
    /// The events that were handed to the consumer, in the order they were
    /// handed out.
    pub delivered: Seq<ButtonEvent>,
    /// The events still in the queue, oldest first.
    pub waiting: Seq<ButtonEvent>,
}

impl History {
    /// A new queue: nothing has happened yet.
    pub open spec fn start() -> History {
        History { accepted: Seq::empty(), delivered: Seq::empty(), waiting: Seq::empty() }
    }

    /// The history after one more call.
    pub open spec fn step(self, op: QueueOp) -> History {
        match op {
            QueueOp::Enqueue(event) => History {
                accepted: match offer_result(self.waiting, event) {
                    Ok(_) => self.accepted.push(event),
                    Err(_) => self.accepted,
                },
                delivered: self.delivered,
                waiting: enqueued(self.waiting, event),
            },
            QueueOp::Dequeue => History {
                accepted: self.accepted,
                delivered: match head(self.waiting) {
                    Some(event) => self.delivered.push(event),
                    None => self.delivered,
                },
                waiting: dequeued(self.waiting),
            },
        }
    }

    /// The history of a new queue after the calls `ops`, made in order.
    pub open spec fn of(ops: Seq<QueueOp>) -> History
        decreases ops.len(),
    {
        if ops.len() == 0 {
            History::start()
        } else {
            History::of(ops.drop_last()).step(ops.last())
        }
    }
}

/// Whatever calls are made on a queue, and in whatever order, it never holds
/// more than [`QUEUE_CAPACITY`] events.
pub proof fn lemma_never_over_capacity(ops: Seq<QueueOp>)
    ensures
        History::of(ops).waiting.len() <= QUEUE_CAPACITY,
    decreases ops.len(),
{
    if ops.len() > 0 {
        lemma_never_over_capacity(ops.drop_last());
    }
}

/// A full queue refuses a further event and stays as it is; as soon as the
/// consumer has taken one event out, the same event is taken in.
pub proof fn lemma_full_queue_admits_after_dequeue(q: Seq<ButtonEvent>, event: ButtonEvent)
    requires
        q.len() == QUEUE_CAPACITY,
    ensures
        offer_result(q, event) is Err,
        enqueued(q, event) == q,
        offer_result(dequeued(q), event) is Ok,
        enqueued(dequeued(q), event) == q.drop_first().push(event),
{
}

/// Events leave the queue in the order in which they entered it: what has
/// been delivered, followed by what is still waiting, is what was accepted.
/// So the `i`-th event delivered is the `i`-th event accepted, and of two
/// accepted events the earlier is delivered first.
pub proof fn lemma_delivered_in_arrival_order(ops: Seq<QueueOp>)
    ensures
        History::of(ops).accepted == History::of(ops).delivered + History::of(ops).waiting,
        History::of(ops).delivered.len() <= History::of(ops).accepted.len(),
        forall|i: int|
            0 <= i < History::of(ops).delivered.len() ==> History::of(ops).delivered[i]
                == History::of(ops).accepted[i],
    decreases ops.len(),
{
    if ops.len() > 0 {
        lemma_delivered_in_arrival_order(ops.drop_last());
    }
}

} // verus!
