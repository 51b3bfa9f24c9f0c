//! The bounded event channel between the capture source and the forwarder, with its
//! drop-oldest, keep-newest overflow policy.

use crate::event::GlobalInputEvent;
use crossbeam_channel::{Receiver, Sender};
use vstd::prelude::*;

verus! {

pub const INPUT_CHANNEL_CAPACITY: usize = 512;

#[verifier::external_type_specification]
#[verifier::external_body]
#[verifier::reject_recursive_types(T)]
pub struct ExSender<T>(Sender<T>);

#[verifier::external_type_specification]
#[verifier::external_body]
#[verifier::reject_recursive_types(T)]
pub struct ExReceiver<T>(Receiver<T>);

/// The result of one non-blocking send; a refused send hands the event back.
pub enum SendAttempt {
    Sent,
    Full(GlobalInputEvent),
    Disconnected(GlobalInputEvent),
}

/// Which way a send went, without the event.
#[derive(Clone, Copy, Debug, PartialEq, Eq, Structural)]
pub enum SendStatus {
    Sent,
    Full,
    Disconnected,
}

impl SendAttempt {
    pub fn status(&self) -> (r: SendStatus)
        ensures
            self is Sent <==> r == SendStatus::Sent,
            self is Full <==> r == SendStatus::Full,
            self is Disconnected <==> r == SendStatus::Disconnected,
    {
        match self {
            SendAttempt::Sent => SendStatus::Sent,
            SendAttempt::Full(_) => SendStatus::Full,
            SendAttempt::Disconnected(_) => SendStatus::Disconnected,
        }
    }
}

/// What became of an event offered to the channel.
#[derive(Clone, Copy, Debug, PartialEq, Eq, Structural)]
pub enum EnqueueOutcome {
    /// There was room.
    Queued,
    /// The channel was full: `discarded` queued events were dropped and the event
    /// was queued after them.
    QueuedAfterDrain { discarded: usize },
    /// The channel was full and still refused the event after the drain.
    DroppedStillFull { discarded: usize },
    /// The receiving side is gone (shutdown); the event was dropped.
    DroppedDisconnected,
}

/// The bound that a channel was created with, as `Sender::capacity` reports it.
pub uninterp spec fn capacity_of(s: Sender<GlobalInputEvent>) -> Option<usize>;

/// Relies on `crossbeam_channel::bounded`: a channel holding at most `cap` messages,
/// whose `Sender::capacity` is `Some(cap)`. A capacity whose index arithmetic
/// overflows panics; `requires` keeps it far below that.
#[verifier::external_body]
fn bounded_channel(cap: usize) -> (r: (Sender<GlobalInputEvent>, Receiver<GlobalInputEvent>))
    requires
        cap <= 65_536,
    ensures
        capacity_of(r.0) == Some(cap),
{
    crossbeam_channel::bounded(cap)
}

/// Relies on `Sender::try_send`: sends without blocking; `TrySendError::Full` and
/// `TrySendError::Disconnected` carry the message that was offered.
#[verifier::external_body]
fn try_send_event(sender: &Sender<GlobalInputEvent>, event: GlobalInputEvent) -> (r: SendAttempt)
    ensures
        r matches SendAttempt::Full(e) ==> e == event,
        r matches SendAttempt::Disconnected(e) ==> e == event,
{
    match sender.try_send(event) {
        Ok(()) => SendAttempt::Sent,
        Err(crossbeam_channel::TrySendError::Full(e)) => SendAttempt::Full(e),
        Err(crossbeam_channel::TrySendError::Disconnected(e)) => SendAttempt::Disconnected(e),
    }
}

/// Relies on `Receiver::try_recv`: takes a queued message without blocking, `None`
/// when there is none or the channel is disconnected.
#[verifier::external_body]
fn try_recv_event(receiver: &Receiver<GlobalInputEvent>) -> Option<GlobalInputEvent> {
    receiver.try_recv().ok()
}

/// Creates the channel for one start cycle, with room for `INPUT_CHANNEL_CAPACITY` events.
pub fn open_event_channel() -> (r: (Sender<GlobalInputEvent>, Receiver<GlobalInputEvent>))
    ensures
        capacity_of(r.0) == Some(INPUT_CHANNEL_CAPACITY),
{
    bounded_channel(INPUT_CHANNEL_CAPACITY)
}

/// The outcome of an offer, from which way the first send went, how many queued
/// events the drain dropped, and which way the retry after the drain went (`None`
/// when there was no retry).
pub fn outcome_after(first: SendStatus, discarded: usize, retry: Option<SendStatus>) -> (r: EnqueueOutcome)
    ensures
        first == SendStatus::Sent ==> r == EnqueueOutcome::Queued,
        first == SendStatus::Disconnected ==> r == EnqueueOutcome::DroppedDisconnected,
        first == SendStatus::Full && retry == Some(SendStatus::Sent) ==> r == (EnqueueOutcome::QueuedAfterDrain {
            discarded,
        }),
        first == SendStatus::Full && retry != Some(SendStatus::Sent) ==> r == (EnqueueOutcome::DroppedStillFull {
            discarded,
        }),
{
    match first {
        SendStatus::Sent => EnqueueOutcome::Queued,
        SendStatus::Disconnected => EnqueueOutcome::DroppedDisconnected,
        SendStatus::Full => match retry {
            Some(SendStatus::Sent) => EnqueueOutcome::QueuedAfterDrain { discarded },
            _ => EnqueueOutcome::DroppedStillFull { discarded },
        },
    }
}

/// Offers an event to the channel. When it is full, the queued events are drained
/// and dropped (at most a channel's worth, which is all a single producer can have
/// queued) and the same event is offered once more, so that the newest event
/// survives a slow consumer. A disconnected channel drops the event: no drain, no
/// retry. The outcome is `outcome_after` of what the sends and the drain returned.
pub fn enqueue_with_drop_old(
    sender: &Sender<GlobalInputEvent>,
    receiver_for_drop: &Receiver<GlobalInputEvent>,
    payload: GlobalInputEvent,
) -> (r: EnqueueOutcome)
    ensures
        r matches EnqueueOutcome::QueuedAfterDrain { discarded } ==> discarded <= INPUT_CHANNEL_CAPACITY,
        r matches EnqueueOutcome::DroppedStillFull { discarded } ==> discarded <= INPUT_CHANNEL_CAPACITY,
{
    let first = try_send_event(sender, payload);
    let first_status = first.status();
    let mut discarded: usize = 0;
    let mut retry: Option<SendStatus> = None;
    if let SendAttempt::Full(latest_payload) = first {
        discarded = drain_queued(receiver_for_drop, INPUT_CHANNEL_CAPACITY);
        retry = Some(try_send_event(sender, latest_payload).status());
    }
    outcome_after(first_status, discarded, retry)
}

/// One step of a drain: after `received` was taken from the channel with `discarded`
/// events dropped so far, whether to go on and the new count. An event goes on the
/// count and the drain continues below `limit`; an empty take ends it.
pub fn drain_step(received: &Option<GlobalInputEvent>, discarded: usize, limit: usize) -> (r: (bool, usize))
    requires
        discarded < limit,
    ensures
        received is Some ==> r == ((discarded + 1 < limit, (discarded + 1) as usize)),
        received is None ==> r == ((false, discarded)),
{
    match received {
        Some(_) => (discarded + 1 < limit, discarded + 1),
        None => (false, discarded),
    }
}

/// Takes and drops queued events until none is left or `limit` were dropped;
/// returns how many were dropped.
pub fn drain_queued(receiver: &Receiver<GlobalInputEvent>, limit: usize) -> (r: usize)
    ensures
        r <= limit,
{
    let mut discarded: usize = 0;
    let mut more: bool = limit > 0;
    while more
        invariant
            discarded <= limit,
            more ==> discarded < limit,
        decreases limit - discarded + (if more { 1int } else { 0int }),
    {
        let received = try_recv_event(receiver);
        let (go_on, count) = drain_step(&received, discarded, limit);
        discarded = count;
        more = go_on;
    }
    discarded
}

} // verus!
