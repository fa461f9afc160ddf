use crate::utterance::Utterance;
use tokio::sync::mpsc::error::TrySendError;
use tokio::sync::mpsc::{Receiver, Sender};
use vstd::prelude::*;

verus! {

/// How many utterances may wait in the queue at once.
pub const QUEUE_CAPACITY: usize = 4;

#[verifier::external_type_specification]
#[verifier::external_body]
#[verifier::reject_recursive_types(T)]
pub struct ExSender<T>(Sender<T>);

#[verifier::external_type_specification]
#[verifier::external_body]
#[verifier::reject_recursive_types(T)]
pub struct ExReceiver<T>(Receiver<T>);

/// Relies on the `Clone` impl of tokio::sync::mpsc::Sender: a second handle
/// on the same channel; nothing more is claimed of it.
pub assume_specification<T>[ <Sender<T> as Clone>::clone ](s: &Sender<T>) -> Sender<T>;

/// The bound a channel was made with, as its sending half reports it.
pub uninterp spec fn bound_of(s: Sender<Utterance>) -> nat;

/// Why an utterance was not admitted; it is handed back unsent.
pub enum EnqueueError {
    /// The queue holds as many utterances as it may.
    Full(Utterance),
    /// The worker is gone; speech is unavailable for good.
    Closed(Utterance),
}

impl EnqueueError {
    pub open spec fn unsent(&self) -> Utterance {
        match self {
            EnqueueError::Full(u) => *u,
            EnqueueError::Closed(u) => *u,
        }
    }

    pub fn is_full(&self) -> (r: bool)
        ensures
            r == (self is Full),
    {
        match self {
            EnqueueError::Full(_) => true,
            EnqueueError::Closed(_) => false,
        }
    }

    pub fn is_closed(&self) -> (r: bool)
        ensures
            r == (self is Closed),
    {
        match self {
            EnqueueError::Full(_) => false,
            EnqueueError::Closed(_) => true,
        }
    }

    /// The utterance that was not admitted.
    pub fn into_inner(self) -> (u: Utterance)
        ensures
            u == self.unsent(),
    {
        match self {
            EnqueueError::Full(u) => u,
            EnqueueError::Closed(u) => u,
        }
    }
}

/// Relies on tokio::sync::mpsc::channel: a bounded FIFO channel with room for
/// `bound` items, whose sender reports that bound. It panics on a zero bound
/// and on a bound above its semaphore's `MAX_PERMITS` (`usize::MAX >> 3`,
/// which is `usize::MAX / 8`).
#[verifier::external_body]
fn bounded_channel(bound: usize) -> (r: (Sender<Utterance>, Receiver<Utterance>))
    requires
        0 < bound <= usize::MAX / 8,
    ensures
        bound_of(r.0) == bound,
{
    tokio::sync::mpsc::channel(bound)
}

/// Relies on tokio::sync::mpsc::Sender::max_capacity: the bound the channel
/// was made with.
#[verifier::external_body]
fn max_capacity(s: &Sender<Utterance>) -> (r: usize)
    ensures
        r == bound_of(*s),
{
    s.max_capacity()
}

/// Relies on tokio::sync::mpsc::Sender::try_send: it never waits; when the
/// channel is full or its receiver is gone, the message comes back unsent.
#[verifier::external_body]
fn try_send(s: &Sender<Utterance>, u: Utterance) -> (r: Result<(), EnqueueError>)
    ensures
        r matches Err(e) ==> e.unsent() == u,
{
    match s.try_send(u) {
        Ok(()) => Ok(()),
        Err(TrySendError::Full(u)) => Err(EnqueueError::Full(u)),
        Err(TrySendError::Closed(u)) => Err(EnqueueError::Closed(u)),
    }
}

/// The sending side of the speech queue. Clones share one queue.
#[derive(Clone)]
pub struct ProducerHandle {
    sender: Sender<Utterance>,
}

impl ProducerHandle {
    /// How many utterances the queue admits at once.
    pub closed spec fn bound(&self) -> nat {
        bound_of(self.sender)
    }

    pub fn capacity(&self) -> (r: usize)
        ensures
            r == self.bound(),
    {
        max_capacity(&self.sender)
    }

    /// Puts `text` at the back of the queue without waiting. When the queue
    /// is full or the worker is gone, the text comes back in the error.
    pub fn enqueue(&self, text: String) -> (r: Result<(), EnqueueError>)
        ensures
            r matches Err(e) ==> e.unsent().0@ == text@,
    {
        try_send(&self.sender, Utterance(text))
    }
}

/// Makes the speech queue: the handle producers send through, and the one
/// receiving end the worker drains.
pub fn dispatch_channel() -> (r: (ProducerHandle, Receiver<Utterance>))
    ensures
        r.0.bound() == QUEUE_CAPACITY,
{
    let (sender, receiver) = bounded_channel(QUEUE_CAPACITY);
    (ProducerHandle { sender }, receiver)
}

} // verus!
