//! The errors of sending to an actor, and the settings an actor is built
//! with. The channels themselves are outside.
use std::marker::PhantomData;

use vstd::prelude::*;

verus! {

/// The actor has stopped; the request is handed back.
#[derive(Debug, Clone, Copy, PartialEq, Eq, PartialOrd, Ord, Hash)]
pub struct TellError<T>(pub T);

/// The request could not be queued at once; it is handed back.
#[derive(Debug, Clone, Copy, PartialEq, Eq, PartialOrd, Ord, Hash)]
pub enum TryTellError<T> {
    /// The actor's queue is full.
    Full(T),
    /// The actor has stopped.
    Closed(T),
}

/// A question to an actor went unanswered.
#[derive(Debug, Clone, Copy, PartialEq, Eq, PartialOrd, Ord, Hash)]
pub enum AskError<T> {
    /// It could not be sent.
    Tell(TellError<T>),
    /// The actor dropped it without answering.
    Receive,
}

/// A question to an actor could not be queued at once, or went unanswered.
#[derive(Debug, Clone, Copy, PartialEq, Eq, PartialOrd, Ord, Hash)]
pub enum TryAskError<T> {
    Tell(TryTellError<T>),
    Receive,
}

/// How many requests an actor's queue holds unless told otherwise.
pub const DEFAULT_REQUESTER_CAPACITY: usize = 64;

/// The settings an actor of type `A` is built with: the capacity of its
/// request queue.
pub struct ActorPreBuilder<A> {
    capacity: usize,
    _marker: PhantomData<A>,
}

impl<A> ActorPreBuilder<A> {
    pub closed spec fn capacity_spec(&self) -> usize {
        self.capacity
    }

    /// The default settings.
    pub fn new() -> (r: ActorPreBuilder<A>)
        ensures
            r.capacity_spec() == DEFAULT_REQUESTER_CAPACITY,
    {
        ActorPreBuilder { capacity: DEFAULT_REQUESTER_CAPACITY, _marker: PhantomData }
    }

    /// The same settings with a request queue of `capacity`.
    pub fn capacity(self, capacity: usize) -> (r: ActorPreBuilder<A>)
        ensures
            r.capacity_spec() == capacity,
    {
        ActorPreBuilder { capacity, _marker: PhantomData }
    }

    /// The capacity of the request queue.
    pub fn requester_capacity(&self) -> (r: usize)
        ensures
            r == self.capacity_spec(),
    {
        self.capacity
    }
}

impl<A> Default for ActorPreBuilder<A> {
    fn default() -> (r: ActorPreBuilder<A>)
        ensures
            r.capacity_spec() == DEFAULT_REQUESTER_CAPACITY,
    {
        ActorPreBuilder::new()
    }
}

} // verus!
