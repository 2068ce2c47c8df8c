//! A first-in, first-out queue of callbacks waiting to be run.
use std::collections::VecDeque;
use vstd::prelude::*;

verus! {

/// Implemented by every closure that takes no argument, so that closures of
/// different types can be held side by side.
trait Callback {}

impl<F: Fn()> Callback for F {}

/// A deferred unit of work: a callback kept until the loop that holds it runs it.
pub struct Event {
    callback: Box<dyn Callback>,
}

impl Event {
    /// Wraps `callback` so that it can be queued.
    pub fn new<F: 'static + Fn()>(callback: F) -> (event: Self)
        ensures
            event.wraps(callback),
    {
        Self { callback: Box::new(callback) }
    }

    /// Whether this event holds `callback`.
    pub closed spec fn wraps<F: 'static + Fn()>(&self, callback: F) -> bool {
        let boxed: Box<dyn Callback> = Box::new(callback);
        self.callback == boxed
    }
}

/// The queue of events, oldest first.
pub struct EventLoop {
    queue: VecDeque<Event>,
}

impl EventLoop {
    /// The events that wait, in the order in which they were pushed.
    pub closed spec fn events(&self) -> Seq<Event> {
        self.queue@
    }

    /// An empty queue.
    pub fn new() -> (event_loop: Self)
        ensures
            event_loop.events() == Seq::<Event>::empty(),
    {
        Self { queue: VecDeque::new() }
    }

    /// Puts `event` at the back of the queue; the events already there keep their place.
    pub fn push(&mut self, event: Event)
        ensures
            final(self).events() == old(self).events().push(event),
    {
        self.queue.push_back(event);
    }

    /// The number of events that wait.
    pub fn len(&self) -> (n: usize)
        ensures
            n == self.events().len(),
    {
        self.queue.len()
    }
}

} // verus!
