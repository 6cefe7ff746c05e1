use vstd::prelude::*;
use std::collections::VecDeque;

verus! {

/// A first-in first-out queue of messages for one consumer.
pub struct Mailbox<T> {
    queue: VecDeque<T>,
}

impl<T> View for Mailbox<T> {
    type V = Seq<T>;

    closed spec fn view(&self) -> Seq<T> {
        self.queue@
    }
}

impl<T> Mailbox<T> {
    pub fn new() -> (r: Mailbox<T>)
        ensures
            r@ == Seq::<T>::empty(),
    {
        Mailbox { queue: VecDeque::new() }
    }

    /// Adds a message behind every message already waiting.
    pub fn send(&mut self, message: T)
        ensures
            final(self)@ == old(self)@.push(message),
    {
        self.queue.push_back(message);
    }

    /// Takes the oldest waiting message, if there is one.
    pub fn receive(&mut self) -> (r: Option<T>)
        ensures
            old(self)@.len() == 0 ==> r is None && final(self)@ == old(self)@,
            old(self)@.len() > 0 ==> r == Some(old(self)@[0]) && final(self)@ == old(self)@.drop_first(),
    {
        self.queue.pop_front()
    }

    pub fn len(&self) -> (r: usize)
        ensures
            r == self@.len(),
    {
        self.queue.len()
    }

    pub fn is_empty(&self) -> (r: bool)
        ensures
            r == (self@.len() == 0),
    {
        self.queue.len() == 0
    }
}

} // verus!
