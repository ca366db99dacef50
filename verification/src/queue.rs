//! The durable FIFO of pending payments.
//!
//! `Queue` is the interface the workers and the ingress forwarder consume;
//! a store-backed implementation lives with the application around this
//! library. `InMemoryQueue` is the library's own implementation, used by
//! the verified worker model and by tests.

use vstd::prelude::*;

use crate::payment::Message;

verus! {

/// The store could not be reached.
#[derive(Clone, Copy, Debug, PartialEq, Eq, Structural)]
pub enum QueueError {
    StorageUnavailable,
}

/// A FIFO queue of payment messages with at-least-once delivery.
///
/// `push` appends at the tail and never blocks on capacity; `pop` takes
/// from the head and may report nothing (a poll timeout) without removing
/// anything. Either operation may fail with `StorageUnavailable`, leaving
/// the contents as they were.
pub trait Queue: Sized {
    spec fn contents(&self) -> Seq<Message>;

    fn push(&mut self, message: Message) -> (r: Result<(), QueueError>)
        ensures
            r is Ok ==> final(self).contents() == old(self).contents().push(message),
            r is Err ==> final(self).contents() == old(self).contents(),
    ;

    fn pop(&mut self) -> (r: Result<Option<Message>, QueueError>)
        ensures
            match r {
                Ok(Some(m)) => old(self).contents().len() > 0 && m == old(self).contents()[0]
                    && final(self).contents() == old(self).contents().drop_first(),
                Ok(None) => final(self).contents() == old(self).contents(),
                Err(_) => final(self).contents() == old(self).contents(),
            },
    ;
}

/// A queue held entirely in memory; operations never fail.
pub struct InMemoryQueue {
    items: Vec<Message>,
}

impl InMemoryQueue {
    pub closed spec fn spec_contents(&self) -> Seq<Message> {
        self.items@
    }

    pub fn new() -> (q: InMemoryQueue)
        ensures
            q.spec_contents() == Seq::<Message>::empty(),
    {
        InMemoryQueue { items: Vec::new() }
    }

    pub fn push_msg(&mut self, message: Message)
        ensures
            final(self).spec_contents() == old(self).spec_contents().push(message),
    {
        self.items.push(message);
    }

    /// Take the head message; nothing is reported only when the queue is
    /// empty.
    pub fn pop_msg(&mut self) -> (r: Option<Message>)
        ensures
            match r {
                Some(m) => old(self).spec_contents().len() > 0 && m == old(self).spec_contents()[0]
                    && final(self).spec_contents() == old(self).spec_contents().drop_first(),
                None => old(self).spec_contents().len() == 0 && final(self).spec_contents() == old(
                    self,
                ).spec_contents(),
            },
    {
        if self.items.len() == 0 {
            None
        } else {
            let m = self.items.remove(0);
            proof {
                assert(self.spec_contents() =~= old(self).spec_contents().drop_first());
            }
            Some(m)
        }
    }

    pub fn len(&self) -> (n: usize)
        ensures
            n == self.spec_contents().len(),
    {
        self.items.len()
    }
}

impl Queue for InMemoryQueue {
    open spec fn contents(&self) -> Seq<Message> {
        self.spec_contents()
    }

    fn push(&mut self, message: Message) -> (r: Result<(), QueueError>)
        ensures
            r is Ok,
            final(self).contents() == old(self).contents().push(message),
    {
        self.push_msg(message);
        Ok(())
    }

    fn pop(&mut self) -> (r: Result<Option<Message>, QueueError>)
        ensures
            r is Ok,
    {
        Ok(self.pop_msg())
    }
}

} // verus!
