//! The work queue: a first-in first-out buffer of work items shared by the
//! request handlers (producers) and the workers (consumers).
//!
//! The queue is logically unbounded.  It is closed explicitly, once, at
//! shutdown; after that nothing more is admitted, while the items already
//! buffered are still handed out, in order, before consumers see `Closed`.

use vstd::prelude::*;
use std::collections::VecDeque;

verus! {

/// What the queue holds, and whether it has been closed.
pub struct QueueState<T> {
    pub items: Seq<T>,
    pub closed: bool,
}

/// The refusal of an item by a closed queue.
#[derive(Debug, Clone, Copy, PartialEq, Eq, Structural)]
pub struct Closed;

/// The result of one attempt to take an item.
pub enum Dequeued<T> {
    /// The earliest item still buffered.
    Item(T),
    /// Nothing is buffered, and more may come.
    Empty,
    /// Nothing is buffered, and nothing more will come.
    Closed,
}

pub struct WorkQueue<T> {
    items: VecDeque<T>,
    closed: bool,
}

impl<T> View for WorkQueue<T> {
    type V = QueueState<T>;

    closed spec fn view(&self) -> QueueState<T> {
        QueueState { items: self.items@, closed: self.closed }
    }
}

impl<T> WorkQueue<T> {
    /// An open, empty queue.
    pub fn new() -> (q: Self)
        ensures
            q@.items == Seq::<T>::empty(),
            !q@.closed,
    {
        WorkQueue { items: VecDeque::new(), closed: false }
    }

    /// Appends `item` at the back, unless the queue is closed, in which case
    /// the item is dropped and the queue is left as it was.
    pub fn enqueue(&mut self, item: T) -> (r: Result<(), Closed>)
        ensures
            old(self)@.closed ==> r == Err::<(), Closed>(Closed) && final(self)@ == old(self)@,
            !old(self)@.closed ==> r == Ok::<(), Closed>(()) && final(self)@ == (QueueState {
                items: old(self)@.items.push(item),
                closed: false,
            }),
    {
        if self.closed {
            return Err(Closed);
        }
        self.items.push_back(item);
        Ok(())
    }

    /// Takes the earliest buffered item.  A closed queue still hands out
    /// what it holds; it answers `Closed` only once it is empty.
    pub fn dequeue(&mut self) -> (r: Dequeued<T>)
        ensures
            final(self)@.closed == old(self)@.closed,
            old(self)@.items.len() > 0 ==> (r matches Dequeued::Item(x) && x == old(self)@.items[0]
                && final(self)@.items == old(self)@.items.drop_first()),
            old(self)@.items.len() == 0 ==> final(self)@ == old(self)@ && (if old(self)@.closed {
                r is Closed
            } else {
                r is Empty
            }),
    {
        match self.items.pop_front() {
            Some(x) => {
                proof {
                    assert(self@.items =~= old(self)@.items.drop_first());
                }
                Dequeued::Item(x)
            },
            None => {
                proof {
                    assert(self@ == old(self)@);
                }
                if self.closed {
                    Dequeued::Closed
                } else {
                    Dequeued::Empty
                }
            },
        }
    }

    /// Closes the queue.  Closing a closed queue changes nothing.
    pub fn close(&mut self)
        ensures
            final(self)@ == (QueueState { items: old(self)@.items, closed: true }),
    {
        self.closed = true;
    }

    pub fn is_closed(&self) -> (r: bool)
        ensures
            r == self@.closed,
    {
        self.closed
    }

    /// Number of buffered items.
    pub fn len(&self) -> (n: usize)
        ensures
            n == self@.items.len(),
    {
        self.items.len()
    }
}

} // verus!
