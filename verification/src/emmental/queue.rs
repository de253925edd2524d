//! A FIFO queue of symbols, the Emmental scratch buffer.

use vstd::prelude::*;

verus! {

/// A first-in, first-out queue.  The view is the storage sequence; the front
/// of the queue is the first element of the view.
pub struct Queue<T> {
    storage: Vec<T>,
}

impl<T> View for Queue<T> {
    type V = Seq<T>;

    closed spec fn view(&self) -> Seq<T> {
        self.storage@
    }
}

impl<T> Queue<T> {
    /// The empty queue.
    pub fn new() -> (r: Self)
        ensures
            r@ == Seq::<T>::empty(),
    {
        Queue { storage: Vec::new() }
    }

    /// Appends an element at the back.  Always succeeds.
    pub fn push_back(&mut self, value: T)
        ensures
            final(self)@ == old(self)@.push(value),
    {
        self.storage.push(value)
    }

    /// Removes and returns the front element, or `None` when the queue is
    /// empty.
    pub fn pop_front(&mut self) -> (r: Option<T>)
        ensures
            old(self)@.len() > 0 ==> (r matches Some(x) && x == old(self)@.first()
                && final(self)@ == old(self)@.drop_first()),
            old(self)@.len() == 0 ==> r is None && final(self)@ == old(self)@,
    {
        if self.storage.len() == 0 {
            None
        } else {
            Some(self.storage.remove(0))
        }
    }
}

} // verus!
