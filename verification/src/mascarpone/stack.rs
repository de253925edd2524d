//! A LIFO stack over any element type.

use vstd::prelude::*;

verus! {

/// A last-in, first-out stack.  The view is the storage sequence; the top of
/// the stack is the last element of the view.
#[derive(Debug)]
pub struct Stack<T> {
    storage: Vec<T>,
}

impl<T> View for Stack<T> {
    type V = Seq<T>;

    closed spec fn view(&self) -> Seq<T> {
        self.storage@
    }
}

impl<T> Stack<T> {
    /// The empty stack.
    pub fn new() -> (r: Self)
        ensures
            r@ == Seq::<T>::empty(),
    {
        Stack { storage: Vec::new() }
    }

    /// Removes and returns the top element, or `None` when the stack is
    /// empty.
    pub fn pop(&mut self) -> (r: Option<T>)
        ensures
            old(self)@.len() > 0 ==> (r matches Some(x) && x == old(self)@.last()
                && final(self)@ == old(self)@.drop_last()),
            old(self)@.len() == 0 ==> r is None && final(self)@ == old(self)@,
    {
        self.storage.pop()
    }

    /// Appends an element at the top.  Always succeeds.
    pub fn push(&mut self, value: T)
        ensures
            final(self)@ == old(self)@.push(value),
    {
        self.storage.push(value)
    }

    /// Returns a reference to the top element, or `None` when the stack is
    /// empty.
    pub fn peek(&self) -> (r: Option<&T>)
        ensures
            self@.len() > 0 ==> (r matches Some(x) && *x == self@.last()),
            self@.len() == 0 ==> r is None,
    {
        self.storage.last()
    }

    /// The stack never holds more elements than a machine word counts.
    pub proof fn lemma_len_bound(&self)
        ensures
            self@.len() <= usize::MAX,
    {
        let l = vstd::std_specs::vec::spec_vec_len(&self.storage);
    }

    /// Pops elements for as long as the predicate accepts them and returns
    /// them in pop order.  The first element the predicate refuses is popped
    /// and thrown away; the elements below it stay.
    pub fn pop_while<P: Fn(&T) -> bool>(&mut self, pred: P) -> (r: Vec<T>)
        requires
            forall|x: &T| #[trigger] call_requires(pred, (x,)),
        ensures
            final(self)@.len() + r@.len() <= old(self)@.len(),
            final(self)@ == old(self)@.take(final(self)@.len() as int),
            forall|j: int|
                0 <= j < r@.len() ==> (#[trigger] r@[j]) == old(self)@[old(self)@.len() - 1 - j],
            forall|j: int|
                0 <= j < r@.len() ==> call_ensures(pred, (&(#[trigger] r@[j]),), true),
            final(self)@.len() + r@.len() == old(self)@.len() ==> final(self)@.len() == 0,
            final(self)@.len() + r@.len() < old(self)@.len() ==> final(self)@.len() + r@.len() + 1
                == old(self)@.len() && call_ensures(
                pred,
                (&old(self)@[final(self)@.len() as int],),
                false,
            ),
    {
        let mut r: Vec<T> = Vec::new();
        loop
            invariant
                forall|x: &T| #[trigger] call_requires(pred, (x,)),
                self@.len() + r@.len() == old(self)@.len(),
                self@ == old(self)@.take(self@.len() as int),
                forall|j: int|
                    0 <= j < r@.len() ==> (#[trigger] r@[j]) == old(self)@[old(self)@.len() - 1
                        - j],
                forall|j: int|
                    0 <= j < r@.len() ==> call_ensures(pred, (&(#[trigger] r@[j]),), true),
            decreases self@.len(),
        {
            match self.pop() {
                None => {
                    return r;
                }
                Some(x) => {
                    if pred(&x) {
                        r.push(x);
                    } else {
                        return r;
                    }
                }
            }
        }
    }
}

} // verus!
