//! A LIFO stack of symbols, with the Emmental string-popping helper.

use vstd::prelude::*;

use crate::emmental::Error;

verus! {

/// A last-in, first-out stack.  The view is the storage sequence; the top of
/// the stack is the last element of the view.
pub struct Stack<T> {
    storage: Vec<T>,
}

impl<T> View for Stack<T> {
    type V = Seq<T>;

    closed spec fn view(&self) -> Seq<T> {
        self.storage@
    }
}

impl<T> Stack<T> {
    /// The empty stack.
    pub fn new() -> (r: Self)
        ensures
            r@ == Seq::<T>::empty(),
    {
        Stack { storage: Vec::new() }
    }

    /// Removes and returns the top element; fails on an empty stack.
    pub fn pop(&mut self) -> (r: Result<T, Error>)
        ensures
            old(self)@.len() > 0 ==> r == Ok::<T, Error>(old(self)@.last())
                && final(self)@ == old(self)@.drop_last(),
            old(self)@.len() == 0 ==> r == Err::<T, Error>(Error::EmptyStack)
                && final(self)@ == old(self)@,
    {
        match self.storage.pop() {
            Some(x) => Ok(x),
            None => Err(Error::EmptyStack),
        }
    }

    /// Appends an element at the top.  Always succeeds.
    pub fn push(&mut self, value: T)
        ensures
            final(self)@ == old(self)@.push(value),
    {
        self.storage.push(value)
    }

    /// Returns a reference to the top element; fails on an empty stack.
    pub fn peek(&self) -> (r: Result<&T, Error>)
        ensures
            self@.len() > 0 ==> (r matches Ok(x) && *x == self@.last()),
            self@.len() == 0 ==> r == Err::<&T, Error>(Error::EmptyStack),
    {
        match self.storage.last() {
            Some(x) => Ok(x),
            None => Err(Error::EmptyStack),
        }
    }
}

/// What popping a terminated string does to a symbol stack: symbols come off
/// the top until the terminator is popped; the captured symbols are returned
/// in their original push order, the terminator excluded.  If the stack runs
/// out first, everything has been consumed and the pop fails.
pub open spec fn pop_string_s(stack: Seq<u8>, terminator: u8) -> (Seq<u8>, Result<Seq<u8>, Error>)
    decreases stack.len(),
{
    if stack.len() == 0 {
        (stack, Err(Error::PrematurelyTerminatedString))
    } else if stack.last() == terminator {
        (stack.drop_last(), Ok(Seq::empty()))
    } else {
        let (rest, r) = pop_string_s(stack.drop_last(), terminator);
        (
            rest,
            match r {
                Ok(v) => Ok(v.push(stack.last())),
                Err(e) => Err(e),
            },
        )
    }
}

impl Stack<u8> {
    /// Pops symbols until the terminator is popped and returns them in their
    /// original push order; fails with `PrematurelyTerminatedString` when the
    /// stack runs out before the terminator shows up.
    pub fn pop_string(&mut self, terminator: u8) -> (r: Result<Vec<u8>, Error>)
        ensures
            ({
                let (rest, rs) = pop_string_s(old(self)@, terminator);
                final(self)@ == rest && match (r, rs) {
                    (Ok(v), Ok(s)) => v@ == s,
                    (Err(e1), Err(e2)) => e1 == e2,
                    _ => false,
                }
            }),
    {
        let mut string: Vec<u8> = Vec::new();
        loop
            invariant
                pop_string_s(old(self)@, terminator) == ({
                    let (rest, rs) = pop_string_s(self@, terminator);
                    (
                        rest,
                        match rs {
                            Ok(v) => Ok::<Seq<u8>, Error>(v + string@),
                            Err(e) => Err(e),
                        },
                    )
                }),
            decreases self@.len(),
        {
            let ghost pre_stack = self@;
            let ghost pre_string = string@;
            match self.pop() {
                Ok(item) => {
                    if item == terminator {
                        proof {
                            assert(Seq::<u8>::empty() + pre_string =~= pre_string);
                        }
                        return Ok(string);
                    }
                    string.insert(0, item);
                    proof {
                        let (rest3, rs3) = pop_string_s(self@, terminator);
                        if let Ok(v3) = rs3 {
                            assert(string@ =~= seq![item] + pre_string);
                            assert(v3.push(item) + pre_string =~= v3 + string@);
                        }
                    }
                }
                Err(_) => {
                    return Err(Error::PrematurelyTerminatedString);
                }
            }
        }
    }
}

} // verus!
