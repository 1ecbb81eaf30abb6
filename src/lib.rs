//! A singly linked list with stack semantics.
//!
//! Every operation takes the list by value and hands back a new list value:
//! `push` puts a value in front, `pop` takes the front value off together
//! with the rest of the chain, and `drop` releases a whole chain in a loop
//! that holds one node at a time, so that a long chain is never torn down
//! by recursion.

use vstd::prelude::*;

pub mod laws;

verus! {

/// A list is either empty or a node that holds a value and owns the rest.
#[derive(Debug, PartialEq)]
pub enum LinkedList<T> {
    Empty,
    Elem(T, Box<LinkedList<T>>),
}

impl<T> LinkedList<T> {
    /// The values of the list, the most recently pushed one first.
    pub open spec fn view(self) -> Seq<T>
        decreases self,
    {
        match self {
            LinkedList::Empty => Seq::empty(),
            LinkedList::Elem(value, tail) => seq![value] + (*tail).view(),
        }
    }

    /// The list that `push` builds: `value` in front of `self`.
    pub open spec fn spec_push(self, value: T) -> LinkedList<T> {
        LinkedList::Elem(value, Box::new(self))
    }

    /// What `pop` hands back: nothing for an empty list, else the front
    /// value and the rest of the chain.
    pub open spec fn spec_pop(self) -> Option<(T, LinkedList<T>)> {
        match self {
            LinkedList::Empty => None,
            LinkedList::Elem(value, tail) => Some((value, *tail)),
        }
    }

    /// The list that `new` followed by pushing `vs[0]`, `vs[1]`, ... in
    /// that order builds.
    pub open spec fn from_pushes(vs: Seq<T>) -> LinkedList<T>
        decreases vs.len(),
    {
        if vs.len() == 0 {
            LinkedList::Empty
        } else {
            LinkedList::<T>::from_pushes(vs.drop_last()).spec_push(vs.last())
        }
    }

    /// What is left after popping `k` times (popping an empty list leaves
    /// it empty).
    pub open spec fn after_pops(self, k: nat) -> LinkedList<T>
        decreases k,
    {
        if k == 0 {
            self
        } else {
            match self.spec_pop() {
                None => self,
                Some((_, rest)) => rest.after_pops((k - 1) as nat),
            }
        }
    }

    /// create a new list
    pub fn new() -> (r: LinkedList<T>)
        ensures
            r == LinkedList::<T>::Empty,
            r@ == Seq::<T>::empty(),
    {
        LinkedList::Empty
    }

    /// push an item onto a list
    pub fn push(self, value: T) -> (r: LinkedList<T>)
        ensures
            r == self.spec_push(value),
            r@ == seq![value] + self@,
    {
        LinkedList::Elem(value, Box::new(self))
    }

    /// removes the most recently pushed item from the list, as
    /// well as the remainder of the list
    pub fn pop(self) -> (r: Option<(T, LinkedList<T>)>)
        ensures
            r == self.spec_pop(),
            r is None <==> self@.len() == 0,
            r matches Some((value, rest)) ==> self@ == seq![value] + rest@,
    {
        match self {
            LinkedList::Empty => None,
            LinkedList::Elem(value, tail) => Some((value, *tail)),
        }
    }

    /// destroys the list efficiently
    ///
    /// The chain is released one node at a time: each turn of the loop
    /// takes the tail out of the current node and lets that node go, so
    /// the stack stays flat however long the list is.
    pub fn drop(self) {
        let ghost whole = self@;
        let mut current = self;
        loop
            invariant
                current@.len() <= whole.len(),
                current@ == whole.subrange(whole.len() - current@.len(), whole.len() as int),
            decreases current@.len(),
        {
            let ghost before = current@;
            match current {
                LinkedList::Empty => break,
                LinkedList::Elem(_, tail) => {
                    current = *tail;
                    assert(current@ =~= before.subrange(1, before.len() as int));
                },
            }
        }
    }
}

} // verus!
