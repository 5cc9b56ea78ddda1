//! A bounded first-in, first-out queue: what the two ends of a channel share.

use vstd::prelude::*;
use std::collections::VecDeque;

verus! {

/// The queue after an attempt to append `v` to `q` under capacity `cap`: `v` is taken
/// exactly if there is room.
pub open spec fn after_push<T>(q: Seq<T>, cap: nat, v: T) -> Seq<T> {
    if q.len() < cap {
        q.push(v)
    } else {
        q
    }
}

/// The queue after an attempt to take its head.
pub open spec fn after_pop<T>(q: Seq<T>) -> Seq<T> {
    if q.len() > 0 {
        q.drop_first()
    } else {
        q
    }
}

/// A bounded queue that hands its values out in the order in which it took them.
pub struct Fifo<T> {
    items: VecDeque<T>,
    capacity: usize,
}

impl<T> View for Fifo<T> {
    type V = Seq<T>;

    /// The values that wait, oldest first.
    closed spec fn view(&self) -> Seq<T> {
        self.items@
    }
}

impl<T> Fifo<T> {
    /// The number of values that the queue can hold.
    pub closed spec fn capacity(&self) -> nat {
        self.capacity as nat
    }

    /// The queue holds no more than its capacity, which is at least one.
    pub open spec fn wf(&self) -> bool {
        &&& self.capacity() >= 1
        &&& self@.len() <= self.capacity()
    }

    /// An empty queue with room for `capacity` values.
    pub fn new(capacity: usize) -> (q: Self)
        requires
            capacity >= 1,
        ensures
            q.wf(),
            q@ == Seq::<T>::empty(),
            q.capacity() == capacity,
    {
        Fifo { items: VecDeque::new(), capacity }
    }

    /// The number of values that wait.
    pub fn len(&self) -> (n: usize)
        ensures
            n == self@.len(),
    {
        self.items.len()
    }

    /// Whether no value waits.
    pub fn is_empty(&self) -> (b: bool)
        ensures
            b == (self@.len() == 0),
    {
        self.items.len() == 0
    }

    /// Whether the queue has no room left.
    pub fn is_full(&self) -> (b: bool)
        requires
            self.wf(),
        ensures
            b == (self@.len() == self.capacity()),
    {
        self.items.len() >= self.capacity
    }

    /// Appends `v` if there is room; hands it back if there is none.
    pub fn push(&mut self, v: T) -> (r: Result<(), T>)
        requires
            old(self).wf(),
        ensures
            final(self).wf(),
            final(self).capacity() == old(self).capacity(),
            final(self)@ == after_push(old(self)@, old(self).capacity(), v),
            old(self)@.len() < old(self).capacity() ==> r is Ok,
            old(self)@.len() >= old(self).capacity() ==> r == Err::<(), T>(v),
    {
        if self.items.len() < self.capacity {
            self.items.push_back(v);
            Ok(())
        } else {
            Err(v)
        }
    }

    /// Takes the oldest value, if any waits.
    pub fn pop(&mut self) -> (r: Option<T>)
        requires
            old(self).wf(),
        ensures
            final(self).wf(),
            final(self).capacity() == old(self).capacity(),
            final(self)@ == after_pop(old(self)@),
            old(self)@.len() == 0 ==> r is None,
            old(self)@.len() > 0 ==> r == Some(old(self)@[0]),
    {
        let r = self.items.pop_front();
        proof {
            if old(self)@.len() > 0 {
                assert(self@ =~= old(self)@.drop_first());
            }
        }
        r
    }
}

} // verus!
