//! The sliding window itself.

use crate::laws::stack_all_keeps_newest;
use crate::model::{newest, older, stack_all, stacked};
use std::collections::VecDeque;
use vstd::prelude::*;

verus! {

/// A window over the most recently stacked items.
///
/// The items are held from the oldest at the front to the newest at the back.
/// `max_size` is fixed when the window is made.
#[derive(Debug)]
pub struct Window<T> {
    vec: VecDeque<T>,
    max_size: usize,
}

impl<T> View for Window<T> {
    type V = Seq<T>;

    /// The items in the window, oldest first.
    closed spec fn view(&self) -> Seq<T> {
        self.vec@
    }
}

impl<T> Window<T> {
    /// The number of items the window has room for.
    pub closed spec fn max_size(&self) -> nat {
        self.max_size as nat
    }

    /// The window holds no more items than it has room for.
    ///
    /// Every window starts out so and every operation of the window keeps it
    /// so. Only a caller that changes the number of items through
    /// [`Window::get_mut`] can break it.
    pub open spec fn wf(&self) -> bool {
        self@.len() <= self.max_size()
    }

    /// Makes an empty window with room for `max_size` items.
    pub fn new(max_size: usize) -> (window: Window<T>)
        ensures
            window@ == Seq::<T>::empty(),
            window.max_size() == max_size,
            window.wf(),
    {
        Window { vec: VecDeque::new(), max_size }
    }

    /// Retrieves references to the latest values, up to the specified
    /// amount, oldest first. Fewer come back where the window holds fewer.
    /// The window keeps them all.
    pub fn peek(&self, amount: usize) -> (latest: VecDeque<&T>)
        ensures
            latest@ == newest(self@, amount as nat).as_ref(),
            latest@.len() == vstd::math::min(amount as int, self@.len() as int),
    {
        let len: usize = self.vec.len();
        let mut latest: VecDeque<&T> = VecDeque::new();
        let mut index: usize = 0;
        while index < amount && index < len
            invariant
                len == self.vec@.len(),
                index <= amount,
                index <= len,
                latest@ == self.vec@.subrange(len - index, len as int).as_ref(),
            decreases len - index,
        {
            latest.push_front(&self.vec[len - 1 - index]);
            index += 1;
        }
        latest
    }

    /// Pops the latest values, up to the specified amount, and hands them
    /// over oldest first. Fewer come back where the window holds fewer; the
    /// older items stay in the window as they were.
    pub fn pop(&mut self, amount: usize) -> (latest: VecDeque<T>)
        ensures
            latest@ == newest(old(self)@, amount as nat),
            final(self)@ == older(old(self)@, amount as nat),
            final(self).max_size() == old(self).max_size(),
            latest@.len() == vstd::math::min(amount as int, old(self)@.len() as int),
            final(self)@.len() == old(self)@.len() - latest@.len(),
            old(self).wf() ==> final(self).wf(),
    {
        let ghost before: Seq<T> = self.vec@;
        let mut list: VecDeque<T> = VecDeque::new();
        let mut taken: usize = 0;
        while taken < amount
            invariant
                taken <= amount,
                taken <= before.len(),
                self.max_size == old(self).max_size,
                self.vec@ == before.subrange(0, before.len() - taken),
                list@ == before.subrange(before.len() - taken, before.len() as int),
            ensures
                taken == amount || taken == before.len(),
            decreases amount - taken,
        {
            match self.vec.pop_back() {
                Some(value) => {
                    list.push_front(value);
                    taken += 1;
                },
                None => {
                    break ;
                },
            }
        }
        list
    }

    /// Stacks an item into the window as its newest, removing the earliest
    /// item first if the max size has been reached. A window without any room
    /// keeps nothing.
    pub fn stack(&mut self, data: T)
        ensures
            final(self)@ == stacked(old(self)@, old(self).max_size(), data),
            final(self).max_size() == old(self).max_size(),
            old(self).wf() ==> final(self).wf(),
            old(self).wf() ==> final(self)@ == newest(
                old(self)@.push(data),
                old(self).max_size(),
            ),
    {
        if self.vec.len() >= self.max_size {
            self.vec.pop_front();
        }
        if self.max_size > 0 {
            self.vec.push_back(data);
        }
    }

    /// Stacks the vector into the window, item by item from its first to its
    /// last, taking ownership of the items in the vector.
    pub fn extend(&mut self, data: Vec<T>)
        ensures
            final(self)@ == stack_all(old(self)@, old(self).max_size(), data@),
            final(self).max_size() == old(self).max_size(),
            old(self).wf() ==> final(self).wf(),
            old(self).wf() ==> final(self)@ == newest(
                old(self)@ + data@,
                old(self).max_size(),
            ),
    {
        let ghost before: Seq<T> = self@;
        let ghost room: nat = self.max_size();
        for item in it: data.into_iter()
            invariant
                it.seq() == data@,
                self.max_size() == room,
                self@ == stack_all(before, room, data@.take(it.index())),
        {
            proof {
                let done: int = it.index();
                assert(data@.take(done + 1).drop_last() == data@.take(done));
                assert(data@.take(done + 1).last() == item);
            }
            self.stack(item);
        }
        proof {
            assert(data@.take(data@.len() as int) == data@);
            if old(self).wf() {
                stack_all_keeps_newest(before, room, data@);
            }
        }
    }

    /// Removes every item from the window. Its room stays as it was.
    pub fn clear(&mut self)
        ensures
            final(self)@ == Seq::<T>::empty(),
            final(self).max_size() == old(self).max_size(),
            final(self).wf(),
    {
        self.vec.clear();
    }

    /// The number of items in the window.
    pub fn len(&self) -> (count: usize)
        ensures
            count == self@.len(),
            self.wf() ==> count <= self.max_size(),
    {
        self.vec.len()
    }

    /// Returns a reference to the internal deque, oldest item first.
    pub fn get(&self) -> (items: &VecDeque<T>)
        ensures
            items@ == self@,
    {
        &self.vec
    }

    /// Returns a mutable reference to the internal deque, through which the
    /// items can be changed in place.
    ///
    /// Whatever the deque holds when the caller lets go of it is what the
    /// window holds from then on. The window does not look at it: a caller
    /// who leaves more than `max_size` items behind has a window that is no
    /// longer [`Window::wf`].
    pub fn get_mut(&mut self) -> (items: &mut VecDeque<T>)
        ensures
            items@ == old(self)@,
            final(self)@ == final(items)@,
            final(self).max_size() == old(self).max_size(),
    {
        &mut self.vec
    }
}

} // verus!
