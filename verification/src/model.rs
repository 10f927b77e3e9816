//! The mathematical model of a window: a sequence, oldest item first, and the
//! operations on it that the container's contracts are stated with.

use vstd::prelude::*;

verus! {

/// The `n` newest items of `s`, in the order they have in `s`; all of `s`
/// where it holds no more than `n`.
pub open spec fn newest<T>(s: Seq<T>, n: nat) -> Seq<T> {
    if n >= s.len() {
        s
    } else {
        s.subrange(s.len() - n, s.len() as int)
    }
}

/// What is left of `s` once its `n` newest items are taken away; nothing
/// where it holds no more than `n`.
pub open spec fn older<T>(s: Seq<T>, n: nat) -> Seq<T> {
    if n >= s.len() {
        Seq::empty()
    } else {
        s.subrange(0, s.len() - n)
    }
}

/// The contents after `item` is stacked onto the contents `s` of a window
/// with room for `max_size` items.
///
/// A window that is full, or over-full, first lets go of its oldest item, and
/// of that one only. The new item then becomes the newest, except in a window
/// without any room, which never keeps what is stacked onto it.
pub open spec fn stacked<T>(s: Seq<T>, max_size: nat, item: T) -> Seq<T> {
    let kept = if s.len() >= max_size && s.len() > 0 {
        s.drop_first()
    } else {
        s
    };
    if max_size == 0 {
        kept
    } else {
        kept.push(item)
    }
}

/// The contents after the items of `items` are stacked onto `s` one at a
/// time, from the first to the last.
pub open spec fn stack_all<T>(s: Seq<T>, max_size: nat, items: Seq<T>) -> Seq<T>
    decreases items.len(),
{
    if items.len() == 0 {
        s
    } else {
        stacked(stack_all(s, max_size, items.drop_last()), max_size, items.last())
    }
}

} // verus!
