//! What holds of whole runs of insertions, proved from the model.

use crate::model::{newest, older, stack_all, stacked};
use crate::window::Window;
use vstd::prelude::*;

verus! {

/// Stacking one item onto contents that fit in the window leaves the
/// `max_size` newest of the old contents followed by the item, and so again
/// contents that fit.
pub proof fn stacked_keeps_newest<T>(s: Seq<T>, max_size: nat, item: T)
    requires
        s.len() <= max_size,
    ensures
        stacked(s, max_size, item) == newest(s.push(item), max_size),
        stacked(s, max_size, item).len() <= max_size,
{
}

/// Stacking a run of items onto contents that fit in the window leaves the
/// `max_size` newest of the old contents followed by the run, in their order.
pub proof fn stack_all_keeps_newest<T>(s: Seq<T>, max_size: nat, items: Seq<T>)
    requires
        s.len() <= max_size,
    ensures
        stack_all(s, max_size, items) == newest(s + items, max_size),
        stack_all(s, max_size, items).len() <= max_size,
    decreases items.len(),
{
    if items.len() == 0 {
        assert(s + items == s);
    } else {
        let front = items.drop_last();
        stack_all_keeps_newest(s, max_size, front);
        stacked_keeps_newest(stack_all(s, max_size, front), max_size, items.last());
        assert((s + front).push(items.last()) == s + items);
    }
}

/// However many items are stacked onto contents that fit in the window, the
/// contents fit after each one of them.
pub proof fn stack_all_within_capacity<T>(s: Seq<T>, max_size: nat, items: Seq<T>)
    requires
        s.len() <= max_size,
    ensures
        forall|k: int|
            0 <= k <= items.len() ==> (#[trigger] stack_all(s, max_size, items.take(k))).len()
                <= max_size,
{
    assert forall|k: int| 0 <= k <= items.len() implies (#[trigger] stack_all(
        s,
        max_size,
        items.take(k),
    )).len() <= max_size by {
        stack_all_keeps_newest(s, max_size, items.take(k));
    }
}

/// Once more items than the window has room for were stacked onto an empty
/// window, it holds exactly the last `max_size` of them, in the order in
/// which they were stacked.
pub proof fn eviction_order<T>(max_size: nat, items: Seq<T>)
    requires
        items.len() > max_size,
    ensures
        stack_all(Seq::<T>::empty(), max_size, items) == items.subrange(
            items.len() - max_size,
            items.len() as int,
        ),
{
    stack_all_keeps_newest(Seq::<T>::empty(), max_size, items);
    assert(Seq::<T>::empty() + items == items);
}

/// Stacking a run of items is stacking its first item and then the rest of
/// the run; nothing is asked of the contents.
pub proof fn stack_all_first_then_rest<T>(s: Seq<T>, max_size: nat, items: Seq<T>)
    requires
        items.len() > 0,
    ensures
        stack_all(s, max_size, items) == stack_all(
            stacked(s, max_size, items.first()),
            max_size,
            items.drop_first(),
        ),
    decreases items.len(),
{
    if items.len() == 1 {
        assert(items.drop_last() == Seq::<T>::empty());
        assert(items.drop_first() == Seq::<T>::empty());
        assert(stack_all(s, max_size, items.drop_last()) == s);
    } else {
        let front = items.drop_last();
        stack_all_first_then_rest(s, max_size, front);
        assert(front.first() == items.first());
        assert(front.drop_first() == items.drop_first().drop_last());
        assert(items.drop_first().last() == items.last());
    }
}

/// Stacking two runs one after the other is stacking the one run made of
/// both; nothing is asked of the contents.
pub proof fn stack_all_twice<T>(s: Seq<T>, max_size: nat, first: Seq<T>, second: Seq<T>)
    ensures
        stack_all(stack_all(s, max_size, first), max_size, second) == stack_all(
            s,
            max_size,
            first + second,
        ),
    decreases second.len(),
{
    if second.len() == 0 {
        assert(first + second == first);
    } else {
        stack_all_twice(s, max_size, first, second.drop_last());
        assert((first + second).drop_last() == first + second.drop_last());
        assert((first + second).last() == second.last());
    }
}

/// Taking the `n` newest items away splits the contents in two: the older
/// items followed by the newest are the contents as they were, and the newest
/// are `n` items, or all of them where there are fewer.
pub proof fn older_then_newest<T>(s: Seq<T>, n: nat)
    ensures
        older(s, n) + newest(s, n) == s,
        newest(s, n).len() == vstd::math::min(n as int, s.len() as int),
        older(s, n).len() == s.len() - newest(s, n).len(),
{
}

/// Clearing a window that was just cleared changes nothing: after the second
/// clearing the window holds what it held after the first, which is nothing,
/// and has the room it always had.
pub proof fn clear_twice_is_clear_once<T>(before: Window<T>, once: Window<T>, twice: Window<T>)
    requires
        once@ == Seq::<T>::empty(),
        once.max_size() == before.max_size(),
        twice@ == Seq::<T>::empty(),
        twice.max_size() == once.max_size(),
    ensures
        twice@ == once@,
        twice.max_size() == once.max_size(),
        once@.len() == 0,
        twice@.len() == 0,
{
}

} // verus!
