//! Bounded first-in first-out retention, shared by the tick buffer and the
//! completed-bar history.
use vstd::prelude::*;

verus! {

/// Contents after appending `x` to a bounded queue that holds `s` and keeps at
/// most `cap` entries: the oldest entry leaves first when the queue is full,
/// and a queue of capacity zero keeps nothing.
pub open spec fn pushed_window<T>(s: Seq<T>, cap: nat, x: T) -> Seq<T> {
    if cap == 0 {
        s
    } else if s.len() >= cap {
        s.drop_first().push(x)
    } else {
        s.push(x)
    }
}

/// The last `cap` entries of `items`, oldest first (all of them when there are
/// no more than `cap`).
pub open spec fn last_n<T>(items: Seq<T>, cap: nat) -> Seq<T> {
    if items.len() <= cap {
        items
    } else {
        items.subrange(items.len() - cap, items.len() as int)
    }
}

/// A bounded queue of capacity `cap` that holds the last `cap` entries of
/// everything appended so far still holds, after one more append, the last
/// `cap` entries of the longer history, in the order they arrived; and it never
/// holds more than `cap` entries.
pub proof fn lemma_fifo_window<T>(history: Seq<T>, cap: nat, x: T)
    ensures
        pushed_window(last_n(history, cap), cap, x) == last_n(history.push(x), cap),
        last_n(history, cap).len() <= cap,
        last_n(history.push(x), cap).len() <= cap,
{
    let h2 = history.push(x);
    if cap == 0 {
        assert(last_n(h2, cap) =~= Seq::<T>::empty());
        assert(last_n(history, cap) =~= Seq::<T>::empty());
    } else if history.len() < cap {
        assert(pushed_window(last_n(history, cap), cap, x) =~= last_n(h2, cap));
    } else {
        let w = last_n(history, cap);
        assert(w.len() == cap);
        assert(pushed_window(w, cap, x) =~= last_n(h2, cap));
    }
}

} // verus!
