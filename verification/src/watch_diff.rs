//! A cell that remembers the value it held before the last write.

use vstd::prelude::*;
use vstd::std_specs::cmp::PartialEqSpec;

verus! {

/// One value together with the value it replaced.
///
/// A cell starts with a current value and no previous one. Every `set` moves
/// the current value into the previous slot and installs the new one, so the
/// cell always shows the last transition and nothing older.
pub struct WatchDiff<T> {
    prev: Option<T>,
    current: T,
}

impl<T> View for WatchDiff<T> {
    type V = (Option<T>, T);

    /// The pair (previous value, current value).
    closed spec fn view(&self) -> (Option<T>, T) {
        (self.prev, self.current)
    }
}

/// The state of a cell in state `state` after `new` has been written to it.
pub open spec fn after_set<T>(state: (Option<T>, T), new: T) -> (Option<T>, T) {
    (Some(state.1), new)
}

/// The state of a cell in state `state` after the values of `writes` have been
/// written to it one after the other.
pub open spec fn after_sets<T>(state: (Option<T>, T), writes: Seq<T>) -> (Option<T>, T)
    decreases writes.len(),
{
    if writes.len() == 0 {
        state
    } else {
        after_set(after_sets(state, writes.drop_last()), writes.last())
    }
}

/// `copy` is a clone of `state`: each value of `copy` is a clone of the value
/// in the same place of `state`, and a previous value is there in both or in
/// neither.
pub open spec fn snapshot_of<T: Clone>(state: (Option<T>, T), copy: (Option<T>, T)) -> bool {
    &&& cloned(state.1, copy.1)
    &&& match state.0 {
        Some(p) => copy.0 matches Some(q) && cloned(p, q),
        None => copy.0 is None,
    }
}

/// `unequal` is what `a != b` evaluated to.
pub open spec fn compared_unequal<T: PartialEq>(a: T, b: T, unequal: bool) -> bool {
    &&& call_ensures(T::ne, (&a, &b), unequal)
    &&& T::obeys_eq_spec() ==> unequal == !a.eq_spec(&b)
}

/// `seen` is what a waiter woken on a cell in state `state` observes: the
/// transition (previous, current), cloned, where a previous value exists and
/// the current value compared unequal to it, and nothing otherwise.
pub open spec fn transition_of<T: Clone + PartialEq>(
    state: (Option<T>, T),
    seen: Option<(T, T)>,
) -> bool {
    match state.0 {
        None => seen is None,
        Some(p) => {
            &&& compared_unequal(state.1, p, seen is Some)
            &&& seen matches Some((a, b)) ==> cloned(p, a) && cloned(state.1, b)
        },
    }
}

impl<T: Clone + PartialEq> WatchDiff<T> {
    /// A cell that holds `initial` and has no previous value.
    pub fn new(initial: T) -> (cell: Self)
        ensures
            cell@ == (None::<T>, initial),
    {
        WatchDiff { prev: None, current: initial }
    }

    /// Writes `new`: the value held so far becomes the previous value.
    ///
    /// The write is recorded also where `new` equals the value held so far.
    /// A caller that parks waiters on this cell wakes all of them after every
    /// call.
    pub fn set(&mut self, new: T)
        ensures
            final(self)@ == after_set(old(self)@, new),
    {
        let mut value = new;
        core::mem::swap(&mut self.current, &mut value);
        self.prev = Some(value);
    }

    /// Clones of the previous and the current value.
    pub fn get_diff_cloned(&self) -> (copy: (Option<T>, T))
        ensures
            snapshot_of(self@, copy),
    {
        let prev = match &self.prev {
            Some(p) => Some(p.clone()),
            None => None,
        };
        (prev, self.current.clone())
    }

    /// The transition that a waiter sees when it is woken: `Some` of the
    /// previous and the current value where the cell has been set and the
    /// two compare unequal, `None` where the waiter has to go back to sleep.
    pub fn changed(&self) -> (seen: Option<(T, T)>)
        ensures
            transition_of(self@, seen),
    {
        match &self.prev {
            Some(p) => {
                if self.current != *p {
                    Some((p.clone(), self.current.clone()))
                } else {
                    None
                }
            },
            None => None,
        }
    }
}

/// Writes that come one after the other leave the cell with the last value
/// written as its current value and the value written just before it as its
/// previous one; after a single write that is the value the cell held
/// before. Nothing older can be read off the cell.
pub proof fn lemma_last_write_wins<T>(state: (Option<T>, T), writes: Seq<T>)
    requires
        writes.len() > 0,
    ensures
        after_sets(state, writes).1 == writes.last(),
        after_sets(state, writes).0 == Some(
            if writes.len() == 1 {
                state.1
            } else {
                writes[writes.len() - 2]
            },
        ),
    decreases writes.len(),
{
    let earlier = writes.drop_last();
    if earlier.len() > 0 {
        lemma_last_write_wins(state, earlier);
        assert(earlier.last() == writes[writes.len() - 2]);
    } else {
        assert(after_sets(state, earlier) == state);
    }
}

} // verus!
