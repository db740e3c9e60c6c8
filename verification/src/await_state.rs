//! The state map: a directory of cells addressed by key.

use crate::error::{found, AwaitStateError};
use crate::index::{
    entries, index_get, index_insert, index_new, index_remove, index_with_capacity, slot_at,
    MAX_CAPACITY_HINT,
};
use crate::wait::{answers, rejects, total, wait_step, WaitAction, WaitEvent};
use crate::watch_diff::{after_set, snapshot_of, transition_of, WatchDiff};
use dashmap::DashMap;
use tokio::time::error::Elapsed;
use vstd::prelude::*;
use vstd::std_specs::cmp::PartialEqSpec;

verus! {

/// `tokio::time::error::Elapsed`, the notice that a timer fired before the
/// work it was set against was done. It carries nothing.
#[verifier::external_type_specification]
#[verifier::external_body]
pub struct ExElapsed(Elapsed);

/// What a state map holds: under each key the previous and the current value
/// of the key's cell.
pub type States<T> = Map<Seq<char>, (Option<T>, T)>;

/// The states after a fresh cell holding `value` has been filed under `key`.
pub open spec fn after_put<T>(states: States<T>, key: Seq<char>, value: T) -> States<T> {
    states.insert(key, (None, value))
}

/// The states after `key` has been taken out.
pub open spec fn after_remove<T>(states: States<T>, key: Seq<char>) -> States<T> {
    states.remove(key)
}

/// The states after `state` has been written to the cell of `key`; the same
/// states where the key has no cell.
pub open spec fn after_set_state<T>(states: States<T>, key: Seq<char>, state: T) -> States<T> {
    if states.contains_key(key) {
        states.insert(key, after_set(states[key], state))
    } else {
        states
    }
}

/// What a write to `key` reports: success where the key has a cell.
pub open spec fn write_result<T>(states: States<T>, key: Seq<char>) -> Result<
    (),
    AwaitStateError,
> {
    if states.contains_key(key) {
        Ok(())
    } else {
        Err(AwaitStateError::KeyNotFound)
    }
}

/// `result` is what reading `key` gives: a clone of the current value where
/// the key has a cell, `KeyNotFound` where it has none.
pub open spec fn reads<T: Clone>(
    states: States<T>,
    key: Seq<char>,
    result: Result<T, AwaitStateError>,
) -> bool {
    match result {
        Ok(value) => states.contains_key(key) && cloned(states[key].1, value),
        Err(e) => e == AwaitStateError::KeyNotFound && !states.contains_key(key),
    }
}

/// `action` is what a waiter decides at its first look at a cell in state
/// `state`: its answer to a snapshot of the cell.
pub open spec fn looks<T: Clone, F: Fn(&T, &T) -> bool>(
    state: (Option<T>, T),
    predicate: F,
    action: WaitAction<T>,
) -> bool {
    exists|copy: (Option<T>, T)|
        snapshot_of(state, copy) && #[trigger] answers(
            WaitEvent::Seen(copy.0, copy.1),
            predicate,
            action,
        )
}

/// `action` is what a waiter on `key` decides after looking the key up: the
/// end of the wait with `KeyNotFound` where the key has no cell, and
/// otherwise what its first look at the cell tells it.
pub open spec fn first_pass<T: Clone, F: Fn(&T, &T) -> bool>(
    states: States<T>,
    key: Seq<char>,
    predicate: F,
    action: WaitAction<T>,
) -> bool {
    if states.contains_key(key) {
        looks(states[key], predicate, action)
    } else {
        action == WaitAction::<T>::Finish(Err(AwaitStateError::KeyNotFound))
    }
}

/// The result of a wait that ran against a timer: the wait's own result where
/// it finished first, `TimeoutExpired` where the timer did.
pub open spec fn timed_result<T>(raced: Result<Result<T, AwaitStateError>, Elapsed>) -> Result<
    T,
    AwaitStateError,
> {
    match raced {
        Ok(finished) => finished,
        Err(_) => Err(AwaitStateError::TimeoutExpired),
    }
}

/// A cell and the key it is filed under.
struct Slot<T> {
    key: String,
    cell: WatchDiff<T>,
}

/// A map from keys to cells.
///
/// The cells stand side by side in `slots`; `index` leads from each key to
/// the slot of its cell. Every slot is in use: removing a key moves the last
/// slot into the gap.
pub struct AwaitStateMap<T> {
    index: DashMap<String, usize>,
    slots: Vec<Slot<T>>,
}

impl<T> View for AwaitStateMap<T> {
    type V = States<T>;

    /// The keys of the map, each with the previous and the current value of
    /// its cell.
    closed spec fn view(&self) -> States<T> {
        Map::new(
            |k: Seq<char>| entries(self.index).contains_key(k),
            |k: Seq<char>| self.slots@[entries(self.index)[k] as int].cell@,
        )
    }
}

impl<T> AwaitStateMap<T> {
    /// The index and the slots agree: each key leads to a slot that is filed
    /// under that key, and each slot is the one its key leads to.
    pub closed spec fn wf(&self) -> bool {
        &&& forall|k: Seq<char>| #[trigger]
            entries(self.index).contains_key(k) ==> {
                &&& entries(self.index)[k] < self.slots.len()
                &&& self.slots@[entries(self.index)[k] as int].key@ == k
            }
        &&& forall|i: int|
            0 <= i < self.slots.len() ==> {
                &&& entries(self.index).contains_key((#[trigger] self.slots@[i]).key@)
                &&& entries(self.index)[self.slots@[i].key@] == i
            }
    }
}

impl<T: Clone + PartialEq> AwaitStateMap<T> {
    /// A map without keys.
    pub fn new() -> (map: Self)
        ensures
            map.wf(),
            map@ == States::<T>::empty(),
    {
        AwaitStateMap { index: index_new(), slots: Vec::new() }
    }

    /// A map without keys whose index has room set aside for `capacity` of
    /// them. A request above `MAX_CAPACITY_HINT` sets aside room for that
    /// many.
    pub fn with_capacity(capacity: usize) -> (map: Self)
        ensures
            map.wf(),
            map@ == States::<T>::empty(),
    {
        let hint = if capacity <= MAX_CAPACITY_HINT {
            capacity
        } else {
            MAX_CAPACITY_HINT
        };
        AwaitStateMap { index: index_with_capacity(hint), slots: Vec::new() }
    }

    /// Files a fresh cell that holds `value` under `key`. A cell that was
    /// there before is gone, and so is its history.
    pub fn put(&mut self, key: &str, value: T)
        requires
            old(self).wf(),
        ensures
            final(self).wf(),
            final(self)@ == after_put(old(self)@, key@, value),
    {
        match index_get(&self.index, key) {
            Some(i) => {
                self.slots[i].cell = WatchDiff::new(value);
            },
            None => {
                let i = self.slots.len();
                self.slots.push(Slot { key: key.to_owned(), cell: WatchDiff::new(value) });
                index_insert(&mut self.index, key.to_owned(), i);
            },
        }
    }

    /// Takes `key` and its cell out of the map. Nothing happens where the key
    /// is not there.
    pub fn remove(&mut self, key: &str)
        requires
            old(self).wf(),
        ensures
            final(self).wf(),
            final(self)@ == after_remove(old(self)@, key@),
    {
        match index_remove(&mut self.index, key) {
            Some(i) => {
                let last = self.slots.len() - 1;
                self.slots.swap_remove(i);
                if i < last {
                    let moved = self.slots[i].key.clone();
                    index_insert(&mut self.index, moved, i);
                }
            },
            None => {},
        }
    }

    /// The cell filed under `key`.
    pub fn lookup(&self, key: &str) -> (hit: Option<&WatchDiff<T>>)
        requires
            self.wf(),
        ensures
            match hit {
                Some(cell) => self@.contains_key(key@) && cell@ == self@[key@],
                None => !self@.contains_key(key@),
            },
    {
        match index_get(&self.index, key) {
            Some(i) => Some(&self.slots[i].cell),
            None => None,
        }
    }

    /// Writes `state` to the cell of `key`.
    pub fn set_state(&mut self, key: &str, state: T) -> (result: Result<(), AwaitStateError>)
        requires
            old(self).wf(),
        ensures
            final(self).wf(),
            result == write_result(old(self)@, key@),
            final(self)@ == after_set_state(old(self)@, key@, state),
    {
        match found(index_get(&self.index, key)) {
            Ok(i) => {
                self.slots[i].cell.set(state);
                Ok(())
            },
            Err(e) => Err(e),
        }
    }

    /// A clone of the current value of `key`.
    pub fn get_state(&self, key: &str) -> (result: Result<T, AwaitStateError>)
        requires
            self.wf(),
        ensures
            reads(self@, key@, result),
    {
        match found(self.lookup(key)) {
            Ok(cell) => Ok(cell.get_diff_cloned().1),
            Err(e) => Err(e),
        }
    }

    /// A waiter's first pass over `key`: the lookup, a snapshot of the cell,
    /// and the decision on it.
    ///
    /// The answer is never `Retry`. On `Park` the waiter sleeps until the
    /// cell is written, takes what `changed` shows it to `wait_step`, and
    /// comes back here when it is told to retry. A predicate that is needed
    /// again is handed in by reference.
    pub fn wait_until<F>(&self, key: &str, predicate: F) -> (action: WaitAction<T>) where
        F: Fn(&T, &T) -> bool,

        requires
            self.wf(),
            total(predicate),
        ensures
            first_pass(self@, key@, predicate, action),
    {
        let event = match self.lookup(key) {
            Some(cell) => {
                let (prev, curr) = cell.get_diff_cloned();
                WaitEvent::Seen(prev, curr)
            },
            None => WaitEvent::Missing,
        };
        wait_step(event, predicate)
    }

    /// Settles a wait that ran against a timer. `raced` is what the race
    /// gave: the wait's own result, or the timer's notice that it fired first.
    pub fn wait_until_timeout(raced: Result<Result<T, AwaitStateError>, Elapsed>) -> (result: Result<
        T,
        AwaitStateError,
    >)
        ensures
            result == timed_result(raced),
    {
        match raced {
            Ok(finished) => finished,
            Err(_) => Err(AwaitStateError::TimeoutExpired),
        }
    }
}

/// A key that has just been put reads back as the value put, and its cell has
/// no previous value.
pub proof fn lemma_put_then_get_state<T: Clone>(
    states: States<T>,
    key: Seq<char>,
    value: T,
    result: Result<T, AwaitStateError>,
)
    requires
        reads(after_put(states, key, value), key, result),
    ensures
        result matches Ok(got) && cloned(value, got),
        after_put(states, key, value)[key].0 is None,
{
}

/// The first write to a key after it was put gives its cell a previous value,
/// and that value is the one put.
pub proof fn lemma_first_set_state_after_put<T>(
    states: States<T>,
    key: Seq<char>,
    value: T,
    state: T,
)
    ensures
        write_result(after_put(states, key, value), key) == Ok::<(), AwaitStateError>(()),
        after_set_state(after_put(states, key, value), key, state)[key] == (Some(value), state),
{
}

/// After two writes to a key the cell shows the transition from the first
/// value written to the second, and the key reads as the second.
pub proof fn lemma_set_state_twice<T: Clone>(
    states: States<T>,
    key: Seq<char>,
    first: T,
    second: T,
    result: Result<T, AwaitStateError>,
)
    requires
        states.contains_key(key),
        reads(after_set_state(after_set_state(states, key, first), key, second), key, result),
    ensures
        after_set_state(after_set_state(states, key, first), key, second)[key] == (
            Some(first),
            second,
        ),
        result matches Ok(got) && cloned(second, got),
{
}

/// A waiter that parked after the first of two writes and is woken by the
/// second sees the transition from the first value to the second, and a
/// predicate that holds of this transition ends its wait with the second
/// value.
///
/// The two values have to differ: a write that leaves the value as it was
/// wakes the waiter, but shows it no transition.
pub proof fn lemma_wait_across_set_state<T: Clone + PartialEq, F: Fn(&T, &T) -> bool>(
    states: States<T>,
    key: Seq<char>,
    first: T,
    second: T,
    predicate: F,
    seen: Option<(T, T)>,
    action: WaitAction<T>,
)
    requires
        states.contains_key(key),
        T::obeys_eq_spec(),
        !second.eq_spec(&first),
        forall|p: T, c: T| cloned(first, p) && cloned(second, c) ==> !rejects(predicate, p, c),
        first_pass(after_set_state(states, key, first), key, predicate, WaitAction::Park),
        transition_of(
            after_set_state(after_set_state(states, key, first), key, second)[key],
            seen,
        ),
        seen matches Some((p, c)) ==> answers(WaitEvent::Changed(p, c), predicate, action),
    ensures
        seen matches Some((p, c)) && cloned(first, p) && cloned(second, c) && action
            == WaitAction::Finish(Ok(c)),
{
}

/// A wait on a key whose state the predicate already holds of ends at the
/// first pass, with the current value, and needs no write.
///
/// On a cell that was never written the predicate is asked about the current
/// value twice. On a cell that was written it is asked about the previous and
/// the current value, so it has to hold of that pair too.
pub proof fn lemma_wait_on_satisfied_state<T: Clone, F: Fn(&T, &T) -> bool>(
    states: States<T>,
    key: Seq<char>,
    predicate: F,
    action: WaitAction<T>,
)
    requires
        states.contains_key(key),
        forall|c: T| cloned(states[key].1, c) ==> !rejects(predicate, c, c),
        states[key].0 matches Some(prev) ==> forall|p: T, c: T|
            cloned(prev, p) && cloned(states[key].1, c) ==> !rejects(predicate, p, c),
        first_pass(states, key, predicate, action),
    ensures
        action matches WaitAction::Finish(Ok(got)) && cloned(states[key].1, got),
{
}

/// Once a key has been removed, a waiter's next pass over it ends the wait
/// with `KeyNotFound`, whatever the predicate.
pub proof fn lemma_wait_after_remove<T: Clone, F: Fn(&T, &T) -> bool>(
    states: States<T>,
    key: Seq<char>,
    predicate: F,
    action: WaitAction<T>,
)
    requires
        first_pass(after_remove(states, key), key, predicate, action),
    ensures
        action == WaitAction::<T>::Finish(Err(AwaitStateError::KeyNotFound)),
{
}

} // verus!
