//! The decisions of a waiter: what it does with each thing it observes.
//!
//! A waiter looks its key up, tests the transition it finds, and parks on the
//! cell when the predicate rejects it. Woken by a write, it tests the new
//! transition and, when that is rejected too, starts over with a fresh lookup.
//! Looking up, parking and being woken are the caller's business; which of
//! them comes next is decided here.

use crate::error::AwaitStateError;
use vstd::prelude::*;

verus! {

/// What a waiter has just observed.
#[derive(Debug, PartialEq)]
pub enum WaitEvent<T> {
    /// The lookup found no cell under the key.
    Missing,
    /// The lookup found a cell; these are its previous and current value.
    Seen(Option<T>, T),
    /// The cell the waiter was parked on has gone from the first value to the
    /// second.
    Changed(T, T),
}

/// What a waiter does next.
#[derive(Debug, PartialEq)]
pub enum WaitAction<T> {
    /// The wait is over and this is its result.
    Finish(Result<T, AwaitStateError>),
    /// Park on the cell just seen until it changes, then report the change.
    Park,
    /// Look the key up again and report what is found.
    Retry,
}

/// The predicate can return `true` for the transition from `prev` to `curr`.
pub open spec fn accepts<T, F: Fn(&T, &T) -> bool>(predicate: F, prev: T, curr: T) -> bool {
    call_ensures(predicate, (&prev, &curr), true)
}

/// The predicate can return `false` for the transition from `prev` to `curr`.
pub open spec fn rejects<T, F: Fn(&T, &T) -> bool>(predicate: F, prev: T, curr: T) -> bool {
    call_ensures(predicate, (&prev, &curr), false)
}

/// The predicate may be called on every pair of values.
pub open spec fn total<T, F: Fn(&T, &T) -> bool>(predicate: F) -> bool {
    forall|prev: T, curr: T| call_requires(predicate, (&prev, &curr))
}

/// The value that stands for the previous one at a waiter's first look: the
/// previous value itself, or the current value where the cell was never set.
pub open spec fn first_look<T>(prev: Option<T>, curr: T) -> T {
    match prev {
        Some(p) => p,
        None => curr,
    }
}

/// `action` is a waiter's answer to `event` under `predicate`.
///
/// A missing key ends the wait with `KeyNotFound`. A transition that the
/// predicate accepts ends it with the transition's current value. A rejected
/// first look parks the waiter, a rejected change sends it back to the lookup.
pub open spec fn answers<T, F: Fn(&T, &T) -> bool>(
    event: WaitEvent<T>,
    predicate: F,
    action: WaitAction<T>,
) -> bool {
    match event {
        WaitEvent::Missing => action == WaitAction::<T>::Finish(Err(AwaitStateError::KeyNotFound)),
        WaitEvent::Seen(prev, curr) => {
            ||| action == WaitAction::Finish(Ok(curr)) && accepts(predicate, first_look(prev, curr), curr)
            ||| action == WaitAction::<T>::Park && rejects(predicate, first_look(prev, curr), curr)
        },
        WaitEvent::Changed(prev, curr) => {
            ||| action == WaitAction::Finish(Ok(curr)) && accepts(predicate, prev, curr)
            ||| action == WaitAction::<T>::Retry && rejects(predicate, prev, curr)
        },
    }
}

/// One decision of a waiter.
pub fn wait_step<T, F>(event: WaitEvent<T>, predicate: F) -> (action: WaitAction<T>) where
    F: Fn(&T, &T) -> bool,

    requires
        total(predicate),
    ensures
        answers(event, predicate, action),
{
    match event {
        WaitEvent::Missing => WaitAction::Finish(Err(AwaitStateError::KeyNotFound)),
        WaitEvent::Seen(prev, curr) => {
            let satisfied = match &prev {
                Some(p) => predicate(p, &curr),
                None => predicate(&curr, &curr),
            };
            if satisfied {
                WaitAction::Finish(Ok(curr))
            } else {
                WaitAction::Park
            }
        },
        WaitEvent::Changed(prev, curr) => {
            if predicate(&prev, &curr) {
                WaitAction::Finish(Ok(curr))
            } else {
                WaitAction::Retry
            }
        },
    }
}

/// Under a predicate that accepts no transition a waiter never ends its wait
/// with a value: whatever it observes, it parks, retries, or finds its key
/// gone. A wait under such a predicate can only be ended from outside.
pub proof fn lemma_wait_under_unsatisfiable_predicate<T, F: Fn(&T, &T) -> bool>(
    event: WaitEvent<T>,
    predicate: F,
    action: WaitAction<T>,
)
    requires
        forall|prev: T, curr: T| !accepts(predicate, prev, curr),
        answers(event, predicate, action),
    ensures
        action == WaitAction::<T>::Park || action == WaitAction::<T>::Retry || action
            == WaitAction::<T>::Finish(Err(AwaitStateError::KeyNotFound)),
{
}

} // verus!
