//! The two ways an operation on the state map can fail.

use vstd::prelude::*;

verus! {

/// Why an operation on the state map did not produce a value.
#[derive(Debug, Clone, Copy, PartialEq, Eq, Structural)]
pub enum AwaitStateError {
    /// The key had no cell at the moment it was looked up.
    KeyNotFound,
    /// The time allowed for a wait ran out before the predicate accepted a
    /// transition.
    TimeoutExpired,
}

/// What a lookup amounts to: the cell that was found, or `KeyNotFound`.
pub fn found<C>(looked_up: Option<C>) -> (result: Result<C, AwaitStateError>)
    ensures
        result == match looked_up {
            Some(cell) => Ok::<C, AwaitStateError>(cell),
            None => Err(AwaitStateError::KeyNotFound),
        },
{
    match looked_up {
        Some(cell) => Ok(cell),
        None => Err(AwaitStateError::KeyNotFound),
    }
}

} // verus!
