//! Keyed state cells that remember their previous value, and the rules by
//! which a waiter decides whether a transition ends its wait.
//!
//! The library is sequential: every function runs to completion on values
//! its caller owns or borrows. A concurrent front end keeps one lock and one
//! notifier per cell and asks the library what to do at each step.

pub mod await_state;
pub mod error;
pub mod index;
pub mod wait;
pub mod watch_diff;

pub use await_state::AwaitStateMap;
pub use error::{found, AwaitStateError};
pub use wait::{wait_step, WaitAction, WaitEvent};
pub use watch_diff::WatchDiff;
