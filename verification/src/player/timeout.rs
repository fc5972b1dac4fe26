//! Timeouts of states that take several ticks.

use vstd::prelude::*;

use super::moving::Moving;

verus! {

/// How long a state has been going on.
#[derive(Clone, Copy, Debug, PartialEq, Eq, Structural)]
pub struct Timeout {
    /// The number of ticks since the last progress.
    pub current: u32,
    /// The number of ticks since the start.
    pub total: u32,
    pub started: bool,
}

impl Timeout {
    /// A timeout that has not started.
    pub open spec fn fresh() -> Timeout {
        Timeout { current: 0, total: 0, started: false }
    }
}

impl Default for Timeout {
    fn default() -> (r: Timeout)
        ensures
            r == Timeout::fresh(),
    {
        Timeout { current: 0, total: 0, started: false }
    }
}

/// What a tick makes of a [`Timeout`].
#[derive(Clone, Copy, Debug, PartialEq, Eq, Structural)]
pub enum Lifecycle {
    /// The first tick.
    Started(Timeout),
    /// The limit is reached.
    Ended,
    /// Any tick in between.
    Updated(Timeout),
}

/// What a tick makes of a movement with a timeout.
#[derive(Clone, Copy, Debug, PartialEq, Eq, Structural)]
pub enum MovingLifecycle {
    /// The first tick.
    Started(Moving),
    /// The limit is reached.
    Ended(Moving),
    /// Any tick in between.
    Updated(Moving),
}

} // verus!
