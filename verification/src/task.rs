//! What a task is told to do after one turn of its cycle.

use crate::types::Log;
use vstd::prelude::*;

verus! {

/// What the caller does before it asks for the next turn.
#[derive(Debug, PartialEq, Eq, Clone, Copy, Structural)]
pub enum Directive {
    /// The task ends: no further turn is taken.
    Stop,
    /// The task sleeps for `ms` milliseconds; with zero it goes on at once.
    Sleep { ms: u64 },
}

/// The result of one turn: what to do next, and the records for the log.
#[derive(Debug)]
pub struct Turn {
    pub directive: Directive,
    pub logs: Vec<Log>,
}

} // verus!
