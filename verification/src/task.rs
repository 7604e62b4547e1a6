//! The life of a connection's task.

use vstd::prelude::*;

verus! {

/// A task is active until the call it waits on reports a terminal
/// condition; from then on it is closed, and nothing reopens it.
#[derive(Clone, Copy, Debug, PartialEq, Eq, Structural)]
pub enum TaskState {
    Active,
    Closed,
}

} // verus!
