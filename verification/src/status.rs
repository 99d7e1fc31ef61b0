//! The states a worker goes through.

use vstd::prelude::*;

verus! {

/// What a worker is doing, as far as its server knows.
#[derive(Debug, Copy, Clone, PartialEq, Eq, Structural)]
pub enum WorkerStatus {
    /// Its thread has started and is not registered yet.
    Initializing,
    /// Its registration is under way.
    Registering,
    /// It is executing a task.
    Running,
    /// It is blocked in the kernel.
    Blocked,
    /// It is ready for a task.
    Waiting,
    /// It has finished and is registered no longer.
    Completed,
}

} // verus!
