//! Scheduling logic for user-managed concurrency groups.

use vstd::prelude::*;

pub mod bounded;
pub mod conformance;
pub mod demo;
pub mod echo;
pub mod error;
pub mod ident;
pub mod perf;
pub mod pooled;
pub mod queued;
pub mod showcase;
pub mod status;
pub mod sysinfo;
pub mod task_run;
pub mod task_stats;
pub mod text;
pub mod umcg;
pub mod wait;

verus! {

/// The exit code of the basic worker check, which has nothing to check but that the library can be
/// called.
pub fn run_basic_worker_test() -> (r: i32)
    ensures
        r == 0,
{
    0
}

} // verus!
