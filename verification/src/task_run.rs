//! How a task is run: its function is called, and once that has come back the task counts as done.

use vstd::prelude::*;

verus! {

/// How far the run of a task has come.
#[derive(Debug, Copy, Clone, PartialEq, Eq, Structural)]
pub enum RunStage {
    /// Its function was not called.
    Waiting,
    /// Its function was called.
    Called,
    /// Its function came back, and the task counts as done.
    Done,
}

/// The run of a task with this function.
#[derive(Debug, Copy, Clone, PartialEq, Eq, Structural)]
pub struct TaskRun {
    pub function: u64,
    pub stage: RunStage,
}

/// What the thread that runs a task does next.
#[derive(Debug, Copy, Clone, PartialEq, Eq, Structural)]
pub enum RunStep {
    /// Call this function, and go on when it came back.
    Call { function: u64 },
    /// Count the task as done, and go on.
    Mark,
    /// Nothing; the task is over.
    Stop,
}

/// What comes next in the run of a task, and the run as it is then.
pub open spec fn next_step(run: TaskRun) -> (TaskRun, RunStep) {
    match run.stage {
        RunStage::Waiting => (
            TaskRun { stage: RunStage::Called, ..run },
            RunStep::Call { function: run.function },
        ),
        RunStage::Called => (TaskRun { stage: RunStage::Done, ..run }, RunStep::Mark),
        RunStage::Done => (run, RunStep::Stop),
    }
}

/// The run of a task after so many steps.
pub open spec fn run_after(run: TaskRun, steps: nat) -> TaskRun
    decreases steps,
{
    if steps == 0 {
        run
    } else {
        next_step(run_after(run, (steps - 1) as nat)).0
    }
}

impl TaskRun {
    /// The run of a task whose function was not called.
    pub fn new(function: u64) -> (r: TaskRun)
        ensures
            r == (TaskRun { function, stage: RunStage::Waiting }),
    {
        TaskRun { function, stage: RunStage::Waiting }
    }

    /// Says what comes next. If a function was to be called, it came back.
    pub fn step(&mut self) -> (r: RunStep)
        ensures
            (*final(self), r) == next_step(*old(self)),
    {
        match self.stage {
            RunStage::Waiting => {
                self.stage = RunStage::Called;
                RunStep::Call { function: self.function }
            },
            RunStage::Called => {
                self.stage = RunStage::Done;
                RunStep::Mark
            },
            RunStage::Done => RunStep::Stop,
        }
    }
}

/// However often a run is taken further, the function of its task is called exactly once, in the
/// first step, and the task is marked exactly once, in the second step, after its function came
/// back.
pub proof fn law_called_once_then_marked_once(function: u64, steps: nat)
    ensures
        ({
            let fresh = TaskRun { function, stage: RunStage::Waiting };
            next_step(run_after(fresh, steps)).1 == if steps == 0 {
                RunStep::Call { function }
            } else if steps == 1 {
                RunStep::Mark
            } else {
                RunStep::Stop
            }
        }),
{
    lemma_run_after(function, steps);
}

/// Where the run of a task is after so many steps.
pub proof fn lemma_run_after(function: u64, steps: nat)
    ensures
        run_after(TaskRun { function, stage: RunStage::Waiting }, steps) == (TaskRun {
            function,
            stage: if steps == 0 {
                RunStage::Waiting
            } else if steps == 1 {
                RunStage::Called
            } else {
                RunStage::Done
            },
        }),
    decreases steps,
{
    if steps > 0 {
        lemma_run_after(function, (steps - 1) as nat);
    }
}

} // verus!
