//! The course of the demonstrations that run tasks: servers are started, tasks are handed in, and
//! their completion is waited for.
//!
//! [`Showcase`] decides what comes next; the program that drives it does the work and reports what
//! came of it.

use crate::demo::{poll_completion, progress_due, PollStep, COMPLETION_TIMEOUT_NS};
use vstd::prelude::*;

verus! {

/// How a demonstration ends.
#[derive(Debug, Copy, Clone, PartialEq, Eq, Structural)]
pub enum Ending {
    /// With the completion of all tasks, or when the time is over.
    Completion,
    /// After so many milliseconds.
    Pause { millis: u64 },
    /// Never: statistics are shown every second.
    Watch,
}

/// What a demonstration is made of.
#[derive(Debug, Copy, Clone, PartialEq, Eq, Structural)]
pub struct Plan {
    /// How many servers are started.
    pub servers: usize,
    /// How many workers each of them has.
    pub workers: usize,
    /// Whether each server is waited for until all its workers are ready, before the next one is
    /// started. If not, all servers are started together.
    pub one_by_one: bool,
    /// How many tasks the queue that the servers share has room for; zero if each has its own.
    pub capacity: usize,
    /// How long to rest after the servers were started, in milliseconds.
    pub rest: u64,
    /// How many tasks are handed in.
    pub tasks: usize,
    pub ending: Ending,
}

/// One server with three workers, and six tasks that are waited for.
pub fn dynamic_plan() -> (r: Plan)
    ensures
        r == (Plan {
            servers: 1,
            workers: 3,
            one_by_one: false,
            capacity: 0,
            rest: 50,
            tasks: 6,
            ending: Ending::Completion,
        }),
{
    Plan {
        servers: 1,
        workers: 3,
        one_by_one: false,
        capacity: 0,
        rest: 50,
        tasks: 6,
        ending: Ending::Completion,
    }
}

/// Three servers with three workers each, and nine tasks that are given fifteen seconds.
pub fn multi_server_plan() -> (r: Plan)
    ensures
        r == (Plan {
            servers: 3,
            workers: 3,
            one_by_one: false,
            capacity: 0,
            rest: 100,
            tasks: 9,
            ending: Ending::Pause { millis: 15_000 },
        }),
{
    Plan {
        servers: 3,
        workers: 3,
        one_by_one: false,
        capacity: 0,
        rest: 100,
        tasks: 9,
        ending: Ending::Pause { millis: 15_000 },
    }
}

/// One server with ten workers and a shared queue, and thirty tasks that are waited for.
pub fn queued_plan() -> (r: Plan)
    ensures
        r == (Plan {
            servers: 1,
            workers: 10,
            one_by_one: true,
            capacity: 100_000,
            rest: 0,
            tasks: 30,
            ending: Ending::Completion,
        }),
{
    Plan {
        servers: 1,
        workers: 10,
        one_by_one: true,
        capacity: 100_000,
        rest: 0,
        tasks: 30,
        ending: Ending::Completion,
    }
}

/// Four servers with a hundred workers each and a shared queue, and one task, which takes in
/// connections for as long as the program runs.
pub fn echo_plan() -> (r: Plan)
    ensures
        r == (Plan {
            servers: 4,
            workers: 100,
            one_by_one: true,
            capacity: 10_000,
            rest: 0,
            tasks: 1,
            ending: Ending::Watch,
        }),
{
    Plan {
        servers: 4,
        workers: 100,
        one_by_one: true,
        capacity: 10_000,
        rest: 0,
        tasks: 1,
        ending: Ending::Watch,
    }
}

/// What the driver of a demonstration does next.
#[derive(Debug, Copy, Clone, PartialEq, Eq, Structural)]
pub enum Act {
    /// Start all servers.
    StartAll,
    /// Start the server with this number, with its workers.
    Start { server_id: usize },
    /// Count the workers of the server with this number that are ready.
    CountReady { server_id: usize },
    /// Rest for so many milliseconds.
    Rest { millis: u64 },
    /// Let the servers go on.
    Release,
    /// Hand in the task with this number.
    Submit { number: usize },
    /// Look whether all tasks are done, and how long they have been waited for.
    Look,
    /// Tell of the progress if it is due, and rest for so many milliseconds.
    Linger { report: bool, millis: u64 },
    /// Tell whether all tasks were done in time, and stop the servers.
    Stop { in_time: bool },
    /// Rest for a second and show the statistics.
    ShowStats,
    /// End with this exit code.
    Finish { code: i32 },
}

/// What came of it: how many workers are ready, whether all tasks are done, and for how long they
/// have been waited for, in nanoseconds.
#[derive(Debug, Copy, Clone, PartialEq, Eq, Structural)]
pub struct Sight {
    pub ready: usize,
    pub all_done: bool,
    pub elapsed: u64,
}

/// How far a demonstration has come.
#[derive(Debug, Copy, Clone, PartialEq, Eq, Structural)]
pub enum Scene {
    /// The server with this number is next.
    Starting { server_id: usize },
    /// Its workers are about to be counted.
    Started { server_id: usize },
    /// They were counted.
    Counted { server_id: usize },
    /// The servers were let go.
    Released,
    /// The task with this number is next.
    Submitting { number: usize },
    /// It was looked whether all tasks are done.
    Looked,
    /// The end, with this exit code.
    Leaving { code: i32 },
    /// It is over.
    Over,
}

/// A demonstration.
#[derive(Debug, Copy, Clone, PartialEq, Eq, Structural)]
pub struct Showcase {
    pub plan: Plan,
    pub scene: Scene,
}

/// The next server is started, or the servers are let go if there is none.
pub open spec fn next_start(plan: Plan, server_id: int) -> (Scene, Act) {
    if server_id < plan.servers {
        (
            Scene::Started { server_id: server_id as usize },
            Act::Start { server_id: server_id as usize },
        )
    } else {
        (Scene::Released, Act::Release)
    }
}

/// The next task is handed in, or the end begins if there is none.
pub open spec fn next_submit(plan: Plan, number: int) -> (Scene, Act) {
    if number < plan.tasks {
        (
            Scene::Submitting { number: (number + 1) as usize },
            Act::Submit { number: number as usize },
        )
    } else {
        match plan.ending {
            Ending::Completion => (Scene::Looked, Act::Look),
            Ending::Pause { millis } => (Scene::Leaving { code: 0 }, Act::Rest { millis }),
            Ending::Watch => (Scene::Submitting { number: plan.tasks }, Act::ShowStats),
        }
    }
}

/// What comes next, and how far the demonstration has come then.
pub open spec fn next_act(plan: Plan, scene: Scene, sight: Sight) -> (Scene, Act) {
    match scene {
        Scene::Starting { server_id } => if plan.one_by_one {
            next_start(plan, server_id as int)
        } else {
            (Scene::Released, Act::StartAll)
        },
        Scene::Started { server_id } => (
            Scene::Counted { server_id },
            Act::CountReady { server_id },
        ),
        Scene::Counted { server_id } => if sight.ready == plan.workers {
            next_start(plan, server_id + 1)
        } else {
            (Scene::Started { server_id }, Act::Rest { millis: 10 })
        },
        Scene::Released => if plan.rest > 0 {
            (Scene::Submitting { number: 0 }, Act::Rest { millis: plan.rest })
        } else {
            next_submit(plan, 0)
        },
        Scene::Submitting { number } => next_submit(plan, number as int),
        Scene::Looked => if sight.all_done {
            (Scene::Leaving { code: 0 }, Act::Stop { in_time: true })
        } else if sight.elapsed > COMPLETION_TIMEOUT_NS {
            (Scene::Leaving { code: 1 }, Act::Stop { in_time: false })
        } else {
            (
                Scene::Submitting { number: plan.tasks },
                Act::Linger { report: (sight.elapsed / 1_000_000_000) % 5 == 0, millis: 100 },
            )
        },
        Scene::Leaving { code } => (Scene::Over, Act::Finish { code }),
        Scene::Over => (Scene::Over, Act::Finish { code: 0 }),
    }
}

impl Showcase {
    /// A demonstration that has not begun.
    pub fn new(plan: Plan) -> (r: Showcase)
        ensures
            r == (Showcase { plan, scene: Scene::Starting { server_id: 0 } }),
            r.wf(),
    {
        Showcase { plan, scene: Scene::Starting { server_id: 0 } }
    }

    /// What holds of every demonstration: the servers and the tasks that were reached are among
    /// those that were planned.
    pub open spec fn wf(&self) -> bool {
        match self.scene {
            Scene::Starting { server_id } => server_id <= self.plan.servers,
            Scene::Started { server_id } => server_id < self.plan.servers,
            Scene::Counted { server_id } => server_id < self.plan.servers,
            Scene::Submitting { number } => number <= self.plan.tasks,
            _ => true,
        }
    }

    fn start(&mut self, server_id: usize) -> (r: Act)
        requires
            server_id <= old(self).plan.servers,
        ensures
            final(self).wf(),
            final(self).plan == old(self).plan,
            (final(self).scene, r) == next_start(old(self).plan, server_id as int),
    {
        if server_id < self.plan.servers {
            self.scene = Scene::Started { server_id };
            Act::Start { server_id }
        } else {
            self.scene = Scene::Released;
            Act::Release
        }
    }

    fn submit(&mut self, number: usize) -> (r: Act)
        requires
            number <= old(self).plan.tasks,
        ensures
            final(self).wf(),
            final(self).plan == old(self).plan,
            (final(self).scene, r) == next_submit(old(self).plan, number as int),
    {
        if number < self.plan.tasks {
            self.scene = Scene::Submitting { number: number + 1 };
            Act::Submit { number }
        } else {
            match self.plan.ending {
                Ending::Completion => {
                    self.scene = Scene::Looked;
                    Act::Look
                },
                Ending::Pause { millis } => {
                    self.scene = Scene::Leaving { code: 0 };
                    Act::Rest { millis }
                },
                Ending::Watch => {
                    self.scene = Scene::Submitting { number: self.plan.tasks };
                    Act::ShowStats
                },
            }
        }
    }

    /// Takes in what came of the last act and says what to do next.
    pub fn step(&mut self, sight: Sight) -> (r: Act)
        requires
            old(self).wf(),
        ensures
            final(self).wf(),
            final(self).plan == old(self).plan,
            (final(self).scene, r) == next_act(old(self).plan, old(self).scene, sight),
    {
        match self.scene {
            Scene::Starting { server_id } => {
                if self.plan.one_by_one {
                    self.start(server_id)
                } else {
                    self.scene = Scene::Released;
                    Act::StartAll
                }
            },
            Scene::Started { server_id } => {
                self.scene = Scene::Counted { server_id };
                Act::CountReady { server_id }
            },
            Scene::Counted { server_id } => {
                if sight.ready == self.plan.workers {
                    self.start(server_id + 1)
                } else {
                    self.scene = Scene::Started { server_id };
                    Act::Rest { millis: 10 }
                }
            },
            Scene::Released => {
                if self.plan.rest > 0 {
                    self.scene = Scene::Submitting { number: 0 };
                    Act::Rest { millis: self.plan.rest }
                } else {
                    self.submit(0)
                }
            },
            Scene::Submitting { number } => self.submit(number),
            Scene::Looked => match poll_completion(sight.all_done, sight.elapsed) {
                PollStep::Done => {
                    self.scene = Scene::Leaving { code: 0 };
                    Act::Stop { in_time: true }
                },
                PollStep::TimedOut => {
                    self.scene = Scene::Leaving { code: 1 };
                    Act::Stop { in_time: false }
                },
                PollStep::Wait => {
                    self.scene = Scene::Submitting { number: self.plan.tasks };
                    Act::Linger { report: progress_due(sight.elapsed), millis: 100 }
                },
            },
            Scene::Leaving { code } => {
                self.scene = Scene::Over;
                Act::Finish { code }
            },
            Scene::Over => Act::Finish { code: 0 },
        }
    }
}

/// Servers that are started one by one are let go only once all workers of the last one are ready.
pub proof fn law_workers_are_ready_first(plan: Plan, scene: Scene, sight: Sight)
    requires
        plan.one_by_one,
        plan.servers > 0,
        (Showcase { plan, scene }).wf(),
    ensures
        next_act(plan, scene, sight).1 is Release ==> scene == (Scene::Starting {
            server_id: plan.servers,
        }) || sight.ready == plan.workers && scene == (Scene::Counted {
            server_id: (plan.servers - 1) as usize,
        }),
{
}

/// The scenes that follow when nothing but tasks is to be handed in: after so many steps.
pub open spec fn after_submitting(plan: Plan, scene: Scene, sight: Sight, steps: nat) -> Scene
    decreases steps,
{
    if steps == 0 {
        scene
    } else {
        next_act(plan, after_submitting(plan, scene, sight, (steps - 1) as nat), sight).0
    }
}

/// Every planned task is handed in once, in order: the step that follows after `number` others
/// hands in the task with that number.
pub proof fn law_tasks_are_handed_in_order(plan: Plan, sight: Sight, number: nat)
    requires
        number < plan.tasks,
    ensures
        next_act(
            plan,
            after_submitting(plan, Scene::Submitting { number: 0 }, sight, number),
            sight,
        ).1 == (Act::Submit { number: number as usize }),
{
    lemma_submitting(plan, sight, number);
}

proof fn lemma_submitting(plan: Plan, sight: Sight, number: nat)
    requires
        number <= plan.tasks,
    ensures
        after_submitting(plan, Scene::Submitting { number: 0 }, sight, number)
            == (Scene::Submitting { number: number as usize }),
    decreases number,
{
    if number > 0 {
        lemma_submitting(plan, sight, (number - 1) as nat);
    }
}

/// A demonstration that waits for its tasks ends with zero if they were all done in time, and else
/// with one.
pub proof fn law_exit_code_tells_completion(plan: Plan, sight: Sight)
    ensures
        ({
            let (scene, act) = next_act(plan, Scene::Looked, sight);
            &&& act is Stop <==> sight.all_done || sight.elapsed > COMPLETION_TIMEOUT_NS
            &&& act is Stop ==> next_act(plan, scene, sight).1 == (Act::Finish {
                code: if sight.all_done {
                    0
                } else {
                    1
                },
            })
        }),
{
}

/// What a demonstration does, and when. Servers are all started together, or each one after the one
/// before it has all its workers; they are let go when none is left; then tasks are handed in one
/// after the other; and then the end comes that was planned.
pub proof fn law_acts(plan: Plan, scene: Scene, sight: Sight)
    requires
        (Showcase { plan, scene }).wf(),
    ensures
        ({
            let (next, act) = next_act(plan, scene, sight);
            let handed_in = match scene {
                Scene::Submitting { number } => number >= plan.tasks,
                Scene::Released => plan.rest == 0 && plan.tasks == 0,
                _ => false,
            };
            &&& act is StartAll <==> scene is Starting && !plan.one_by_one
            &&& act is Start <==> match scene {
                Scene::Starting { server_id } => plan.one_by_one && server_id < plan.servers,
                Scene::Counted { server_id } => sight.ready == plan.workers && server_id + 1
                    < plan.servers,
                _ => false,
            }
            &&& act matches Act::Start { server_id } ==> match scene {
                Scene::Starting { server_id: id } => server_id == id,
                Scene::Counted { server_id: id } => server_id == id + 1,
                _ => false,
            }
            &&& act is Release <==> match scene {
                Scene::Starting { server_id } => plan.one_by_one && server_id == plan.servers,
                Scene::Counted { server_id } => sight.ready == plan.workers && server_id + 1
                    == plan.servers,
                _ => false,
            }
            &&& act is CountReady <==> scene is Started
            &&& act matches Act::CountReady { server_id } ==> scene == (Scene::Started {
                server_id,
            }) && next == (Scene::Counted { server_id })
            &&& scene matches Scene::Counted { server_id } ==> (sight.ready != plan.workers
                ==> act == (Act::Rest { millis: 10 }) && next == (Scene::Started { server_id }))
            &&& scene is Released && plan.rest > 0 ==> act == (Act::Rest { millis: plan.rest })
                && next == (Scene::Submitting { number: 0 })
            &&& act matches Act::Submit { number } ==> {
                &&& number < plan.tasks
                &&& next == (Scene::Submitting { number: (number + 1) as usize })
                &&& scene == (Scene::Submitting { number }) || scene is Released && number == 0
            }
            &&& act is Submit <==> !handed_in && (scene is Submitting || scene is Released
                && plan.rest == 0)
            &&& act is Look <==> handed_in && plan.ending is Completion
            &&& act is ShowStats <==> handed_in && plan.ending is Watch
            &&& handed_in && plan.ending is Watch ==> next == (Scene::Submitting {
                number: plan.tasks,
            })
            &&& handed_in ==> (plan.ending matches Ending::Pause { millis } ==> act == (Act::Rest {
                millis,
            }) && next == (Scene::Leaving { code: 0 }))
        }),
{
}

/// How a demonstration ends that waits for its tasks. It looks again and again, a tenth of a second
/// apart, until all tasks are done or thirty seconds are over; it tells of its progress in the
/// seconds that can be divided by five.
pub proof fn law_looking_ends(plan: Plan, sight: Sight)
    ensures
        ({
            let (next, act) = next_act(plan, Scene::Looked, sight);
            let late = sight.elapsed > 30_000_000_000;
            &&& act == (Act::Stop { in_time: true }) <==> sight.all_done
            &&& act == (Act::Stop { in_time: false }) <==> !sight.all_done && late
            &&& act is Linger <==> !sight.all_done && !late
            &&& act matches Act::Linger { report, millis } ==> {
                &&& millis == 100
                &&& report <==> (sight.elapsed as int / 1_000_000_000) % 5 == 0
                &&& next == (Scene::Submitting { number: plan.tasks })
            }
            &&& sight.all_done ==> next == (Scene::Leaving { code: 0 })
            &&& !sight.all_done && late ==> next == (Scene::Leaving { code: 1 })
        }),
{
}

/// A demonstration that leaves with an exit code ends with that code, and then nothing follows.
pub proof fn law_leaving_ends(plan: Plan, code: i32, sight: Sight, later: Sight)
    ensures
        next_act(plan, Scene::Leaving { code }, sight).1 == (Act::Finish { code }),
        next_act(plan, next_act(plan, Scene::Leaving { code }, sight).0, later) == (
            Scene::Over,
            Act::Finish { code: 0 },
        ),
        next_act(plan, Scene::Starting { server_id: 0 }, sight).1 is StartAll ==> next_act(
            plan,
            Scene::Starting { server_id: 0 },
            sight,
        ).0 is Released,
        next_act(plan, Scene::Starting { server_id: 0 }, sight).1 matches Act::Start { server_id }
            ==> next_act(plan, Scene::Starting { server_id: 0 }, sight).0 == (Scene::Started {
            server_id,
        }),
{
}

} // verus!
