//! A server: it takes in the kernel's events about its workers and hands tasks to those that are
//! ready.
//!
//! Two things a server cannot do by itself: send a function to a worker's thread, and switch to a
//! worker. Where an operation comes to one of these it stops with a [`Request`] and goes on when
//! it is told the outcome. A switch reports events, and handling one of them may need a switch of
//! its own, so operations nest; the server keeps them on a stack.

use crate::error::ServerError;
use crate::ident::random_id;
use crate::pooled::pool::{
    assignment, is_waiting, with_status, with_status_only, Assignment, Worker, WorkerPool,
};
use crate::pooled::task::{
    enqueued, finished, marked, new_entry, next_task, without_next, Task, TaskEntry, TaskQueue,
    TaskQueueView,
};
use crate::status::WorkerStatus;
use crate::umcg::{event_kind, event_tid, kind_of, tid_of};
use vstd::prelude::*;

verus! {

/// What a server needs done before it can go on.
#[derive(Debug, Copy, Clone, PartialEq, Eq, Structural)]
pub enum Request {
    /// Send a function to the worker's thread.
    Send { tid: i32, function: u64 },
    /// Switch to the worker, with room for two events.
    Switch { tid: i32 },
}

/// What came of a request. A return value of zero means success; a failed switch leaves an error
/// number, and a switch that succeeded reports up to two events, with zero for none.
#[derive(Debug, Copy, Clone, PartialEq, Eq, Structural)]
pub struct Reply {
    pub ret: i32,
    pub errno: i32,
    pub first: u64,
    pub second: u64,
}

/// How far an operation has come.
#[derive(Debug, Copy, Clone, PartialEq, Eq)]
pub enum Progress {
    /// It is over.
    Finished(Result<(), ServerError>),
    /// It waits for the outcome of a request.
    Needs(Request),
}

/// Why a worker is switched to.
#[derive(Debug, Copy, Clone, PartialEq, Eq, Structural)]
pub enum Caller {
    /// It finished a task and was given another one at once.
    Completion,
    /// It was blocked and can go on with its task.
    Resumption,
    /// It was ready and was given a task.
    Scheduling,
}

/// How far the switch to a worker has come.
#[derive(Debug, Copy, Clone, PartialEq, Eq, Structural)]
pub enum Stage {
    /// The function is being sent; `spent` is the task without it.
    Sending { function: u64, spent: TaskEntry },
    /// The switch itself is under way.
    Switching,
    /// The events that the switch reported are being handled; these are left.
    Draining { first: u64, second: u64 },
}

/// A switch to a worker that is not over.
#[derive(Debug, Copy, Clone, PartialEq, Eq, Structural)]
pub struct Frame {
    pub tid: i32,
    pub caller: Caller,
    pub stage: Stage,
}

/// The workers and the tasks of a server.
#[verifier::ext_equal]
pub struct Core {
    pub pool: Map<i32, Worker>,
    pub queue: TaskQueueView,
}

/// The contents of a server, but for the numbers that it was made with.
#[verifier::ext_equal]
pub struct ServerView {
    pub core: Core,
    pub done: bool,
    pub calls: Seq<Frame>,
}

/// What an event or an attempt to schedule comes to: it is over, or a worker has to be switched
/// to.
pub enum Move {
    Return(Result<(), ServerError>),
    Call(Frame),
}

/// What a switch needs done next.
pub open spec fn request_of(frame: Frame) -> Request {
    match frame.stage {
        Stage::Sending { function, .. } => Request::Send { tid: frame.tid, function },
        _ => Request::Switch { tid: frame.tid },
    }
}

/// The workers with one of them put to another status and task.
pub open spec fn set_worker(
    core: Core,
    tid: i32,
    status: WorkerStatus,
    task: Option<u128>,
) -> Core {
    Core { pool: with_status(core.pool, tid, status, task), ..core }
}

/// Gives the next task to the worker `tid`. The worker counts as running it from now on; a task
/// whose function is waiting is sent before the worker is switched to.
pub open spec fn give_task(core: Core, tid: i32, caller: Caller, now: u64) -> (Core, Move) {
    let rest = without_next(core.queue);
    match next_task(core.queue) {
        None => (Core { queue: rest, ..core }, Move::Return(Ok(()))),
        Some(task) => (
            Core {
                pool: with_status(core.pool, tid, WorkerStatus::Running, Some(task.id)),
                queue: marked(rest, task.id, tid, now),
            },
            Move::Call(
                Frame {
                    tid,
                    caller,
                    stage: match assignment(task) {
                        Assignment::Send { function, spent } => Stage::Sending { function, spent },
                        Assignment::Nothing => Stage::Switching,
                    },
                },
            ),
        ),
    }
}

/// A worker woke up. One that was running is done with its task, which leaves the tasks in
/// progress, and gets the next one; one that was blocked goes on with its task. Otherwise nothing
/// happens.
pub open spec fn on_wake(core: Core, tid: i32, now: u64) -> (Core, Move) {
    if !core.pool.contains_key(tid) {
        (core, Move::Return(Ok(())))
    } else {
        let worker = core.pool[tid];
        match worker.status {
            WorkerStatus::Running => {
                let idle = set_worker(core, tid, WorkerStatus::Waiting, None);
                match worker.current_task {
                    None => (idle, Move::Return(Ok(()))),
                    Some(task) => give_task(
                        Core { queue: finished(core.queue, task), ..idle },
                        tid,
                        Caller::Completion,
                        now,
                    ),
                }
            },
            WorkerStatus::Blocked => (
                set_worker(core, tid, WorkerStatus::Running, worker.current_task),
                Move::Call(Frame { tid, caller: Caller::Resumption, stage: Stage::Switching }),
            ),
            _ => (core, Move::Return(Ok(()))),
        }
    }
}

/// What an event does. A worker that blocks keeps its task; one that waits has none; one that
/// exits is completed; any kind but these and a wake-up is refused.
pub open spec fn on_event(core: Core, event: u64, now: u64) -> (Core, Move) {
    let tid = tid_of(event);
    let kind = kind_of(event);
    if kind == 1 {
        (
            Core { pool: with_status_only(core.pool, tid, WorkerStatus::Blocked), ..core },
            Move::Return(Ok(())),
        )
    } else if kind == 2 {
        on_wake(core, tid, now)
    } else if kind == 3 {
        if is_waiting(core.pool, tid) {
            (core, Move::Return(Ok(())))
        } else {
            (set_worker(core, tid, WorkerStatus::Waiting, None), Move::Return(Ok(())))
        }
    } else if kind == 4 {
        (set_worker(core, tid, WorkerStatus::Completed, None), Move::Return(Ok(())))
    } else {
        (
            core,
            Move::Return(Err(ServerError::InvalidWorkerEvent { worker_id: tid as usize, event })),
        )
    }
}

/// What the end of a switch means for the operation that asked for it. A worker that was given a
/// task and could not be switched to is ready again; only scheduling passes the error on.
pub open spec fn after_switch(
    core: Core,
    frame: Frame,
    outcome: Result<(), ServerError>,
) -> (Core, Result<(), ServerError>) {
    let ready = set_worker(core, frame.tid, WorkerStatus::Waiting, None);
    match frame.caller {
        Caller::Completion => (if outcome is Err { ready } else { core }, Ok(())),
        Caller::Resumption => (core, Ok(())),
        Caller::Scheduling => (if outcome is Err { ready } else { core }, outcome),
    }
}

/// How many steps a switch can take at most before it ends or a request comes up.
pub open spec fn frame_weight(frame: Frame) -> nat {
    match frame.stage {
        Stage::Draining { first, second } => if first == 0 {
            1
        } else if second == 0 {
            2
        } else {
            3
        },
        _ => 1,
    }
}

/// How many steps the stack can take at most before it is empty or a request comes up.
pub open spec fn weight(calls: Seq<Frame>) -> nat
    decreases calls.len(),
{
    if calls.len() == 0 {
        0
    } else {
        weight(calls.drop_last()) + frame_weight(calls.last())
    }
}

/// Goes on after an operation came to an end with `outcome`: the switch that reported its event
/// handles its next event, or ends on an error or when no event is left, which ends the operation
/// that asked for the switch, and so on.
pub open spec fn settle(
    core: Core,
    calls: Seq<Frame>,
    outcome: Result<(), ServerError>,
    now: u64,
) -> (Core, Seq<Frame>, Progress)
    decreases weight(calls),
{
    if calls.len() == 0 {
        (core, calls, Progress::Finished(outcome))
    } else {
        let top = calls.last();
        let below = calls.drop_last();
        match top.stage {
            Stage::Draining { first, second } => {
                proof {
                    assert(below.push(
                        Frame { stage: Stage::Draining { first: second, second: 0 }, ..top },
                    ).drop_last() =~= below);
                }
                if outcome is Err || first == 0 {
                    let (core2, outcome2) = after_switch(core, top, outcome);
                    settle(core2, below, outcome2, now)
                } else {
                    let rest = below.push(
                        Frame { stage: Stage::Draining { first: second, second: 0 }, ..top },
                    );
                    match on_event(core, first, now) {
                        (core2, Move::Return(outcome2)) => settle(core2, rest, outcome2, now),
                        (core2, Move::Call(frame)) => (
                            core2,
                            rest.push(frame),
                            Progress::Needs(request_of(frame)),
                        ),
                    }
                }
            },
            _ => (core, calls, Progress::Needs(request_of(top))),
        }
    }
}

proof fn lemma_weight_push(calls: Seq<Frame>, frame: Frame)
    ensures
        weight(calls.push(frame)) == weight(calls) + frame_weight(frame),
{
    assert(calls.push(frame).drop_last() =~= calls);
}

/// Goes on after the first step of an operation.
pub open spec fn carry_on(stepped: (Core, Move), calls: Seq<Frame>, now: u64) -> (
    Core,
    Seq<Frame>,
    Progress,
) {
    match stepped.1 {
        Move::Return(outcome) => settle(stepped.0, calls, outcome, now),
        Move::Call(frame) => (stepped.0, calls.push(frame), Progress::Needs(request_of(frame))),
    }
}

/// Goes on after a request was answered. A function that could not be sent is lost with its task,
/// and the worker is ready again.
pub open spec fn on_reply(core: Core, calls: Seq<Frame>, reply: Reply, now: u64) -> (
    Core,
    Seq<Frame>,
    Progress,
) {
    let top = calls.last();
    let below = calls.drop_last();
    match top.stage {
        Stage::Sending { spent, .. } => if reply.ret == 0 {
            (
                core,
                below.push(Frame { stage: Stage::Switching, ..top }),
                Progress::Needs(Request::Switch { tid: top.tid }),
            )
        } else {
            let kept = Core { queue: enqueued(core.queue, spent), ..core };
            settle(
                set_worker(kept, top.tid, WorkerStatus::Waiting, None),
                below,
                Ok(()),
                now,
            )
        },
        _ => if reply.ret == 0 {
            settle(
                core,
                below.push(
                    Frame {
                        stage: Stage::Draining { first: reply.first, second: reply.second },
                        ..top
                    },
                ),
                Ok(()),
                now,
            )
        } else {
            let (core2, outcome) = after_switch(
                core,
                top,
                Err(ServerError::SystemError(reply.errno)),
            );
            settle(core2, below, outcome, now)
        },
    }
}

/// The switches that wait for one of their events to be handled.
pub open spec fn all_draining(calls: Seq<Frame>) -> bool {
    forall|i: int| 0 <= i < calls.len() ==> (#[trigger] calls[i]).stage is Draining
}

/// A switch waits for the outcome of a request. Where that is to send a function, the task that is
/// left counts as completed.
pub open spec fn waits_for_outcome(frame: Frame) -> bool {
    match frame.stage {
        Stage::Sending { spent, .. } => spent.state is Completed,
        Stage::Switching => true,
        Stage::Draining { .. } => false,
    }
}

/// What holds of every stack: the topmost switch waits for the outcome of a request, and each of
/// the others for the handling of one of its events.
pub open spec fn stack_ok(calls: Seq<Frame>) -> bool {
    calls.len() > 0 ==> all_draining(calls.drop_last()) && waits_for_outcome(calls.last())
}

/// A server with its workers and its tasks.
pub struct Server {
    pub id: usize,
    pub cpu_id: usize,
    pub task_queue: TaskQueue,
    pub worker_pool: WorkerPool,
    pub done: bool,
    pub calls: Vec<Frame>,
}

impl View for Server {
    type V = ServerView;

    open spec fn view(&self) -> ServerView {
        ServerView {
            core: Core { pool: self.worker_pool@, queue: self.task_queue@ },
            done: self.done,
            calls: self.calls@,
        }
    }
}

impl Server {
    /// What holds of the workers and the tasks of every server.
    pub open spec fn parts_ok(&self) -> bool {
        self.task_queue.wf() && self.worker_pool.wf()
    }

    /// What holds of every server.
    pub open spec fn wf(&self) -> bool {
        self.parts_ok() && stack_ok(self.calls@)
    }

    /// The numbers that the server was made with are as before.
    pub open spec fn same_server(&self, other: &Server) -> bool {
        &&& self.id == other.id
        &&& self.cpu_id == other.cpu_id
        &&& self.worker_pool.total_workers == other.worker_pool.total_workers
    }

    /// The server went from `old` to this, with `progress` made, as `after` says; and nothing but
    /// its workers, its tasks and its stack changed.
    pub open spec fn went(
        &self,
        old: &Server,
        after: (Core, Seq<Frame>, Progress),
        progress: Progress,
    ) -> bool {
        &&& self.wf()
        &&& self.same_server(old)
        &&& self@ == (ServerView { core: after.0, done: old@.done, calls: after.1 })
        &&& progress == after.2
        &&& progress is Finished <==> self@.calls.len() == 0
    }

    /// A server without tasks, for `worker_count` workers that are yet to come.
    pub fn new(id: usize, cpu_id: usize, worker_count: usize) -> (r: Server)
        ensures
            r.wf(),
            r.id == id,
            r.cpu_id == cpu_id,
            r.worker_pool.total_workers == worker_count,
            r@.core.pool == Map::<i32, Worker>::empty(),
            r@.core.queue == (TaskQueueView {
                pending: Seq::empty(),
                preempted: Seq::empty(),
                in_progress: Map::empty(),
            }),
            !r@.done,
            r@.calls.len() == 0,
    {
        Server {
            id,
            cpu_id,
            task_queue: TaskQueue::new(),
            worker_pool: WorkerPool::new(worker_count),
            done: false,
            calls: Vec::new(),
        }
    }

    /// Takes in a function to call, under a random name, or the request to stop.
    pub fn add_task(&mut self, task: Task, now: u64)
        requires
            old(self).wf(),
        ensures
            exists|id: u128| #[trigger]
                added(old(self), final(self), task, id, now) && (task is Function
                    ==> crate::ident::is_random_uuid(id)),
    {
        match task {
            Task::Function(_) => {
                let id = random_id();
                self.add_task_as(task, id, now);
            },
            Task::Shutdown => {
                self.add_task_as(task, 0, now);
            },
        }
    }

    /// Takes in a function to call, under the name `id`, or the request to stop.
    pub fn add_task_as(&mut self, task: Task, id: u128, now: u64)
        requires
            old(self).wf(),
        ensures
            added(old(self), final(self), task, id, now),
    {
        match task {
            Task::Function(function) => {
                self.task_queue.enqueue(TaskEntry::with_id(id, function, now));
            },
            Task::Shutdown => {
                self.done = true;
            },
        }
    }

    /// Puts a worker to another status and task.
    pub fn transition_worker_state(
        &mut self,
        worker_tid: i32,
        new_state: WorkerStatus,
        task_id: Option<u128>,
    )
        requires
            old(self).wf(),
        ensures
            final(self).wf(),
            final(self).same_server(old(self)),
            final(self)@ == (ServerView {
                core: set_worker(old(self)@.core, worker_tid, new_state, task_id),
                ..old(self)@
            }),
    {
        self.worker_pool.update_worker_status(worker_tid, new_state, task_id);
    }

    /// Gives the next task to the worker `tid`; returns the switch that this calls for, or nothing
    /// if there is no task.
    fn give_next_task(&mut self, tid: i32, caller: Caller, now: u64) -> (r: Option<Frame>)
        requires
            old(self).parts_ok(),
            old(self)@.core.pool.contains_key(tid),
        ensures
            final(self).parts_ok(),
            final(self).same_server(old(self)),
            final(self)@.done == old(self)@.done,
            final(self)@.calls == old(self)@.calls,
            ({
                let (core, step) = give_task(old(self)@.core, tid, caller, now);
                &&& final(self)@.core == core
                &&& step == (match r {
                    Some(frame) => Move::Call(frame),
                    None => Move::Return(Ok(())),
                })
                &&& r matches Some(frame) ==> waits_for_outcome(frame)
            }),
    {
        match self.task_queue.get_next_task() {
            None => None,
            Some(task) => {
                self.worker_pool.update_worker_status(tid, WorkerStatus::Running, Some(task.id));
                self.task_queue.mark_in_progress(task.id, tid, now);
                let stage = match self.worker_pool.get(tid) {
                    Some(worker) => match worker.assign_task(task) {
                        Assignment::Send { function, spent } => Stage::Sending { function, spent },
                        Assignment::Nothing => Stage::Switching,
                    },
                    None => Stage::Switching,
                };
                Some(Frame { tid, caller, stage })
            },
        }
    }

    /// The first step of handling an event: the switch that it calls for, or its outcome.
    fn start_event(&mut self, event: u64, now: u64) -> (r: (Option<Frame>, Result<(), ServerError>))
        requires
            old(self).parts_ok(),
        ensures
            final(self).parts_ok(),
            final(self).same_server(old(self)),
            final(self)@.done == old(self)@.done,
            final(self)@.calls == old(self)@.calls,
            ({
                let (core, step) = on_event(old(self)@.core, event, now);
                &&& final(self)@.core == core
                &&& step == (match r.0 {
                    Some(frame) => Move::Call(frame),
                    None => Move::Return(r.1),
                })
                &&& r.0 matches Some(frame) ==> waits_for_outcome(frame)
            }),
    {
        let kind = event_kind(event);
        let tid = event_tid(event);
        if kind == 1 {
            self.worker_pool.update_worker_status_keep_task(tid, WorkerStatus::Blocked);
            (None, Ok(()))
        } else if kind == 2 {
            match self.worker_pool.get_worker_state(tid) {
                None => (None, Ok(())),
                Some((status, task)) => match status {
                    WorkerStatus::Running => {
                        self.worker_pool.update_worker_status(tid, WorkerStatus::Waiting, None);
                        match task {
                            None => (None, Ok(())),
                            Some(task_id) => {
                                self.task_queue.remove_finished(task_id);
                                (self.give_next_task(tid, Caller::Completion, now), Ok(()))
                            },
                        }
                    },
                    WorkerStatus::Blocked => {
                        self.worker_pool.update_worker_status(tid, WorkerStatus::Running, task);
                        (
                            Some(
                                Frame {
                                    tid,
                                    caller: Caller::Resumption,
                                    stage: Stage::Switching,
                                },
                            ),
                            Ok(()),
                        )
                    },
                    _ => (None, Ok(())),
                },
            }
        } else if kind == 3 {
            if let Some((status, _)) = self.worker_pool.get_worker_state(tid) {
                if status != WorkerStatus::Waiting {
                    self.worker_pool.update_worker_status(tid, WorkerStatus::Waiting, None);
                }
            }
            (None, Ok(()))
        } else if kind == 4 {
            self.worker_pool.update_worker_status(tid, WorkerStatus::Completed, None);
            (None, Ok(()))
        } else {
            #[verifier::truncate]
            let worker_id: usize = tid as usize;
            (None, Err(ServerError::InvalidWorkerEvent { worker_id, event }))
        }
    }

    /// The end of a switch: what it means for the operation that asked for it.
    fn end_switch(&mut self, frame: Frame, outcome: Result<(), ServerError>) -> (r: Result<
        (),
        ServerError,
    >)
        requires
            old(self).parts_ok(),
        ensures
            final(self).parts_ok(),
            final(self).same_server(old(self)),
            final(self)@.done == old(self)@.done,
            final(self)@.calls == old(self)@.calls,
            (final(self)@.core, r) == after_switch(old(self)@.core, frame, outcome),
    {
        let failed = outcome.is_err();
        match frame.caller {
            Caller::Completion => {
                if failed {
                    self.worker_pool.update_worker_status(frame.tid, WorkerStatus::Waiting, None);
                }
                Ok(())
            },
            Caller::Resumption => Ok(()),
            Caller::Scheduling => {
                if failed {
                    self.worker_pool.update_worker_status(frame.tid, WorkerStatus::Waiting, None);
                }
                outcome
            },
        }
    }

    /// Goes on after an operation came to an end with `outcome`.
    fn settle(&mut self, ended: Result<(), ServerError>, now: u64) -> (r: Progress)
        requires
            old(self).parts_ok(),
            all_draining(old(self)@.calls),
        ensures
            final(self).went(
                old(self),
                settle(old(self)@.core, old(self)@.calls, ended, now),
                r,
            ),
    {
        let mut outcome = ended;
        loop
            invariant
                self.parts_ok(),
                all_draining(self@.calls),
                self.same_server(old(self)),
                self@.done == old(self)@.done,
                settle(self@.core, self@.calls, outcome, now) == settle(
                    old(self)@.core,
                    old(self)@.calls,
                    ended,
                    now,
                ),
            decreases weight(self@.calls),
        {
            let ghost before = self@;
            match self.calls.pop() {
                None => {
                    assert(self@.calls =~= before.calls);
                    return Progress::Finished(outcome);
                },
                Some(top) => {
                    assert(before.calls.last() == top && before.calls.drop_last() == self@.calls);
                    if let Stage::Draining { first, second } = top.stage {
                        if outcome.is_err() || first == 0 {
                            outcome = self.end_switch(top, outcome);
                        } else {
                            let rest = Frame {
                                tid: top.tid,
                                caller: top.caller,
                                stage: Stage::Draining { first: second, second: 0 },
                            };
                            proof {
                                lemma_weight_push(self@.calls, rest);
                            }
                            self.calls.push(rest);
                            let (called, returned) = self.start_event(first, now);
                            match called {
                                Some(frame) => {
                                    let ghost rest_calls = self@.calls;
                                    self.calls.push(frame);
                                    assert(self@.calls.drop_last() =~= rest_calls);
                                    return Progress::Needs(needed(&frame));
                                },
                                None => {
                                    outcome = returned;
                                },
                            }
                        }
                    }
                },
            }
        }
    }

    /// Goes on after the first step of an operation.
    fn carry_on(&mut self, called: Option<Frame>, ended: Result<(), ServerError>, now: u64) -> (r:
        Progress)
        requires
            old(self).wf(),
            old(self)@.calls.len() == 0,
            called matches Some(frame) ==> waits_for_outcome(frame),
        ensures
            final(self).went(
                old(self),
                carry_on(
                    (
                        old(self)@.core,
                        match called {
                            Some(frame) => Move::Call(frame),
                            None => Move::Return(ended),
                        },
                    ),
                    old(self)@.calls,
                    now,
                ),
                r,
            ),
    {
        match called {
            Some(frame) => {
                self.calls.push(frame);
                Progress::Needs(needed(&frame))
            },
            None => self.settle(ended, now),
        }
    }

    /// Handles an event. If the handling needs a switch, `resume` goes on with it.
    pub fn handle_umcg_event(&mut self, event: u64, now: u64) -> (r: Progress)
        requires
            old(self).wf(),
            old(self)@.calls.len() == 0,
        ensures
            final(self).went(
                old(self),
                carry_on(on_event(old(self)@.core, event, now), Seq::empty(), now),
                r,
            ),
    {
        let (called, ended) = self.start_event(event, now);
        assert(old(self)@.calls =~= Seq::empty());
        self.carry_on(called, ended, now)
    }

    /// Gives the next task, if there is one, to some worker that is ready, if there is one.
    pub fn try_schedule_tasks(&mut self, now: u64) -> (r: Progress)
        requires
            old(self).wf(),
            old(self)@.calls.len() == 0,
        ensures
            scheduled(old(self), final(self), r, now),
    {
        match self.worker_pool.get_available_worker() {
            Some(worker) => {
                let r = self.schedule_on(worker.tid, now);
                assert(is_waiting(old(self)@.core.pool, worker.tid));
                r
            },
            None => Progress::Finished(Ok(())),
        }
    }

    /// Gives the next task, if there is one, to the worker `tid`.
    pub fn schedule_on(&mut self, tid: i32, now: u64) -> (r: Progress)
        requires
            old(self).wf(),
            old(self)@.calls.len() == 0,
            old(self)@.core.pool.contains_key(tid),
        ensures
            final(self).went(
                old(self),
                carry_on(
                    give_task(old(self)@.core, tid, Caller::Scheduling, now),
                    Seq::empty(),
                    now,
                ),
                r,
            ),
    {
        let called = self.give_next_task(tid, Caller::Scheduling, now);
        assert(old(self)@.calls =~= Seq::empty());
        self.carry_on(called, Ok(()), now)
    }

    /// Goes on with an operation after its request was answered.
    pub fn resume(&mut self, reply: Reply, now: u64) -> (r: Progress)
        requires
            old(self).wf(),
            old(self)@.calls.len() > 0,
        ensures
            final(self).went(
                old(self),
                on_reply(old(self)@.core, old(self)@.calls, reply, now),
                r,
            ),
    {
        match self.calls.pop() {
            None => Progress::Finished(Ok(())),
            Some(top) => {
                let ghost below = old(self)@.calls.drop_last();
                assert(self@.calls =~= below);
                match top.stage {
                    Stage::Sending { spent, .. } => {
                        if reply.ret == 0 {
                            let frame = Frame {
                                tid: top.tid,
                                caller: top.caller,
                                stage: Stage::Switching,
                            };
                            self.calls.push(frame);
                            assert(self@.calls.drop_last() =~= below);
                            Progress::Needs(Request::Switch { tid: top.tid })
                        } else {
                            self.task_queue.enqueue(spent);
                            self.worker_pool.update_worker_status(
                                top.tid,
                                WorkerStatus::Waiting,
                                None,
                            );
                            self.settle(Ok(()), now)
                        }
                    },
                    _ => {
                        if reply.ret == 0 {
                            let frame = Frame {
                                tid: top.tid,
                                caller: top.caller,
                                stage: Stage::Draining {
                                    first: reply.first,
                                    second: reply.second,
                                },
                            };
                            self.calls.push(frame);
                            self.settle(Ok(()), now)
                        } else {
                            let ended = self.end_switch(
                                top,
                                Err(ServerError::SystemError(reply.errno)),
                            );
                            self.settle(ended, now)
                        }
                    },
                }
            },
        }
    }

    /// Begins to stop: no further event is waited for. Returns the workers that have to be told,
    /// each once, in no particular order.
    pub fn initiate_shutdown(&mut self) -> (r: Vec<i32>)
        requires
            old(self).wf(),
        ensures
            final(self).wf(),
            final(self).same_server(old(self)),
            final(self)@ == (ServerView { done: true, ..old(self)@ }),
            r@.no_duplicates(),
            r@.to_set() == old(self)@.core.pool.dom(),
    {
        self.done = true;
        self.worker_pool.tids()
    }
}

/// The server `after` is `before` after an attempt to schedule: some worker that was ready was
/// given the next task, or no worker was ready and nothing changed.
pub open spec fn scheduled(before: &Server, after: &Server, r: Progress, now: u64) -> bool {
    ||| exists|tid: i32|
        #![trigger is_waiting(before@.core.pool, tid)]
        is_waiting(before@.core.pool, tid) && after.went(
            before,
            carry_on(give_task(before@.core, tid, Caller::Scheduling, now), Seq::empty(), now),
            r,
        )
    ||| {
        &&& forall|tid: i32| !is_waiting(before@.core.pool, tid)
        &&& *after == *before
        &&& r == Progress::Finished(Ok(()))
    }
}

/// What a switch needs done next.
fn needed(frame: &Frame) -> (r: Request)
    ensures
        r == request_of(*frame),
{
    match frame.stage {
        Stage::Sending { function, .. } => Request::Send { tid: frame.tid, function },
        _ => Request::Switch { tid: frame.tid },
    }
}

/// The server `after` is `before` with `task` taken in under the name `id`: a function joins the
/// waiting tasks, and the request to stop is noted.
pub open spec fn added(before: &Server, after: &Server, task: Task, id: u128, now: u64) -> bool {
    &&& after.wf()
    &&& after.same_server(before)
    &&& after@ == match task {
        Task::Function(function) => ServerView {
            core: Core {
                queue: enqueued(before@.core.queue, new_entry(id, function, now)),
                ..before@.core
            },
            ..before@
        },
        Task::Shutdown => ServerView { done: true, ..before@ },
    }
}

} // verus!
