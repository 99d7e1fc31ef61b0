//! A server that shares its queues with other servers: it takes in the kernel's events about its
//! workers and hands tasks to those that are ready.
//!
//! Where an operation has to send a task to a worker's thread or to switch to a worker it stops
//! with a [`Request`] and goes on when it is told the outcome. Handling an event that a switch
//! reported may need a switch of its own; the server keeps the switches under way on a stack.

use crate::bounded::oldest;
use crate::error::ServerError;
use crate::queued::metrics::ContextSwitchMetrics;
use crate::queued::queues::{
    is_full, put, taken, taken_back, Bounded, QueuesView, TaskQueue, WorkerQueues,
};
use crate::queued::table::{members_of, ready_count, ready_workers};
use crate::status::WorkerStatus;
use crate::umcg::{
    event_kind, event_tid, event_worker, kind_of, tid_of, worker_of, UMCG_WORKER_ID_SHIFT,
};
use std::collections::{HashMap, HashSet};
use vstd::prelude::*;

verus! {

broadcast use vstd::std_specs::hash::group_hash_axioms;

/// What a server needs done before it can go on.
#[derive(Debug, Copy, Clone, PartialEq, Eq, Structural)]
pub enum Request {
    /// Send a task to the worker's thread.
    Send { worker_id: u64, task: u64 },
    /// Switch to the worker with this thread id, with room for two events.
    Switch { tid: i32 },
}

/// What came of a request. A return value of zero means success; a failed switch leaves an error
/// number, and a switch that succeeded reports up to two events, with zero for none.
#[derive(Debug, Copy, Clone, PartialEq, Eq, Structural)]
pub struct Reply {
    pub ret: i32,
    pub errno: i32,
    pub first: u64,
    pub second: u64,
}

/// How far an operation has come.
#[derive(Debug, Copy, Clone, PartialEq, Eq)]
pub enum Progress {
    /// It is over.
    Finished(Result<(), ServerError>),
    /// It waits for the outcome of a request.
    Needs(Request),
}

/// Why a worker is switched to.
#[derive(Debug, Copy, Clone, PartialEq, Eq, Structural)]
pub enum Caller {
    /// It was blocked and woke up.
    Waking,
    /// It was ready and was sent a task.
    Scheduling,
}

/// How far the switch to a worker has come.
#[derive(Debug, Copy, Clone, PartialEq, Eq, Structural)]
pub enum Stage {
    /// The task is being sent.
    Sending { task: u64 },
    /// The switch itself is under way.
    Switching,
    /// The events that the switch reported are being handled; these are left.
    Draining { first: u64, second: u64 },
}

/// A switch to a worker that is not over.
#[derive(Debug, Copy, Clone, PartialEq, Eq, Structural)]
pub struct Frame {
    pub worker_id: u64,
    pub caller: Caller,
    pub stage: Stage,
}

/// The workers of a server, the shared queues of workers, and the errors with which switches ended
/// that were not told of yet.
#[verifier::ext_equal]
pub struct Core {
    pub states: Map<u64, WorkerStatus>,
    pub queues: QueuesView,
    pub failures: Seq<ServerError>,
}

/// What an event or an attempt to schedule comes to: it is over, or a worker has to be switched
/// to.
pub enum Move {
    Return(Result<(), ServerError>),
    Call(Frame),
}

/// What a switch needs done next.
pub open spec fn request_of(frame: Frame) -> Request {
    match frame.stage {
        Stage::Sending { task } => Request::Send { worker_id: frame.worker_id, task },
        _ => Request::Switch { tid: tid_of(frame.worker_id) },
    }
}

/// The worker is known and has this status.
pub open spec fn has_status(core: Core, worker_id: u64, status: WorkerStatus) -> bool {
    core.states.contains_key(worker_id) && core.states[worker_id] == status
}

/// The workers with one of them, if it is known, put to another status.
pub open spec fn set_status(core: Core, worker_id: u64, status: WorkerStatus) -> Core {
    if core.states.contains_key(worker_id) {
        Core { states: core.states.insert(worker_id, status), ..core }
    } else {
        core
    }
}

/// The worker joins those that are ready, if there is room.
pub open spec fn line_up(core: Core, worker_id: u64) -> Core {
    Core {
        queues: QueuesView { pending: put(core.queues.pending, worker_id), ..core.queues },
        ..core
    }
}

/// The worker that has been running for longest leaves those that run.
pub open spec fn leave_running(core: Core) -> Core {
    Core {
        queues: QueuesView { running: taken(core.queues.running), ..core.queues },
        ..core
    }
}

/// What an event does. A running worker that blocks is blocked; a blocked one that wakes up runs
/// and is switched to; a running one that waits is ready again. In any other status, and if the
/// worker is unknown, nothing happens. Any other kind of event is refused.
pub open spec fn on_event(core: Core, event: u64) -> (Core, Move) {
    let worker_id = worker_of(event);
    let kind = kind_of(event);
    if kind == 1 {
        (
            if has_status(core, worker_id, WorkerStatus::Running) {
                set_status(core, worker_id, WorkerStatus::Blocked)
            } else {
                core
            },
            Move::Return(Ok(())),
        )
    } else if kind == 2 {
        if has_status(core, worker_id, WorkerStatus::Blocked) {
            (
                set_status(core, worker_id, WorkerStatus::Running),
                Move::Call(Frame { worker_id, caller: Caller::Waking, stage: Stage::Switching }),
            )
        } else {
            (core, Move::Return(Ok(())))
        }
    } else if kind == 3 {
        (
            if has_status(core, worker_id, WorkerStatus::Running) {
                line_up(
                    leave_running(set_status(core, worker_id, WorkerStatus::Waiting)),
                    worker_id,
                )
            } else {
                core
            },
            Move::Return(Ok(())),
        )
    } else {
        (
            core,
            Move::Return(
                Err(ServerError::InvalidWorkerEvent { worker_id: worker_id as usize, event }),
            ),
        )
    }
}

/// The worker leaves those that run, where it was put in last.
pub open spec fn back_out(core: Core, worker_id: u64) -> Core {
    Core {
        queues: QueuesView { running: taken_back(core.queues.running, worker_id), ..core.queues },
        ..core
    }
}

/// What the end of a switch means. An error is noted. A worker that woke up and could not be
/// switched to is blocked again. One that was sent a task and could not be switched to leaves those
/// that run and is ready again.
pub open spec fn after_switch(
    core: Core,
    frame: Frame,
    outcome: Result<(), ServerError>,
) -> Core {
    match outcome {
        Ok(_) => core,
        Err(error) => {
            let noted = Core { failures: core.failures.push(error), ..core };
            match frame.caller {
                Caller::Waking => set_status(noted, frame.worker_id, WorkerStatus::Blocked),
                Caller::Scheduling => line_up(
                    set_status(
                        back_out(noted, frame.worker_id),
                        frame.worker_id,
                        WorkerStatus::Waiting,
                    ),
                    frame.worker_id,
                ),
            }
        },
    }
}

/// The error of a switch that failed: the worker, what the call returned and the error number.
pub open spec fn switch_error_of(worker_id: u64, reply: Reply) -> ServerError {
    ServerError::ContextSwitchFailed { worker_id, ret_code: reply.ret, errno: reply.errno }
}

/// How many steps a switch can take at most before it ends or a request comes up.
pub open spec fn frame_weight(frame: Frame) -> nat {
    match frame.stage {
        Stage::Draining { first, second } => if first == 0 {
            1
        } else if second == 0 {
            2
        } else {
            3
        },
        _ => 1,
    }
}

/// How many steps the stack can take at most before it is empty or a request comes up.
pub open spec fn weight(calls: Seq<Frame>) -> nat
    decreases calls.len(),
{
    if calls.len() == 0 {
        0
    } else {
        weight(calls.drop_last()) + frame_weight(calls.last())
    }
}

/// Goes on after an event was handled, or a switch ended, with `outcome`: the switch that reported
/// the event handles its next event, or ends on an error or when no event is left. Who asked for a
/// switch hears of no error.
pub open spec fn settle(core: Core, calls: Seq<Frame>, outcome: Result<(), ServerError>) -> (
    Core,
    Seq<Frame>,
    Progress,
)
    decreases weight(calls),
{
    if calls.len() == 0 {
        (core, calls, Progress::Finished(outcome))
    } else {
        let top = calls.last();
        let below = calls.drop_last();
        match top.stage {
            Stage::Draining { first, second } => {
                proof {
                    assert(below.push(
                        Frame { stage: Stage::Draining { first: second, second: 0 }, ..top },
                    ).drop_last() =~= below);
                }
                if outcome is Err || first == 0 {
                    settle(after_switch(core, top, outcome), below, Ok(()))
                } else {
                    let rest = below.push(
                        Frame { stage: Stage::Draining { first: second, second: 0 }, ..top },
                    );
                    match on_event(core, first) {
                        (core2, Move::Return(outcome2)) => settle(core2, rest, outcome2),
                        (core2, Move::Call(frame)) => (
                            core2,
                            rest.push(frame),
                            Progress::Needs(request_of(frame)),
                        ),
                    }
                }
            },
            _ => (core, calls, Progress::Needs(request_of(top))),
        }
    }
}

proof fn lemma_weight_push(calls: Seq<Frame>, frame: Frame)
    ensures
        weight(calls.push(frame)) == weight(calls) + frame_weight(frame),
{
    assert(calls.push(frame).drop_last() =~= calls);
}

/// Goes on after the first step of an operation.
pub open spec fn carry_on(stepped: (Core, Move), calls: Seq<Frame>) -> (
    Core,
    Seq<Frame>,
    Progress,
) {
    match stepped.1 {
        Move::Return(outcome) => settle(stepped.0, calls, outcome),
        Move::Call(frame) => (stepped.0, calls.push(frame), Progress::Needs(request_of(frame))),
    }
}

/// Goes on after a request was answered. A task that could not be sent is lost, and so is the
/// worker, which is no longer among those that are ready. A worker that was sent a task runs, and
/// is switched to if there is room among those that run; else it is ready again, with the task.
pub open spec fn on_reply(core: Core, calls: Seq<Frame>, reply: Reply) -> (
    Core,
    Seq<Frame>,
    Progress,
) {
    let top = calls.last();
    let below = calls.drop_last();
    match top.stage {
        Stage::Sending { .. } => if reply.ret != 0 {
            settle(core, below, Ok(()))
        } else if is_full(core.queues.running) {
            settle(
                line_up(set_status(core, top.worker_id, WorkerStatus::Waiting), top.worker_id),
                below,
                Ok(()),
            )
        } else {
            let running = set_status(core, top.worker_id, WorkerStatus::Running);
            (
                Core {
                    queues: QueuesView {
                        running: put(core.queues.running, top.worker_id),
                        ..core.queues
                    },
                    ..running
                },
                below.push(Frame { stage: Stage::Switching, ..top }),
                Progress::Needs(Request::Switch { tid: tid_of(top.worker_id) }),
            )
        },
        _ => if reply.ret == 0 {
            settle(
                core,
                below.push(
                    Frame {
                        stage: Stage::Draining { first: reply.first, second: reply.second },
                        ..top
                    },
                ),
                Ok(()),
            )
        } else {
            settle(
                after_switch(
                    core,
                    top,
                    Err(switch_error_of(top.worker_id, reply)),
                ),
                below,
                Ok(()),
            )
        },
    }
}

/// The first step of an attempt to schedule. The worker that has been ready for longest is taken;
/// one that is not this server's, or not ready after all, and one for which there is no task, goes
/// to the end of those that are ready. A task for a worker that cannot be sent one is lost, with
/// the worker.
pub open spec fn begin(core: Core, channels: Set<u64>, tasks: Bounded) -> (Core, Bounded, Move) {
    let rest = Core {
        queues: QueuesView { pending: taken(core.queues.pending), ..core.queues },
        ..core
    };
    match oldest(core.queues.pending.held) {
        None => (rest, tasks, Move::Return(Ok(()))),
        Some(worker_id) => if !has_status(core, worker_id, WorkerStatus::Waiting) {
            (line_up(rest, worker_id), tasks, Move::Return(Ok(())))
        } else {
            match oldest(tasks.held) {
                None => (line_up(rest, worker_id), taken(tasks), Move::Return(Ok(()))),
                Some(task) => (
                    rest,
                    taken(tasks),
                    if channels.contains(worker_id) {
                        Move::Call(
                            Frame {
                                worker_id,
                                caller: Caller::Scheduling,
                                stage: Stage::Sending { task },
                            },
                        )
                    } else {
                        Move::Return(Ok(()))
                    },
                ),
            }
        },
    }
}

/// The switches that wait for one of their events to be handled.
pub open spec fn all_draining(calls: Seq<Frame>) -> bool {
    forall|i: int| 0 <= i < calls.len() ==> (#[trigger] calls[i]).stage is Draining
}

/// What holds of every stack: the topmost switch waits for the outcome of a request, and each of
/// the others for the handling of one of its events.
pub open spec fn stack_ok(calls: Seq<Frame>) -> bool {
    calls.len() > 0 ==> all_draining(calls.drop_last()) && calls.last().stage !is Draining
}

/// A server with its workers: their statuses, and those that can be sent a task. Errors with which
/// switches ended are kept until they are told of.
pub struct Server {
    pub id: usize,
    pub states: HashMap<u64, WorkerStatus>,
    pub failures: Vec<ServerError>,
    pub channels: HashSet<u64>,
    pub metrics: ContextSwitchMetrics,
    pub done: bool,
    pub calls: Vec<Frame>,
}

/// The workers of a server with its errors, and the shared queues of workers.
pub open spec fn core_of(server: &Server, queues: &WorkerQueues) -> Core {
    Core { states: server.states@, queues: queues@, failures: server.failures@ }
}

/// Nothing of the server changed but its workers' statuses, its errors and its stack.
pub open spec fn same_server(before: &Server, after: &Server) -> bool {
    &&& after.id == before.id
    &&& after.channels@ == before.channels@
    &&& after.metrics == before.metrics
    &&& after.done == before.done
}

/// The server and the shared queues went from `before` to `after` and `queues`, with `progress`
/// made, as `result` says.
pub open spec fn went(
    before: &Server,
    after: &Server,
    queues: &WorkerQueues,
    result: (Core, Seq<Frame>, Progress),
    progress: Progress,
) -> bool {
    &&& stack_ok(after.calls@)
    &&& same_server(before, after)
    &&& core_of(after, queues) == result.0
    &&& after.calls@ == result.1
    &&& progress == result.2
    &&& progress is Finished <==> after.calls@.len() == 0
}

impl Server {
    /// A server with these workers. It has not switched to any of them.
    pub fn new(
        id: usize,
        states: HashMap<u64, WorkerStatus>,
        channels: HashSet<u64>,
        done: bool,
    ) -> (r: Server)
        ensures
            r.id == id,
            r.states@ == states@,
            r.failures@.len() == 0,
            r.channels@ == channels@,
            r.metrics == (ContextSwitchMetrics {
                success_count: 0,
                timeout_count: 0,
                total_time: 0,
                last_timeout: 1000,
            }),
            r.done == done,
            r.calls@.len() == 0,
    {
        Server {
            id,
            states,
            failures: Vec::new(),
            channels,
            metrics: ContextSwitchMetrics::new(),
            done,
            calls: Vec::new(),
        }
    }

    fn status_is(&self, worker_id: u64, status: WorkerStatus) -> (r: bool)
        ensures
            r == (self.states@.contains_key(worker_id) && self.states@[worker_id] == status),
    {
        match self.states.get(&worker_id) {
            Some(found) => *found == status,
            None => false,
        }
    }

    fn set_status(&mut self, worker_id: u64, status: WorkerStatus)
        ensures
            same_server(old(self), final(self)),
            final(self).calls@ == old(self).calls@,
            final(self).failures@ == old(self).failures@,
            final(self).states@ == (if old(self).states@.contains_key(worker_id) {
                old(self).states@.insert(worker_id, status)
            } else {
                old(self).states@
            }),
    {
        if self.states.contains_key(&worker_id) {
            self.states.insert(worker_id, status);
        }
    }

    /// The first step of handling an event: the switch that it calls for, or its outcome.
    fn start_event(&mut self, queues: &mut WorkerQueues, event: u64) -> (r: (
        Option<Frame>,
        Result<(), ServerError>,
    ))
        ensures
            same_server(old(self), final(self)),
            final(self).calls@ == old(self).calls@,
            ({
                let (core, step) = on_event(core_of(old(self), old(queues)), event);
                &&& core_of(final(self), final(queues)) == core
                &&& step == (match r.0 {
                    Some(frame) => Move::Call(frame),
                    None => Move::Return(r.1),
                })
                &&& r.0 matches Some(frame) ==> frame.stage is Switching
            }),
    {
        let kind = event_kind(event);
        let worker_id = event_worker(event);
        if kind == 1 {
            if self.status_is(worker_id, WorkerStatus::Running) {
                self.set_status(worker_id, WorkerStatus::Blocked);
            }
            (None, Ok(()))
        } else if kind == 2 {
            if self.status_is(worker_id, WorkerStatus::Blocked) {
                self.set_status(worker_id, WorkerStatus::Running);
                (
                    Some(Frame { worker_id, caller: Caller::Waking, stage: Stage::Switching }),
                    Ok(()),
                )
            } else {
                (None, Ok(()))
            }
        } else if kind == 3 {
            if self.status_is(worker_id, WorkerStatus::Running) {
                self.set_status(worker_id, WorkerStatus::Waiting);
                let _ = queues.pop_running();
                let _ = queues.push_pending(worker_id);
            }
            (None, Ok(()))
        } else {
            #[verifier::truncate]
            let refused: usize = worker_id as usize;
            (None, Err(ServerError::InvalidWorkerEvent { worker_id: refused, event }))
        }
    }

    /// The end of a switch.
    fn end_switch(
        &mut self,
        queues: &mut WorkerQueues,
        frame: Frame,
        outcome: Result<(), ServerError>,
    )
        ensures
            same_server(old(self), final(self)),
            final(self).calls@ == old(self).calls@,
            core_of(final(self), final(queues)) == after_switch(
                core_of(old(self), old(queues)),
                frame,
                outcome,
            ),
    {
        if let Err(error) = outcome {
            self.failures.push(error);
            match frame.caller {
                Caller::Waking => {
                    self.set_status(frame.worker_id, WorkerStatus::Blocked);
                },
                Caller::Scheduling => {
                    queues.take_back_running(frame.worker_id);
                    self.set_status(frame.worker_id, WorkerStatus::Waiting);
                    let _ = queues.push_pending(frame.worker_id);
                },
            }
        }
    }

    /// Goes on after an event was handled, or a switch ended, with `ended`.
    fn settle(&mut self, queues: &mut WorkerQueues, ended: Result<(), ServerError>) -> (r: Progress)
        requires
            all_draining(old(self).calls@),
        ensures
            went(
                old(self),
                final(self),
                final(queues),
                settle(core_of(old(self), old(queues)), old(self).calls@, ended),
                r,
            ),
    {
        let mut outcome = ended;
        loop
            invariant
                all_draining(self.calls@),
                same_server(old(self), self),
                settle(core_of(self, queues), self.calls@, outcome) == settle(
                    core_of(old(self), old(queues)),
                    old(self).calls@,
                    ended,
                ),
            decreases weight(self.calls@),
        {
            let ghost before = self.calls@;
            match self.calls.pop() {
                None => {
                    assert(self.calls@ =~= before);
                    return Progress::Finished(outcome);
                },
                Some(top) => {
                    assert(before.last() == top && before.drop_last() == self.calls@);
                    if let Stage::Draining { first, second } = top.stage {
                        if outcome.is_err() || first == 0 {
                            self.end_switch(queues, top, outcome);
                            outcome = Ok(());
                        } else {
                            let rest = Frame {
                                worker_id: top.worker_id,
                                caller: top.caller,
                                stage: Stage::Draining { first: second, second: 0 },
                            };
                            proof {
                                lemma_weight_push(self.calls@, rest);
                            }
                            self.calls.push(rest);
                            let (called, returned) = self.start_event(queues, first);
                            match called {
                                Some(frame) => {
                                    let ghost rest_calls = self.calls@;
                                    self.calls.push(frame);
                                    assert(self.calls@.drop_last() =~= rest_calls);
                                    return Progress::Needs(needed(&frame));
                                },
                                None => {
                                    outcome = returned;
                                },
                            }
                        }
                    }
                },
            }
        }
    }

    /// Goes on after the first step of an operation.
    fn carry_on(
        &mut self,
        queues: &mut WorkerQueues,
        called: Option<Frame>,
        ended: Result<(), ServerError>,
    ) -> (r: Progress)
        requires
            old(self).calls@.len() == 0,
            called matches Some(frame) ==> frame.stage !is Draining,
        ensures
            went(
                old(self),
                final(self),
                final(queues),
                carry_on(
                    (
                        core_of(old(self), old(queues)),
                        match called {
                            Some(frame) => Move::Call(frame),
                            None => Move::Return(ended),
                        },
                    ),
                    Seq::empty(),
                ),
                r,
            ),
    {
        assert(old(self).calls@ =~= Seq::empty());
        match called {
            Some(frame) => {
                self.calls.push(frame);
                Progress::Needs(needed(&frame))
            },
            None => self.settle(queues, ended),
        }
    }

    /// Handles an event. If the handling needs a switch, `resume` goes on with it.
    pub fn handle_event(&mut self, queues: &mut WorkerQueues, event: u64) -> (r: Progress)
        requires
            old(self).calls@.len() == 0,
        ensures
            went(
                old(self),
                final(self),
                final(queues),
                carry_on(on_event(core_of(old(self), old(queues)), event), Seq::empty()),
                r,
            ),
    {
        let (called, ended) = self.start_event(queues, event);
        self.carry_on(queues, called, ended)
    }

    /// Takes the worker that has been ready for longest and, if it is this server's and ready, the
    /// task that came first, and brings them together.
    pub fn try_schedule_tasks(
        &mut self,
        queues: &mut WorkerQueues,
        tasks: &mut TaskQueue,
    ) -> (r: Progress)
        requires
            old(self).calls@.len() == 0,
        ensures
            ({
                let (core, rest, step) = begin(
                    core_of(old(self), old(queues)),
                    old(self).channels@,
                    old(tasks)@,
                );
                &&& final(tasks)@ == rest
                &&& went(
                    old(self),
                    final(self),
                    final(queues),
                    carry_on((core, step), Seq::empty()),
                    r,
                )
            }),
    {
        let mut called: Option<Frame> = None;
        if let Some(worker_id) = queues.pop_pending() {
            if self.status_is(worker_id, WorkerStatus::Waiting) {
                match tasks.remove_task() {
                    Some(task) => {
                        if self.channels.contains(&worker_id) {
                            called = Some(
                                Frame {
                                    worker_id,
                                    caller: Caller::Scheduling,
                                    stage: Stage::Sending { task },
                                },
                            );
                        }
                    },
                    None => {
                        let _ = queues.push_pending(worker_id);
                    },
                }
            } else {
                let _ = queues.push_pending(worker_id);
            }
        }
        self.carry_on(queues, called, Ok(()))
    }

    /// Goes on with an operation after its request was answered.
    pub fn resume(&mut self, queues: &mut WorkerQueues, reply: Reply) -> (r: Progress)
        requires
            stack_ok(old(self).calls@),
            old(self).calls@.len() > 0,
        ensures
            went(
                old(self),
                final(self),
                final(queues),
                on_reply(core_of(old(self), old(queues)), old(self).calls@, reply),
                r,
            ),
    {
        match self.calls.pop() {
            None => Progress::Finished(Ok(())),
            Some(top) => {
                let ghost below = old(self).calls@.drop_last();
                assert(self.calls@ =~= below);
                match top.stage {
                    Stage::Sending { .. } => {
                        if reply.ret != 0 {
                            return self.settle(queues, Ok(()));
                        }
                        self.set_status(top.worker_id, WorkerStatus::Running);
                        if !queues.push_running(top.worker_id) {
                            self.set_status(top.worker_id, WorkerStatus::Waiting);
                            let _ = queues.push_pending(top.worker_id);
                            assert(core_of(self, queues).states =~= line_up(
                                set_status(
                                    core_of(old(self), old(queues)),
                                    top.worker_id,
                                    WorkerStatus::Waiting,
                                ),
                                top.worker_id,
                            ).states);
                            return self.settle(queues, Ok(()));
                        }
                        let frame = Frame {
                            worker_id: top.worker_id,
                            caller: top.caller,
                            stage: Stage::Switching,
                        };
                        self.calls.push(frame);
                        assert(self.calls@.drop_last() =~= below);
                        Progress::Needs(needed(&frame))
                    },
                    _ => {
                        if reply.ret == 0 {
                            let frame = Frame {
                                worker_id: top.worker_id,
                                caller: top.caller,
                                stage: Stage::Draining {
                                    first: reply.first,
                                    second: reply.second,
                                },
                            };
                            self.calls.push(frame);
                            self.settle(queues, Ok(()))
                        } else {
                            self.end_switch(
                                queues,
                                top,
                                Err(switch_error(top.worker_id, reply)),
                            );
                            self.settle(queues, Ok(()))
                        }
                    },
                }
            },
        }
    }
}

/// The number under which a worker is known: `worker_id` itself if it is a worker id, and else the
/// worker id of the thread that it numbers.
pub open spec fn state_key(worker_id: u64) -> u64 {
    if worker_id % 32 == 0 {
        worker_id
    } else {
        shifted(worker_id)
    }
}

/// The worker id of the thread with this number.
pub open spec fn shifted(raw_tid: u64) -> u64 {
    ((raw_tid * 32) % 0x1_0000_0000_0000_0000) as u64
}

impl Server {
    /// The worker id of the thread with this number.
    pub fn raw_tid_to_worker_id(&self, raw_tid: u64) -> (r: u64)
        ensures
            r == shifted(raw_tid),
    {
        assert(raw_tid << 5 == (raw_tid * 32) % 0x1_0000_0000_0000_0000) by (bit_vector);
        raw_tid << UMCG_WORKER_ID_SHIFT
    }

    /// The thread id of a worker.
    pub fn worker_id_to_raw_tid(&self, worker_id: u64) -> (r: i32)
        ensures
            r == tid_of(worker_id),
    {
        event_tid(worker_id)
    }

    /// The status of a worker, which may be named by its worker id or by the number of its thread.
    pub fn get_worker_state(&self, worker_id: u64) -> (r: Option<WorkerStatus>)
        ensures
            r == (if self.states@.contains_key(state_key(worker_id)) {
                Some(self.states@[state_key(worker_id)])
            } else {
                None::<WorkerStatus>
            }),
    {
        let key = if event_kind(worker_id) == 0 {
            worker_id
        } else {
            self.raw_tid_to_worker_id(worker_id)
        };
        match self.states.get(&key) {
            Some(status) => Some(*status),
            None => None,
        }
    }

    /// Makes a worker ready and lines it up, if it is known; says whether it is.
    pub fn enter_line(&mut self, queues: &mut WorkerQueues, worker_id: u64) -> (r: bool)
        ensures
            same_server(old(self), final(self)),
            final(self).calls@ == old(self).calls@,
            r == old(self).states@.contains_key(worker_id),
            r ==> core_of(final(self), final(queues)) == line_up(
                set_status(core_of(old(self), old(queues)), worker_id, WorkerStatus::Waiting),
                worker_id,
            ),
            !r ==> *final(self) == *old(self) && *final(queues) == *old(queues),
    {
        if self.states.contains_key(&worker_id) {
            self.set_status(worker_id, WorkerStatus::Waiting);
            let _ = queues.push_pending(worker_id);
            true
        } else {
            false
        }
    }

    /// How many workers are ready.
    pub fn ready_count(&self) -> (r: usize)
        ensures
            r == ready_workers(self.states@).len(),
    {
        ready_count(&self.states)
    }

    /// Tells the server that it is to stop: it ends when it next comes to the head of its loop. Its
    /// workers are not told.
    pub fn tell_done(&mut self)
        ensures
            *final(self) == (Server { done: true, ..*old(self) }),
    {
        self.done = true;
    }

    /// Hands out the errors with which switches ended since this was last asked, in the order in
    /// which they ended, so that they can be told of.
    pub fn take_failures(&mut self) -> (r: Vec<ServerError>)
        ensures
            r@ == old(self).failures@,
            final(self).failures@.len() == 0,
            same_server(old(self), final(self)),
            final(self).states@ == old(self).states@,
            final(self).calls@ == old(self).calls@,
    {
        let mut taken: Vec<ServerError> = Vec::new();
        std::mem::swap(&mut self.failures, &mut taken);
        taken
    }

    /// Begins to stop: no further event is waited for. Returns the workers that have to be told,
    /// each once, in no particular order.
    pub fn shutdown(&mut self) -> (r: Vec<u64>)
        ensures
            final(self).done,
            same_server(old(self), &(Server { done: old(self).done, ..*final(self) })),
            final(self).states@ == old(self).states@,
            final(self).failures@ == old(self).failures@,
            final(self).calls@ == old(self).calls@,
            r@.no_duplicates(),
            r@.to_set() == old(self).channels@,
    {
        self.done = true;
        members_of(&self.channels)
    }
}

/// The error of a switch that failed: the worker under its worker id, what the call returned and
/// the error number.
pub fn switch_error(worker_id: u64, reply: Reply) -> (r: ServerError)
    ensures
        r == (ServerError::ContextSwitchFailed {
            worker_id,
            ret_code: reply.ret,
            errno: reply.errno,
        }),
{
    ServerError::ContextSwitchFailed { worker_id, ret_code: reply.ret, errno: reply.errno }
}

/// What a switch needs done next.
fn needed(frame: &Frame) -> (r: Request)
    ensures
        r == request_of(*frame),
{
    match frame.stage {
        Stage::Sending { task } => Request::Send { worker_id: frame.worker_id, task },
        _ => Request::Switch { tid: event_tid(frame.worker_id) },
    }
}

} // verus!
