//! What an operation of a server comes to, event by event and reply by reply.

use crate::error::ServerError;
use crate::pooled::pool::{is_waiting, Worker};
use crate::pooled::server::{
    added, after_switch, carry_on, give_task, on_event, on_reply, scheduled, set_worker, settle,
    stack_ok, waits_for_outcome, weight, Caller, Core, Frame, Move, Progress, Reply, Request,
    Server, Stage,
};
use crate::pooled::task::{enqueued, sorted_by_state, Task, TaskEntry, TaskQueueView, TaskState};
use crate::status::WorkerStatus;
use crate::umcg::{kind_of, tid_of};
use vstd::prelude::*;

verus! {

/// A switch that succeeds and reports no event leaves every worker and every task as they were,
/// whoever asked for it: a worker that was given a task keeps running it. The operation is over.
pub proof fn law_quiet_switch_changes_nothing(core: Core, frame: Frame, reply: Reply, now: u64)
    requires
        frame.stage is Switching,
        reply.ret == 0,
        reply.first == 0,
    ensures
        on_reply(core, seq![frame], reply, now) == (
            core,
            Seq::<Frame>::empty(),
            Progress::Finished(Ok(())),
        ),
{
    let empty = Seq::<Frame>::empty();
    let draining = Frame {
        stage: Stage::Draining { first: reply.first, second: reply.second },
        ..frame
    };
    assert(seq![frame].drop_last() =~= empty);
    assert(empty.push(draining).drop_last() =~= empty);
    reveal_with_fuel(settle, 3);
}

/// A switch inside the handling of an event, if it succeeds and reports nothing, only lets the
/// switch around it go on: as if that one had just reported the events that it has left.
pub proof fn law_quiet_inner_switch(
    core: Core,
    below: Seq<Frame>,
    frame: Frame,
    first: u64,
    second: u64,
    reply: Reply,
    rest: Reply,
    now: u64,
)
    requires
        below.len() > 0,
        below.last().stage == (Stage::Draining { first, second }),
        frame.stage is Switching,
        reply.ret == 0,
        reply.first == 0,
        rest.ret == 0,
        rest.first == first,
        rest.second == second,
    ensures
        on_reply(core, below.push(frame), reply, now) == on_reply(
            core,
            below.drop_last().push(Frame { stage: Stage::Switching, ..below.last() }),
            rest,
            now,
        ),
{
    let around = below.drop_last();
    let waiting = Frame { stage: Stage::Switching, ..below.last() };
    let draining = Frame {
        stage: Stage::Draining { first: reply.first, second: reply.second },
        ..frame
    };
    assert(below.push(frame).drop_last() =~= below);
    assert(below.push(draining).drop_last() =~= below);
    assert(around.push(waiting).drop_last() =~= around);
    assert(around.push(below.last()) =~= below);
    assert(settle(core, below.push(draining), Ok(()), now) == settle(core, below, Ok(()), now));
}

/// The events that a switch reports are handled one after the other, the first one first. If the
/// first is handled to the end, the rest goes on as if only the second had been reported, to
/// the workers and tasks that the first one left behind. If the first is refused inside the
/// handling of an event, the switch counts as failed.
pub proof fn law_events_in_turn(
    core: Core,
    below: Seq<Frame>,
    frame: Frame,
    reply: Reply,
    rest: Reply,
    now: u64,
)
    requires
        frame.stage is Switching,
        reply.ret == 0,
        reply.first != 0,
        rest.ret == 0,
        rest.first == reply.second,
        rest.second == 0,
    ensures
        ({
            let alone = carry_on(on_event(core, reply.first, now), Seq::empty(), now);
            let whole = on_reply(core, below.push(frame), reply, now);
            let left = Stage::Draining { first: reply.second, second: 0 };
            match alone.2 {
                Progress::Finished(Ok(_)) => whole == on_reply(
                    alone.0,
                    below.push(frame),
                    rest,
                    now,
                ),
                Progress::Finished(Err(_)) => frame.caller !is Scheduling ==> forall|failed: Reply|
                    failed.ret != 0 ==> whole == #[trigger] on_reply(
                        core,
                        below.push(frame),
                        failed,
                        now,
                    ),
                Progress::Needs(request) => {
                    &&& alone.1.len() == 1
                    &&& whole == (
                        alone.0,
                        below.push(Frame { stage: left, ..frame }).push(alone.1[0]),
                        Progress::Needs(request),
                    )
                },
            }
        }),
{
    let empty = Seq::<Frame>::empty();
    let reported = Frame {
        stage: Stage::Draining { first: reply.first, second: reply.second },
        ..frame
    };
    let left = Frame { stage: Stage::Draining { first: reply.second, second: 0 }, ..frame };
    assert(below.push(frame).drop_last() =~= below);
    assert(below.push(reported).drop_last() =~= below);
    assert(below.push(left).drop_last() =~= below);
    assert(empty.len() == 0);
    if let Move::Return(outcome) = on_event(core, reply.first, now).1 {
        assert(settle(on_event(core, reply.first, now).0, empty, outcome, now).2
            == Progress::Finished(outcome));
        if outcome is Err {
            let whole = on_reply(core, below.push(frame), reply, now);
            let ended = after_switch(core, left, outcome);
            assert(whole == settle(core, below.push(left), outcome, now));
            assert(whole == settle(ended.0, below, ended.1, now));
            assert forall|failed: Reply|
                frame.caller !is Scheduling && failed.ret != 0 implies whole
                == #[trigger] on_reply(core, below.push(frame), failed, now) by {
                let error = Err::<(), ServerError>(ServerError::SystemError(failed.errno));
                assert(after_switch(core, frame, error) == ended);
            }
        }
    }
}

/// A switch that reports an event of an unknown kind has failed, though the worker was switched
/// to; the events behind that one are not looked at. Scheduling passes the error on and has the
/// worker ready again; the worker that finished a task is ready again as well; the one that was
/// blocked goes on.
pub proof fn law_bad_event_fails_the_switch(core: Core, frame: Frame, reply: Reply, now: u64)
    requires
        frame.stage is Switching,
        reply.ret == 0,
        reply.first != 0,
        !(1 <= kind_of(reply.first) <= 4),
        core.pool.contains_key(frame.tid),
    ensures
        ({
            let worker = core.pool[frame.tid];
            let error = ServerError::InvalidWorkerEvent {
                worker_id: tid_of(reply.first) as usize,
                event: reply.first,
            };
            let ready = Core {
                pool: core.pool.insert(
                    frame.tid,
                    Worker { status: WorkerStatus::Waiting, current_task: None, ..worker },
                ),
                queue: core.queue,
            };
            on_reply(core, seq![frame], reply, now) == match frame.caller {
                Caller::Scheduling => (
                    ready,
                    Seq::<Frame>::empty(),
                    Progress::Finished(Err(error)),
                ),
                Caller::Completion => (ready, Seq::<Frame>::empty(), Progress::Finished(Ok(()))),
                Caller::Resumption => (core, Seq::<Frame>::empty(), Progress::Finished(Ok(()))),
            }
        }),
{
    let empty = Seq::<Frame>::empty();
    let reported = Frame {
        stage: Stage::Draining { first: reply.first, second: reply.second },
        ..frame
    };
    let left = Frame { stage: Stage::Draining { first: reply.second, second: 0 }, ..frame };
    assert(seq![frame].drop_last() =~= empty);
    assert(empty.push(reported).drop_last() =~= empty);
    assert(empty.push(left).drop_last() =~= empty);
    reveal_with_fuel(settle, 4);
}

/// Once a function was sent, the same worker is switched to, with nothing else changed.
pub proof fn law_sent_function_leads_to_switch(
    core: Core,
    below: Seq<Frame>,
    frame: Frame,
    reply: Reply,
    now: u64,
)
    requires
        frame.stage is Sending,
        reply.ret == 0,
    ensures
        on_reply(core, below.push(frame), reply, now) == (
            core,
            below.push(Frame { stage: Stage::Switching, ..frame }),
            Progress::Needs(Request::Switch { tid: frame.tid }),
        ),
{
    assert(below.push(frame).drop_last() =~= below);
}

/// What a request that failed inside the handling of an event means for the operation around it:
/// the worker that was given a task is ready again, the one that was blocked counts as running,
/// the tasks are as they were, and the rest goes on as after a quiet switch.
pub proof fn law_inner_failure_is_contained(
    core: Core,
    below: Seq<Frame>,
    frame: Frame,
    reply: Reply,
    quiet: Reply,
    now: u64,
)
    requires
        waits_for_outcome(frame),
        frame.caller !is Scheduling,
        core.pool.contains_key(frame.tid),
        reply.ret != 0,
        quiet.ret == 0,
        quiet.first == 0,
    ensures
        ({
            let worker = core.pool[frame.tid];
            let left = if frame.stage is Switching && frame.caller is Resumption {
                core
            } else {
                Core {
                    pool: core.pool.insert(
                        frame.tid,
                        Worker { status: WorkerStatus::Waiting, current_task: None, ..worker },
                    ),
                    queue: core.queue,
                }
            };
            on_reply(core, below.push(frame), reply, now) == on_reply(
                left,
                below.push(Frame { stage: Stage::Switching, ..frame }),
                quiet,
                now,
            )
        }),
{
    let switching = Frame { stage: Stage::Switching, ..frame };
    let draining = Frame {
        stage: Stage::Draining { first: quiet.first, second: quiet.second },
        ..frame
    };
    assert(below.push(frame).drop_last() =~= below);
    assert(below.push(switching).drop_last() =~= below);
    assert(below.push(draining).drop_last() =~= below);
}

/// What each kind of event does to the worker that it is about, and that only a wake-up touches
/// a task.
pub proof fn law_event_effects(core: Core, event: u64, now: u64)
    requires
        core.pool.contains_key(tid_of(event)),
    ensures
        ({
            let tid = tid_of(event);
            let worker = core.pool[tid];
            let (after, step) = on_event(core, event, now);
            let became = |status: WorkerStatus, task: Option<u128>|
                Core {
                    pool: core.pool.insert(tid, Worker { status, current_task: task, ..worker }),
                    queue: core.queue,
                };
            &&& kind_of(event) == 1 ==> {
                &&& after == became(WorkerStatus::Blocked, worker.current_task)
                &&& step == Move::Return(Ok(()))
            }
            &&& kind_of(event) == 3 ==> {
                &&& worker.status != WorkerStatus::Waiting ==> after == became(
                    WorkerStatus::Waiting,
                    None,
                )
                &&& worker.status == WorkerStatus::Waiting ==> after == core
                &&& step == Move::Return(Ok(()))
            }
            &&& kind_of(event) == 4 ==> {
                &&& after == became(WorkerStatus::Completed, None)
                &&& step == Move::Return(Ok(()))
            }
            &&& kind_of(event) == 2 && worker.status == WorkerStatus::Blocked ==> {
                &&& after == became(WorkerStatus::Running, worker.current_task)
                &&& step == Move::Call(
                    Frame { tid, caller: Caller::Resumption, stage: Stage::Switching },
                )
            }
            &&& kind_of(event) == 2 && worker.status == WorkerStatus::Running
                && worker.current_task is None ==> {
                &&& after == became(WorkerStatus::Waiting, None)
                &&& step == Move::Return(Ok(()))
            }
            &&& kind_of(event) == 2 && worker.status != WorkerStatus::Running && worker.status
                != WorkerStatus::Blocked ==> {
                &&& after == core
                &&& step == Move::Return(Ok(()))
            }
        }),
{
}

/// What becomes of a worker that wakes up from a task: the task leaves those in progress. With no
/// task left the worker is ready. Otherwise it is running the oldest preempted task, or without
/// one the oldest waiting task, which left its queue; the function of a waiting task is sent
/// first, and the worker with a preempted one is switched to at once.
pub proof fn law_wake_after_task(core: Core, wake: u64, task: u128, now: u64)
    requires
        kind_of(wake) == 2,
        core.pool.contains_key(tid_of(wake)),
        core.pool[tid_of(wake)].status == WorkerStatus::Running,
        core.pool[tid_of(wake)].current_task == Some(task),
        sorted_by_state(core.queue),
    ensures
        ({
            let tid = tid_of(wake);
            let worker = core.pool[tid];
            let queue = core.queue;
            let (after, calls, progress) = carry_on(on_event(core, wake, now), Seq::empty(), now);
            let running = |next: TaskEntry|
                core.pool.insert(
                    tid,
                    Worker {
                        status: WorkerStatus::Running,
                        current_task: Some(next.id),
                        ..worker
                    },
                );
            &&& after.queue.in_progress == queue.in_progress.remove(task)
            &&& if queue.preempted.len() > 0 {
                &&& after.pool == running(queue.preempted[0])
                &&& after.queue.preempted == queue.preempted.drop_first()
                &&& after.queue.pending == queue.pending
                &&& calls =~= seq![
                    Frame { tid, caller: Caller::Completion, stage: Stage::Switching },
                ]
                &&& progress == Progress::Needs(Request::Switch { tid })
            } else if queue.pending.len() > 0 {
                &&& after.pool == running(queue.pending[0])
                &&& after.queue.preempted == queue.preempted
                &&& after.queue.pending == queue.pending.drop_first()
                &&& calls =~= seq![
                    Frame {
                        tid,
                        caller: Caller::Completion,
                        stage: Stage::Sending {
                            function: queue.pending[0].state->Pending_0,
                            spent: TaskEntry { state: TaskState::Completed, ..queue.pending[0] },
                        },
                    },
                ]
                &&& progress == Progress::Needs(
                    Request::Send { tid, function: queue.pending[0].state->Pending_0 },
                )
            } else {
                &&& after.pool == core.pool.insert(
                    tid,
                    Worker { status: WorkerStatus::Waiting, current_task: None, ..worker },
                )
                &&& after.queue.preempted == queue.preempted
                &&& after.queue.pending == queue.pending
                &&& calls.len() == 0
                &&& progress == Progress::Finished(Ok(()))
            }
        }),
{
    let tid = tid_of(wake);
    let idle = core.pool.insert(
        tid,
        Worker { status: WorkerStatus::Waiting, current_task: None, ..core.pool[tid] },
    );
    assert forall|w: Worker| #[trigger] idle.insert(tid, w) == core.pool.insert(tid, w) by {
        assert(idle.insert(tid, w) =~= core.pool.insert(tid, w));
    }
    let (after, calls, progress) = carry_on(on_event(core, wake, now), Seq::empty(), now);
    assert(after.queue.in_progress =~= core.queue.in_progress.remove(task));
}

/// A worker that finished a task and was given the next one, once the function was sent and the
/// switch to it succeeded without an event: it is running that task, so it is not ready for
/// another one, and the task has left the queue.
pub proof fn law_finished_worker_runs_the_next_function(
    core: Core,
    wake: u64,
    task: u128,
    now: u64,
    sent: Reply,
    switched: Reply,
    later: u64,
    last: u64,
)
    requires
        kind_of(wake) == 2,
        core.pool.contains_key(tid_of(wake)),
        core.pool[tid_of(wake)].status == WorkerStatus::Running,
        core.pool[tid_of(wake)].current_task == Some(task),
        sorted_by_state(core.queue),
        core.queue.preempted.len() == 0,
        core.queue.pending.len() > 0,
        sent.ret == 0,
        switched.ret == 0,
        switched.first == 0,
    ensures
        ({
            let tid = tid_of(wake);
            let begun = carry_on(on_event(core, wake, now), Seq::empty(), now);
            let out = on_reply(begun.0, begun.1, sent, later);
            let (after, calls, progress) = on_reply(out.0, out.1, switched, last);
            &&& calls.len() == 0
            &&& progress == Progress::Finished(Ok(()))
            &&& after.pool == core.pool.insert(
                tid,
                Worker {
                    status: WorkerStatus::Running,
                    current_task: Some(core.queue.pending[0].id),
                    ..core.pool[tid]
                },
            )
            &&& after.queue == (TaskQueueView {
                pending: core.queue.pending.drop_first(),
                preempted: core.queue.preempted,
                in_progress: core.queue.in_progress.remove(task),
            })
        }),
{
    law_wake_after_task(core, wake, task, now);
    let begun = carry_on(on_event(core, wake, now), Seq::empty(), now);
    let empty = Seq::<Frame>::empty();
    let frame = begun.1[0];
    assert(begun.1 =~= empty.push(frame));
    law_sent_function_leads_to_switch(begun.0, empty, frame, sent, later);
    let switching = Frame { stage: Stage::Switching, ..frame };
    assert(empty.push(switching) =~= seq![switching]);
    law_quiet_switch_changes_nothing(begun.0, switching, switched, last);
}

/// A worker that was given a task by scheduling, to which its function was sent and the switch
/// succeeded without an event, is running that task; the task has left the queue.
pub proof fn law_scheduled_worker_runs_the_first_function(
    core: Core,
    tid: i32,
    now: u64,
    sent: Reply,
    switched: Reply,
    later: u64,
    last: u64,
)
    requires
        core.pool.contains_key(tid),
        sorted_by_state(core.queue),
        core.queue.preempted.len() == 0,
        core.queue.pending.len() > 0,
        sent.ret == 0,
        switched.ret == 0,
        switched.first == 0,
    ensures
        ({
            let begun = carry_on(
                give_task(core, tid, Caller::Scheduling, now),
                Seq::empty(),
                now,
            );
            let out = on_reply(begun.0, begun.1, sent, later);
            let (after, calls, progress) = on_reply(out.0, out.1, switched, last);
            &&& begun.2 == Progress::Needs(
                Request::Send { tid, function: core.queue.pending[0].state->Pending_0 },
            )
            &&& begun.1 =~= seq![
                Frame {
                    tid,
                    caller: Caller::Scheduling,
                    stage: Stage::Sending {
                        function: core.queue.pending[0].state->Pending_0,
                        spent: TaskEntry { state: TaskState::Completed, ..core.queue.pending[0] },
                    },
                },
            ]
            &&& out.2 == Progress::Needs(Request::Switch { tid })
            &&& calls.len() == 0
            &&& progress == Progress::Finished(Ok(()))
            &&& after.pool == core.pool.insert(
                tid,
                Worker {
                    status: WorkerStatus::Running,
                    current_task: Some(core.queue.pending[0].id),
                    ..core.pool[tid]
                },
            )
            &&& after.queue == (TaskQueueView {
                pending: core.queue.pending.drop_first(),
                preempted: core.queue.preempted,
                in_progress: core.queue.in_progress,
            })
        }),
{
    let begun = carry_on(give_task(core, tid, Caller::Scheduling, now), Seq::empty(), now);
    let empty = Seq::<Frame>::empty();
    let frame = begun.1[0];
    assert(begun.1 =~= empty.push(frame));
    law_sent_function_leads_to_switch(begun.0, empty, frame, sent, later);
    let switching = Frame { stage: Stage::Switching, ..frame };
    assert(empty.push(switching) =~= seq![switching]);
    law_quiet_switch_changes_nothing(begun.0, switching, switched, last);
}

/// A worker that was given a preempted task is switched to without anything being sent.
pub proof fn law_preempted_task_is_not_sent_again(core: Core, tid: i32, now: u64)
    requires
        core.pool.contains_key(tid),
        sorted_by_state(core.queue),
        core.queue.preempted.len() > 0,
    ensures
        ({
            let (after, calls, progress) = carry_on(
                give_task(core, tid, Caller::Scheduling, now),
                Seq::empty(),
                now,
            );
            &&& progress == Progress::Needs(Request::Switch { tid })
            &&& calls == seq![
                Frame { tid, caller: Caller::Scheduling, stage: Stage::Switching },
            ]
            &&& after.pool == core.pool.insert(
                tid,
                Worker {
                    status: WorkerStatus::Running,
                    current_task: Some(core.queue.preempted[0].id),
                    ..core.pool[tid]
                },
            )
            &&& after.queue == (TaskQueueView {
                pending: core.queue.pending,
                preempted: core.queue.preempted.drop_first(),
                in_progress: core.queue.in_progress,
            })
        }),
{
    assert(Seq::<Frame>::empty().push(
        Frame { tid, caller: Caller::Scheduling, stage: Stage::Switching },
    ) =~= seq![Frame { tid, caller: Caller::Scheduling, stage: Stage::Switching }]);
}

/// An attempt to schedule asks for something exactly if some worker is ready and some task is
/// there. What it asks for is then for a worker that was ready, which is running now; no other
/// worker is touched. Otherwise it is over at once, without an error, and changes nothing.
pub proof fn law_scheduling(before: &Server, after: &Server, r: Progress, now: u64)
    requires
        before.wf(),
        before@.calls.len() == 0,
        scheduled(before, after, r, now),
    ensures
        ({
            let core = before@.core;
            let tasks = core.queue.pending.len() + core.queue.preempted.len();
            &&& r is Needs <==> tasks > 0 && exists|tid: i32| #[trigger]
                core.pool.contains_key(tid) && core.pool[tid].status == WorkerStatus::Waiting
            &&& r !is Needs ==> {
                &&& r == Progress::Finished(Ok(()))
                &&& after@ == before@
            }
            &&& r matches Progress::Needs(request) ==> {
                let tid = match request {
                    Request::Send { tid, .. } => tid,
                    Request::Switch { tid } => tid,
                };
                &&& core.pool.contains_key(tid)
                &&& core.pool[tid].status == WorkerStatus::Waiting
                &&& after@.core.pool[tid].status == WorkerStatus::Running
                &&& after@.core.pool.remove(tid) == core.pool.remove(tid)
                &&& request is Send <==> core.queue.preempted.len() == 0
            }
            &&& after@.done == before@.done
        }),
{
    let core = before@.core;
    if exists|tid: i32| #[trigger]
        core.pool.contains_key(tid) && core.pool[tid].status == WorkerStatus::Waiting {
        let some = choose|tid: i32| #[trigger]
            core.pool.contains_key(tid) && core.pool[tid].status == WorkerStatus::Waiting;
        assert(is_waiting(core.pool, some));
        let tid = choose|tid: i32|
            #![trigger is_waiting(core.pool, tid)]
            is_waiting(core.pool, tid) && after.went(
                before,
                carry_on(give_task(core, tid, Caller::Scheduling, now), Seq::empty(), now),
                r,
            );
        assert(core.pool.contains_key(tid));
        assert(after@.core.pool.remove(tid) =~= core.pool.remove(tid));
        if core.queue.pending.len() + core.queue.preempted.len() == 0 {
            assert(after@ =~= before@);
        }
    } else {
        assert forall|tid: i32| !is_waiting(core.pool, tid) by {
            assert(!core.pool.contains_key(tid) || core.pool[tid].status
                != WorkerStatus::Waiting);
        }
    }
}

/// A function that is handed in goes behind the waiting tasks as long as there is room for it;
/// the request to stop is noted. Neither touches a worker or an operation under way.
pub proof fn law_added(before: &Server, after: &Server, task: Task, id: u128, now: u64)
    requires
        added(before, after, task, id, now),
    ensures
        after@.core.pool == before@.core.pool,
        after@.calls == before@.calls,
        after@.done == (before@.done || task is Shutdown),
        after@.core.queue.preempted == before@.core.queue.preempted,
        after@.core.queue.in_progress == before@.core.queue.in_progress,
        match task {
            Task::Function(function) if before@.core.queue.pending.len() < 1024 => {
                after@.core.queue.pending == before@.core.queue.pending.push(
                    TaskEntry {
                        id,
                        state: TaskState::Pending(function),
                        priority: 0,
                        enqueue_time: now,
                    },
                )
            },
            _ => after@.core.queue.pending == before@.core.queue.pending,
        },
{
}

/// An event of a known kind that is about another worker than `tid`, or none.
pub open spec fn not_about(event: u64, tid: i32) -> bool {
    event == 0 || (1 <= kind_of(event) <= 4 && tid_of(event) != tid)
}

/// The events that these switches have left are not about the worker `tid`.
pub open spec fn left_not_about(calls: Seq<Frame>, tid: i32) -> bool {
    forall|i: int| #![trigger calls[i]]
        0 <= i < calls.len() ==> match calls[i].stage {
            Stage::Draining { first, second } => not_about(first, tid) && not_about(second, tid),
            _ => true,
        }
}

proof fn lemma_settle_leaves_others(core: Core, calls: Seq<Frame>, now: u64, tid: i32)
    requires
        core.pool.contains_key(tid),
        left_not_about(calls, tid),
    ensures
        ({
            let after = settle(core, calls, Ok(()), now);
            &&& after.0.pool.contains_key(tid)
            &&& after.0.pool[tid] == core.pool[tid]
            &&& left_not_about(after.1, tid)
            &&& after.2 is Needs ==> after.1.len() > 0
            &&& after.2 !is Needs ==> after.2 == Progress::Finished(Ok(()))
        }),
    decreases weight(calls),
{
    if calls.len() > 0 {
        let top = calls.last();
        let below = calls.drop_last();
        assert(left_not_about(below, tid)) by {
            assert forall|i: int| #![trigger below[i]] 0 <= i < below.len() implies match
                below[i].stage {
                Stage::Draining { first, second } => not_about(first, tid) && not_about(
                    second,
                    tid,
                ),
                _ => true,
            } by {
                assert(below[i] == calls[i]);
            }
        }
        if let Stage::Draining { first, second } = top.stage {
            assert(calls[calls.len() - 1] == top);
            if first == 0 {
                lemma_settle_leaves_others(core, below, now, tid);
            } else {
                let left = Frame { stage: Stage::Draining { first: second, second: 0 }, ..top };
                let rest = below.push(left);
                assert(rest.drop_last() =~= below);
                assert(left_not_about(rest, tid));
                if let (core2, Move::Return(outcome)) = on_event(core, first, now) {
                    lemma_settle_leaves_others(core2, rest, now, tid);
                }
            }
        }
    }
}

/// As long as requests succeed, nothing happens to a worker but what events say that are about
/// it: neither being switched to nor the end of a switch changes its status or its task. Whatever
/// a reply to an operation reports, a worker that none of the reported events is about, nor one
/// of those that were left, is as it was; and an operation that ends then ends without an error.
pub proof fn law_success_changes_only_as_reported(
    core: Core,
    calls: Seq<Frame>,
    reply: Reply,
    now: u64,
    tid: i32,
)
    requires
        calls.len() > 0,
        core.pool.contains_key(tid),
        reply.ret == 0,
        not_about(reply.first, tid),
        not_about(reply.second, tid),
        left_not_about(calls, tid),
    ensures
        ({
            let (after, left, progress) = on_reply(core, calls, reply, now);
            &&& after.pool.contains_key(tid)
            &&& after.pool[tid] == core.pool[tid]
            &&& left_not_about(left, tid)
            &&& progress is Needs ==> left.len() > 0
            &&& progress !is Needs ==> progress == Progress::Finished(Ok(()))
        }),
{
    let top = calls.last();
    let below = calls.drop_last();
    let draining = Frame {
        stage: Stage::Draining { first: reply.first, second: reply.second },
        ..top
    };
    assert forall|i: int| #![trigger below[i]] 0 <= i < below.len() implies match
        below[i].stage {
        Stage::Draining { first, second } => not_about(first, tid) && not_about(second, tid),
        _ => true,
    } by {
        assert(below[i] == calls[i]);
    }
    assert(left_not_about(below, tid));
    assert(left_not_about(below.push(draining), tid));
    lemma_settle_leaves_others(core, below.push(draining), now, tid);
}

/// An event that is about another worker than `tid`, or none, of whatever kind.
pub open spec fn about_another(event: u64, tid: i32) -> bool {
    event == 0 || tid_of(event) != tid
}

/// These switches are to other workers than `tid`, and so are the events they have left.
pub open spec fn only_others(calls: Seq<Frame>, tid: i32) -> bool {
    forall|i: int| #![trigger calls[i]]
        0 <= i < calls.len() ==> calls[i].tid != tid && match calls[i].stage {
            Stage::Draining { first, second } => about_another(first, tid) && about_another(
                second,
                tid,
            ),
            _ => true,
        }
}

proof fn lemma_settle_never_touches_others(
    core: Core,
    calls: Seq<Frame>,
    outcome: Result<(), ServerError>,
    now: u64,
    tid: i32,
)
    requires
        core.pool.contains_key(tid),
        only_others(calls, tid),
    ensures
        ({
            let after = settle(core, calls, outcome, now);
            &&& after.0.pool.contains_key(tid)
            &&& after.0.pool[tid] == core.pool[tid]
            &&& only_others(after.1, tid)
        }),
    decreases weight(calls),
{
    if calls.len() > 0 {
        let top = calls.last();
        let below = calls.drop_last();
        assert(calls[calls.len() - 1] == top);
        assert(only_others(below, tid)) by {
            assert forall|i: int| #![trigger below[i]] 0 <= i < below.len() implies below[i].tid
                != tid && match below[i].stage {
                Stage::Draining { first, second } => about_another(first, tid) && about_another(
                    second,
                    tid,
                ),
                _ => true,
            } by {
                assert(below[i] == calls[i]);
            }
        }
        if let Stage::Draining { first, second } = top.stage {
            if outcome is Err || first == 0 {
                let ended = after_switch(core, top, outcome);
                lemma_settle_never_touches_others(ended.0, below, ended.1, now, tid);
            } else {
                let left = Frame { stage: Stage::Draining { first: second, second: 0 }, ..top };
                let rest = below.push(left);
                assert(rest.drop_last() =~= below);
                assert(only_others(rest, tid));
                if let (core2, Move::Return(outcome2)) = on_event(core, first, now) {
                    lemma_settle_never_touches_others(core2, rest, outcome2, now, tid);
                }
            }
        }
    }
}

/// However a request fares, a worker is as it was that no switch of the operation is to and no
/// event is about.
pub proof fn law_bystanders_are_untouched(
    core: Core,
    calls: Seq<Frame>,
    reply: Reply,
    now: u64,
    tid: i32,
)
    requires
        calls.len() > 0,
        stack_ok(calls),
        core.pool.contains_key(tid),
        about_another(reply.first, tid),
        about_another(reply.second, tid),
        only_others(calls, tid),
    ensures
        ({
            let (after, left, progress) = on_reply(core, calls, reply, now);
            &&& after.pool.contains_key(tid)
            &&& after.pool[tid] == core.pool[tid]
            &&& only_others(left, tid)
        }),
{
    let top = calls.last();
    let below = calls.drop_last();
    assert(calls[calls.len() - 1] == top);
    let draining = Frame {
        stage: Stage::Draining { first: reply.first, second: reply.second },
        ..top
    };
    assert forall|i: int| #![trigger below[i]] 0 <= i < below.len() implies below[i].tid != tid
        && match below[i].stage {
        Stage::Draining { first, second } => about_another(first, tid) && about_another(
            second,
            tid,
        ),
        _ => true,
    } by {
        assert(below[i] == calls[i]);
    }
    assert(only_others(below, tid));
    assert(only_others(below.push(draining), tid));
    lemma_settle_never_touches_others(core, below.push(draining), Ok(()), now, tid);
    let failed = Err::<(), ServerError>(ServerError::SystemError(reply.errno));
    let ended = after_switch(core, top, failed);
    lemma_settle_never_touches_others(ended.0, below, ended.1, now, tid);
    if let Stage::Sending { spent, .. } = top.stage {
        let ready = set_worker(
            Core { queue: enqueued(core.queue, spent), ..core },
            top.tid,
            WorkerStatus::Waiting,
            None,
        );
        lemma_settle_never_touches_others(ready, below, Ok(()), now, tid);
    }
}

/// What an operation has come to after these replies, if nothing else happens in between. A reply
/// to an operation that is over changes nothing.
pub open spec fn replied(begun: (Core, Seq<Frame>, Progress), replies: Seq<(Reply, u64)>) -> (
    Core,
    Seq<Frame>,
    Progress,
)
    decreases replies.len(),
{
    if replies.len() == 0 {
        begun
    } else {
        let before = replied(begun, replies.drop_last());
        if before.2 is Needs {
            on_reply(before.0, before.1, replies.last().0, replies.last().1)
        } else {
            before
        }
    }
}

/// The handling of an event, however many switches it needs, leaves a worker as it was, if all of
/// its requests succeed and neither the event nor any that they report is about that worker; and it
/// never ends with an error.
pub proof fn law_event_with_success_changes_only_as_reported(
    core: Core,
    event: u64,
    now: u64,
    replies: Seq<(Reply, u64)>,
    tid: i32,
)
    requires
        core.pool.contains_key(tid),
        event != 0,
        not_about(event, tid),
        forall|i: int| #![trigger replies[i]]
            0 <= i < replies.len() ==> {
                &&& replies[i].0.ret == 0
                &&& not_about(replies[i].0.first, tid)
                &&& not_about(replies[i].0.second, tid)
            },
    ensures
        ({
            let begun = carry_on(on_event(core, event, now), Seq::empty(), now);
            let (after, left, progress) = replied(begun, replies);
            &&& after.pool.contains_key(tid)
            &&& after.pool[tid] == core.pool[tid]
            &&& left_not_about(left, tid)
            &&& progress is Needs ==> left.len() > 0
            &&& progress !is Needs ==> progress == Progress::Finished(Ok(()))
        }),
    decreases replies.len(),
{
    let begun = carry_on(on_event(core, event, now), Seq::empty(), now);
    if replies.len() == 0 {
        if let (core2, Move::Return(outcome)) = on_event(core, event, now) {
            lemma_settle_leaves_others(core2, Seq::empty(), now, tid);
        }
    } else {
        let fewer = replies.drop_last();
        assert forall|i: int| #![trigger fewer[i]] 0 <= i < fewer.len() implies {
            &&& fewer[i].0.ret == 0
            &&& not_about(fewer[i].0.first, tid)
            &&& not_about(fewer[i].0.second, tid)
        } by {
            assert(fewer[i] == replies[i]);
        }
        law_event_with_success_changes_only_as_reported(core, event, now, fewer, tid);
        let before = replied(begun, fewer);
        assert(replies[replies.len() - 1] == replies.last());
        if before.2 is Needs {
            law_success_changes_only_as_reported(
                before.0,
                before.1,
                replies.last().0,
                replies.last().1,
                tid,
            );
        }
    }
}

} // verus!
