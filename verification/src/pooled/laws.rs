//! What holds of a server whatever happens to it.

use crate::error::ServerError;
use crate::pooled::pool::{is_waiting, with_status, Worker};
use crate::pooled::run::{run_step, serving, short_reply, Job, JobReply, Phase};
use crate::pooled::server::{
    after_switch, carry_on, give_task, on_event, on_reply, request_of, set_worker, settle, stack_ok,
    waits_for_outcome, weight, Caller, Core, Frame, Move, Progress, Reply, Request, Server, Stage,
};
use crate::pooled::task::{enqueued, finished, next_task, sorted_by_state};
use crate::status::WorkerStatus;
use crate::umcg::{kind_of, tid_of};
use vstd::prelude::*;

verus! {

/// Two pools have the same workers, which may be in another state.
pub open spec fn same_workers(a: Map<i32, Worker>, b: Map<i32, Worker>) -> bool {
    &&& a.dom() == b.dom()
    &&& forall|tid: i32| #[trigger]
        a.contains_key(tid) ==> {
            &&& b[tid].id == a[tid].id
            &&& b[tid].tid == a[tid].tid
            &&& b[tid].server_id == a[tid].server_id
        }
}

/// A worker that is neither running nor blocked has no task.
pub open spec fn idle_without_task(pool: Map<i32, Worker>) -> bool {
    forall|tid: i32| #[trigger]
        pool.contains_key(tid) && pool[tid].status != WorkerStatus::Running && pool[tid].status
            != WorkerStatus::Blocked ==> pool[tid].current_task is None
}

/// From `a` to `b`, tasks left their two queues only at the front, and none came in; nor did one
/// join those that are listed as in progress.
pub open spec fn only_taken(a: Core, b: Core) -> bool {
    &&& b.queue.pending.is_suffix_of(a.queue.pending)
    &&& b.queue.preempted.is_suffix_of(a.queue.preempted)
    &&& b.queue.in_progress.dom().subset_of(a.queue.in_progress.dom())
}

/// What every step of a server keeps, whatever the kernel reports.
pub open spec fn kept(a: Core, b: Core) -> bool {
    &&& same_workers(a.pool, b.pool)
    &&& idle_without_task(a.pool) ==> idle_without_task(b.pool)
    &&& sorted_by_state(a.queue) ==> sorted_by_state(b.queue)
    &&& only_taken(a, b)
}

proof fn lemma_suffix_popped<T>(s: Seq<T>)
    ensures
        s.is_suffix_of(s),
        s.len() > 0 ==> s.drop_first().is_suffix_of(s),
{
    assert(s =~= s.subrange(0, s.len() as int));
    if s.len() > 0 {
        assert(s.drop_first() =~= s.subrange(1, s.len() as int));
    }
}

proof fn lemma_suffix_trans<T>(a: Seq<T>, b: Seq<T>, c: Seq<T>)
    requires
        c.is_suffix_of(b),
        b.is_suffix_of(a),
    ensures
        c.is_suffix_of(a),
{
    assert(c =~= a.subrange(a.len() - c.len(), a.len() as int));
}

proof fn lemma_kept_refl(a: Core)
    ensures
        kept(a, a),
{
    lemma_suffix_popped(a.queue.pending);
    lemma_suffix_popped(a.queue.preempted);
}

proof fn lemma_kept_trans(a: Core, b: Core, c: Core)
    requires
        kept(a, b),
        kept(b, c),
    ensures
        kept(a, c),
{
    lemma_suffix_trans(a.queue.pending, b.queue.pending, c.queue.pending);
    lemma_suffix_trans(a.queue.preempted, b.queue.preempted, c.queue.preempted);
}

proof fn lemma_kept_set_worker(a: Core, tid: i32, status: WorkerStatus, task: Option<u128>)
    requires
        status == WorkerStatus::Running || status == WorkerStatus::Blocked || task is None,
    ensures
        kept(a, set_worker(a, tid, status, task)),
{
    lemma_kept_refl(a);
    assert(same_workers(a.pool, set_worker(a, tid, status, task).pool)) by {
        assert(with_status(a.pool, tid, status, task).dom() =~= a.pool.dom());
    }
}

proof fn lemma_kept_give_task(a: Core, tid: i32, caller: Caller, now: u64)
    ensures
        kept(a, give_task(a, tid, caller, now).0),
{
    lemma_kept_refl(a);
    lemma_suffix_popped(a.queue.pending);
    lemma_suffix_popped(a.queue.preempted);
    if let Some(task) = next_task(a.queue) {
        lemma_kept_set_worker(a, tid, WorkerStatus::Running, Some(task.id));
    }
}

/// Whatever a worker reports, a server keeps its workers, takes tasks only from the front of its
/// queues, keeps each task where its state says, and leaves no idle worker with a task.
pub proof fn law_event_keeps(core: Core, event: u64, now: u64)
    ensures
        kept(core, on_event(core, event, now).0),
{
    let tid = tid_of(event);
    lemma_kept_refl(core);
    lemma_kept_set_worker(core, tid, WorkerStatus::Waiting, None);
    lemma_kept_set_worker(core, tid, WorkerStatus::Completed, None);
    lemma_kept_set_worker(core, tid, WorkerStatus::Blocked, core.pool[tid].current_task);
    lemma_kept_set_worker(core, tid, WorkerStatus::Running, core.pool[tid].current_task);
    if let Some(task) = core.pool[tid].current_task {
        let idle = set_worker(core, tid, WorkerStatus::Waiting, None);
        let freed = Core { queue: finished(core.queue, task), ..idle };
        lemma_kept_refl(idle);
        assert(kept(idle, freed));
        lemma_kept_give_task(freed, tid, Caller::Completion, now);
        lemma_kept_trans(core, idle, freed);
        lemma_kept_trans(core, freed, give_task(freed, tid, Caller::Completion, now).0);
    }
}

proof fn lemma_kept_after_switch(core: Core, frame: Frame, outcome: Result<(), ServerError>)
    ensures
        kept(core, after_switch(core, frame, outcome).0),
{
    lemma_kept_refl(core);
    lemma_kept_set_worker(core, frame.tid, WorkerStatus::Waiting, None);
}

proof fn lemma_settle_keeps(
    core: Core,
    calls: Seq<Frame>,
    outcome: Result<(), ServerError>,
    now: u64,
)
    ensures
        kept(core, settle(core, calls, outcome, now).0),
    decreases weight(calls),
{
    lemma_kept_refl(core);
    if calls.len() > 0 {
        let top = calls.last();
        let below = calls.drop_last();
        if let Stage::Draining { first, second } = top.stage {
            if outcome is Err || first == 0 {
                let (core2, outcome2) = after_switch(core, top, outcome);
                lemma_kept_after_switch(core, top, outcome);
                lemma_settle_keeps(core2, below, outcome2, now);
                lemma_kept_trans(core, core2, settle(core2, below, outcome2, now).0);
            } else {
                let rest = below.push(
                    Frame { stage: Stage::Draining { first: second, second: 0 }, ..top },
                );
                assert(rest.drop_last() =~= below);
                law_event_keeps(core, first, now);
                if let (core2, Move::Return(outcome2)) = on_event(core, first, now) {
                    lemma_settle_keeps(core2, rest, outcome2, now);
                    lemma_kept_trans(core, core2, settle(core2, rest, outcome2, now).0);
                }
            }
        }
    }
}

/// A whole operation, from an event or an attempt to schedule up to its end or its first request,
/// keeps what every event keeps.
pub proof fn law_operation_keeps(core: Core, event: u64, tid: i32, now: u64)
    ensures
        kept(core, carry_on(on_event(core, event, now), Seq::empty(), now).0),
        kept(
            core,
            carry_on(give_task(core, tid, Caller::Scheduling, now), Seq::empty(), now).0,
        ),
{
    law_event_keeps(core, event, now);
    lemma_kept_give_task(core, tid, Caller::Scheduling, now);
    if let (core2, Move::Return(outcome)) = on_event(core, event, now) {
        lemma_settle_keeps(core2, Seq::empty(), outcome, now);
        lemma_kept_trans(core, core2, settle(core2, Seq::empty(), outcome, now).0);
    }
    if let (core2, Move::Return(outcome)) = give_task(core, tid, Caller::Scheduling, now) {
        lemma_settle_keeps(core2, Seq::empty(), outcome, now);
        lemma_kept_trans(core, core2, settle(core2, Seq::empty(), outcome, now).0);
    }
}

/// Going on with an operation, however its request was answered, keeps what every event keeps.
pub proof fn law_reply_keeps(core: Core, calls: Seq<Frame>, reply: Reply, now: u64)
    requires
        calls.len() > 0,
        stack_ok(calls),
    ensures
        kept(core, on_reply(core, calls, reply, now).0),
{
    let top = calls.last();
    let below = calls.drop_last();
    lemma_kept_refl(core);
    match top.stage {
        Stage::Sending { spent, .. } => {
            let back = Core { queue: enqueued(core.queue, spent), ..core };
            assert(back == core);
            let ready = set_worker(back, top.tid, WorkerStatus::Waiting, None);
            lemma_kept_set_worker(core, top.tid, WorkerStatus::Waiting, None);
            lemma_settle_keeps(ready, below, Ok(()), now);
            lemma_kept_trans(core, ready, settle(ready, below, Ok(()), now).0);
        },
        _ => {
            let draining = below.push(
                Frame {
                    stage: Stage::Draining { first: reply.first, second: reply.second },
                    ..top
                },
            );
            lemma_settle_keeps(core, draining, Ok(()), now);
            let failed = Err::<(), ServerError>(ServerError::SystemError(reply.errno));
            let (core2, outcome) = after_switch(core, top, failed);
            lemma_kept_after_switch(core, top, failed);
            lemma_settle_keeps(core2, below, outcome, now);
            lemma_kept_trans(core, core2, settle(core2, below, outcome, now).0);
        },
    }
}

/// Every step of a server's life keeps what every event keeps, but for the one that takes in a
/// worker which was just started.
pub proof fn law_life_keeps(
    phase: Phase,
    before: &Server,
    reply: JobReply,
    now: u64,
    epoch: u64,
    next: Phase,
    after: &Server,
    job: Job,
)
    requires
        before.wf(),
        serving(phase) ==> before@.calls.len() > 0,
        phase !is StartingWorker,
        run_step(phase, before, reply, now, epoch, next, after, job),
    ensures
        kept(before@.core, after@.core),
{
    let core = before@.core;
    lemma_kept_refl(core);
    match phase {
        Phase::AwaitingWorker { tid, .. } => {
            lemma_kept_set_worker(core, tid, WorkerStatus::Waiting, None);
        },
        Phase::AtHead | Phase::AfterEvent { .. } => {
            assert forall|tid: i32| #[trigger] is_waiting(core.pool, tid) implies kept(
                core,
                carry_on(give_task(core, tid, Caller::Scheduling, epoch), Seq::empty(), epoch).0,
            ) by {
                law_operation_keeps(core, 0, tid, epoch);
            }
        },
        Phase::BeforeEvent { events, index } => {
            law_operation_keeps(core, events[index as int], 0, epoch);
        },
        Phase::SchedulingFirst | Phase::InEvent { .. } | Phase::SchedulingAfter { .. } => {
            law_reply_keeps(core, before@.calls, short_reply(reply), epoch);
        },
        _ => {},
    }
}

/// What an operation has come to after these replies, each with the workers and tasks as they are
/// when it comes in, and with the time. A reply to an operation that is over changes nothing.
pub open spec fn answered(
    begun: (Core, Seq<Frame>, Progress),
    replies: Seq<(Core, Reply, u64)>,
) -> (Core, Seq<Frame>, Progress)
    decreases replies.len(),
{
    if replies.len() == 0 {
        begun
    } else {
        let before = answered(begun, replies.drop_last());
        if before.2 is Needs {
            let (core, reply, now) = replies.last();
            on_reply(core, before.1, reply, now)
        } else {
            before
        }
    }
}

/// The handling of an event ends with an error exactly if the event is not of the kinds that say
/// that a worker blocked, woke up, waits or exited. It then changes nothing. However the switches
/// fare that an event calls for, no failure of theirs is its own.
pub proof fn law_only_bad_kinds_fail(
    core: Core,
    event: u64,
    now: u64,
    replies: Seq<(Core, Reply, u64)>,
)
    ensures
        ({
            let begun = carry_on(on_event(core, event, now), Seq::empty(), now);
            let bad = !(1 <= kind_of(event) <= 4);
            &&& (answered(begun, replies).2 matches Progress::Finished(Err(_))) <==> bad
            &&& bad ==> answered(begun, replies) == (
                core,
                Seq::<Frame>::empty(),
                Progress::Finished(
                    Err(
                        ServerError::InvalidWorkerEvent {
                            worker_id: tid_of(event) as usize,
                            event,
                        },
                    ),
                ),
            )
        }),
{
    lemma_event_ends_well(core, event, now, replies);
}

/// The stack belongs to the handling of an event: the switch at its bottom is not one of
/// scheduling.
spec fn of_an_event(state: (Core, Seq<Frame>, Progress)) -> bool {
    match state.2 {
        Progress::Needs(_) => state.1.len() > 0 && state.1[0].caller !is Scheduling,
        Progress::Finished(result) => result is Ok,
    }
}

proof fn lemma_event_ends_well(
    core: Core,
    event: u64,
    now: u64,
    replies: Seq<(Core, Reply, u64)>,
)
    ensures
        ({
            let begun = carry_on(on_event(core, event, now), Seq::empty(), now);
            if 1 <= kind_of(event) <= 4 {
                of_an_event(answered(begun, replies))
            } else {
                answered(begun, replies) == begun
            }
        }),
    decreases replies.len(),
{
    let begun = carry_on(on_event(core, event, now), Seq::empty(), now);
    if replies.len() > 0 {
        lemma_event_ends_well(core, event, now, replies.drop_last());
        let before = answered(begun, replies.drop_last());
        if before.2 is Needs {
            let (core2, reply, later) = replies.last();
            lemma_reply_ends_well(core2, before.1, reply, later);
        }
    }
}

proof fn lemma_reply_ends_well(core: Core, calls: Seq<Frame>, reply: Reply, now: u64)
    requires
        calls.len() > 0,
        calls[0].caller !is Scheduling,
    ensures
        of_an_event(on_reply(core, calls, reply, now)),
{
    let top = calls.last();
    let below = calls.drop_last();
    match top.stage {
        Stage::Sending { spent, .. } => {
            let back = Core { queue: enqueued(core.queue, spent), ..core };
            lemma_settle_ends_well(
                set_worker(back, top.tid, WorkerStatus::Waiting, None),
                below,
                Ok(()),
                now,
            );
        },
        _ => {
            let draining = below.push(
                Frame {
                    stage: Stage::Draining { first: reply.first, second: reply.second },
                    ..top
                },
            );
            lemma_settle_ends_well(core, draining, Ok(()), now);
            let failed = Err::<(), ServerError>(ServerError::SystemError(reply.errno));
            let (core2, outcome) = after_switch(core, top, failed);
            lemma_settle_ends_well(core2, below, outcome, now);
        },
    }
}

proof fn lemma_settle_ends_well(
    core: Core,
    calls: Seq<Frame>,
    outcome: Result<(), ServerError>,
    now: u64,
)
    requires
        calls.len() > 0 ==> calls[0].caller !is Scheduling,
    ensures
        calls.len() > 0 || outcome is Ok ==> of_an_event(settle(core, calls, outcome, now)),
    decreases weight(calls),
{
    if calls.len() > 0 {
        let top = calls.last();
        let below = calls.drop_last();
        if let Stage::Draining { first, second } = top.stage {
            if outcome is Err || first == 0 {
                let (core2, outcome2) = after_switch(core, top, outcome);
                lemma_settle_ends_well(core2, below, outcome2, now);
            } else {
                let rest = below.push(
                    Frame { stage: Stage::Draining { first: second, second: 0 }, ..top },
                );
                assert(rest.drop_last() =~= below);
                if let (core2, Move::Return(outcome2)) = on_event(core, first, now) {
                    lemma_settle_ends_well(core2, rest, outcome2, now);
                }
            }
        }
    }
}

/// An event of a worker that the server does not know changes nothing and asks for nothing.
pub proof fn law_unknown_worker_is_ignored(core: Core, event: u64, now: u64)
    requires
        !core.pool.contains_key(tid_of(event)),
    ensures
        on_event(core, event, now).0 == core,
        on_event(core, event, now).1 is Return,
{
}

/// The first step of an event touches no worker but the one it is about.
pub proof fn law_event_touches_one_worker(core: Core, event: u64, other: i32, now: u64)
    requires
        other != tid_of(event),
        core.pool.contains_key(other),
    ensures
        on_event(core, event, now).0.pool[other] == core.pool[other],
{
}

/// A worker that blocks and wakes up again is running the task that it had, and is switched to so
/// that it can go on.
pub proof fn law_blocked_worker_resumes_its_task(
    core: Core,
    block: u64,
    wake: u64,
    now: u64,
    later: u64,
)
    requires
        tid_of(block) == tid_of(wake),
        kind_of(block) == 1,
        kind_of(wake) == 2,
        core.pool.contains_key(tid_of(block)),
    ensures
        ({
            let tid = tid_of(block);
            let blocked = on_event(core, block, now).0;
            let (woken, step) = on_event(blocked, wake, later);
            &&& blocked.pool[tid] == (Worker { status: WorkerStatus::Blocked, ..core.pool[tid] })
            &&& woken.pool[tid] == (Worker { status: WorkerStatus::Running, ..core.pool[tid] })
            &&& woken.queue == core.queue
            &&& step == Move::Call(
                Frame { tid, caller: Caller::Resumption, stage: Stage::Switching },
            )
        }),
{
}

/// A worker that wakes up while it is running is done with its task. If no task is left it is
/// ready, and otherwise it is running the next one; either way its old task is in progress no
/// longer.
pub proof fn law_running_worker_takes_the_next_task(core: Core, wake: u64, task: u128, now: u64)
    requires
        kind_of(wake) == 2,
        core.pool.contains_key(tid_of(wake)),
        core.pool[tid_of(wake)].status == WorkerStatus::Running,
        core.pool[tid_of(wake)].current_task == Some(task),
        sorted_by_state(core.queue),
    ensures
        ({
            let tid = tid_of(wake);
            let (after, step) = on_event(core, wake, now);
            &&& !after.queue.in_progress.contains_key(task)
            &&& match next_task(core.queue) {
                None => {
                    &&& after.pool[tid].status == WorkerStatus::Waiting
                    &&& after.pool[tid].current_task is None
                    &&& step == Move::Return(Ok(()))
                },
                Some(next) => {
                    &&& after.pool[tid].status == WorkerStatus::Running
                    &&& after.pool[tid].current_task == Some(next.id)
                    &&& step is Call
                },
            }
        }),
{
}

/// Without a task in either queue, scheduling changes nothing.
pub proof fn law_nothing_to_schedule(core: Core, tid: i32, now: u64)
    requires
        next_task(core.queue) is None,
    ensures
        carry_on(give_task(core, tid, Caller::Scheduling, now), Seq::empty(), now) == (
            core,
            Seq::<Frame>::empty(),
            Progress::Finished(Ok(())),
        ),
{
}

/// A function goes out to the worker that was given its task, and its task has left the queue:
/// no function is sent twice for one task.
pub proof fn law_function_is_sent_once(core: Core, tid: i32, caller: Caller, now: u64)
    requires
        sorted_by_state(core.queue),
        core.pool.contains_key(tid),
        core.queue.preempted.len() == 0,
        core.queue.pending.len() > 0,
    ensures
        ({
            let task = core.queue.pending[0];
            let (after, step) = give_task(core, tid, caller, now);
            &&& after.queue.pending == core.queue.pending.drop_first()
            &&& after.pool[tid].current_task == Some(task.id)
            &&& step matches Move::Call(frame) && request_of(frame) == (Request::Send {
                tid,
                function: task.state->Pending_0,
            })
        }),
{
}

/// When a function cannot be sent, its task is lost: it is in neither queue, and the worker that
/// was to have it is ready again.
pub proof fn law_unsent_task_is_lost(core: Core, frame: Frame, reply: Reply, now: u64)
    requires
        waits_for_outcome(frame),
        frame.stage is Sending,
        reply.ret != 0,
        core.pool.contains_key(frame.tid),
    ensures
        ({
            let (after, calls, progress) = on_reply(core, seq![frame], reply, now);
            &&& after.queue == core.queue
            &&& after.pool[frame.tid].status == WorkerStatus::Waiting
            &&& after.pool[frame.tid].current_task is None
            &&& calls.len() == 0
            &&& progress == Progress::Finished(Ok(()))
        }),
{
    assert(seq![frame].drop_last() =~= Seq::<Frame>::empty());
}

/// When the switch to a worker fails that was given a task by scheduling, the worker is ready
/// again and the error is passed on; when it fails for a worker that had just finished a task, the
/// worker is ready again and nobody hears of the error; when it fails for a worker that was
/// blocked, the worker counts as running.
pub proof fn law_failed_switch(core: Core, frame: Frame, reply: Reply, now: u64)
    requires
        frame.stage is Switching,
        reply.ret != 0,
        core.pool.contains_key(frame.tid),
    ensures
        ({
            let (after, calls, progress) = on_reply(core, seq![frame], reply, now);
            let ready = set_worker(core, frame.tid, WorkerStatus::Waiting, None);
            &&& calls.len() == 0
            &&& match frame.caller {
                Caller::Scheduling => after == ready && progress == Progress::Finished(
                    Err(ServerError::SystemError(reply.errno)),
                ),
                Caller::Completion => after == ready && progress == Progress::Finished(Ok(())),
                Caller::Resumption => after == core && progress == Progress::Finished(Ok(())),
            }
        }),
{
    assert(seq![frame].drop_last() =~= Seq::<Frame>::empty());
}

} // verus!
