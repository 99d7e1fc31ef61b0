//! What holds of the servers that share their queues as a whole.

use crate::bounded::oldest;
use crate::error::ServerError;
use crate::queued::queues::{
    all_done, is_full, law_bound_is_kept, law_taken_back_is_undone, put, taken, Bounded, QueuesView,
    TaskStats,
};
use crate::queued::run::{arrived, run_step, Job, Phase, ServerRun, World};
use crate::queued::server::{
    after_switch, begin, carry_on, core_of, has_status, line_up, on_event, on_reply, set_status,
    settle, shifted, state_key, switch_error_of, weight, Caller, Core, Frame, Move, Progress, Reply,
    Request, Stage,
};
use crate::status::WorkerStatus;
use crate::umcg::{kind_of, tid_of, worker_id_of, worker_of};
use vstd::prelude::*;

verus! {

/// No queue holds more than it has room for.
pub open spec fn bounds_ok(queues: QueuesView) -> bool {
    &&& queues.pending.held.len() <= queues.pending.room
    &&& queues.running.held.len() <= queues.running.room
    &&& queues.preempted.held.len() <= queues.preempted.room
}

/// The same workers are known, the queues have the same room, keep within it, none of the workers
/// that were taken off their processor was touched, and no error that was not told of is gone.
pub open spec fn kept(before: Core, after: Core) -> bool {
    &&& before.failures.is_prefix_of(after.failures)
    &&& after.states.dom() == before.states.dom()
    &&& after.queues.preempted == before.queues.preempted
    &&& after.queues.pending.room == before.queues.pending.room
    &&& after.queues.running.room == before.queues.running.room
    &&& bounds_ok(before.queues) ==> bounds_ok(after.queues)
}

/// Handling an event keeps the set of workers and the bounds of the queues.
pub proof fn law_event_keeps(core: Core, event: u64)
    ensures
        kept(core, on_event(core, event).0),
{
    assert(on_event(core, event).0.states.dom() =~= core.states.dom());
}

/// The end of a switch keeps the set of workers and the bounds of the queues.
pub proof fn law_switch_keeps(core: Core, frame: Frame, outcome: Result<(), ServerError>)
    ensures
        kept(core, after_switch(core, frame, outcome)),
{
    assert(after_switch(core, frame, outcome).states.dom() =~= core.states.dom());
    if core.queues.running.held.len() <= core.queues.running.room {
        law_bound_is_kept(core.queues.running, frame.worker_id);
    }
}

/// However an operation goes on, it keeps the set of workers and the bounds of the queues; and an
/// operation that ran a switch ends without an error.
pub proof fn law_operation_keeps(
    core: Core,
    calls: Seq<Frame>,
    outcome: Result<(), ServerError>,
)
    ensures
        kept(core, settle(core, calls, outcome).0),
        settle(core, calls, outcome).2 matches Progress::Finished(result) ==> result == outcome
            || calls.len() > 0 && result is Ok,
    decreases weight(calls),
{
    if calls.len() > 0 {
        let top = calls.last();
        let below = calls.drop_last();
        if let Stage::Draining { first, second } = top.stage {
            let rest = below.push(
                Frame { stage: Stage::Draining { first: second, second: 0 }, ..top },
            );
            assert(rest.drop_last() =~= below);
            if outcome is Err || first == 0 {
                law_switch_keeps(core, top, outcome);
                law_operation_keeps(after_switch(core, top, outcome), below, Ok(()));
            } else {
                law_event_keeps(core, first);
                match on_event(core, first) {
                    (core2, Move::Return(outcome2)) => {
                        law_operation_keeps(core2, rest, outcome2);
                        lemma_ends_well(core2, rest, outcome2);
                    },
                    _ => {},
                }
            }
        }
    }
}

/// A stack with a switch on it ends without an error.
proof fn lemma_ends_well(core: Core, calls: Seq<Frame>, outcome: Result<(), ServerError>)
    requires
        calls.len() > 0,
    ensures
        settle(core, calls, outcome).2 matches Progress::Finished(result) ==> result is Ok,
    decreases weight(calls),
{
    let top = calls.last();
    let below = calls.drop_last();
    if let Stage::Draining { first, second } = top.stage {
        let rest = below.push(Frame { stage: Stage::Draining { first: second, second: 0 }, ..top });
        assert(rest.drop_last() =~= below);
        if outcome is Err || first == 0 {
            if below.len() > 0 {
                lemma_ends_well(after_switch(core, top, outcome), below, Ok(()));
            }
        } else {
            match on_event(core, first) {
                (core2, Move::Return(outcome2)) => {
                    lemma_ends_well(core2, rest, outcome2);
                },
                _ => {},
            }
        }
    }
}

/// Whatever is answered to a request, the set of workers and the bounds of the queues are kept, and
/// the operation does not end with an error.
pub proof fn law_reply_keeps(core: Core, calls: Seq<Frame>, reply: Reply)
    requires
        calls.len() > 0,
    ensures
        kept(core, on_reply(core, calls, reply).0),
        on_reply(core, calls, reply).2 matches Progress::Finished(result) ==> result is Ok,
{
    let top = calls.last();
    let below = calls.drop_last();
    match top.stage {
        Stage::Sending { .. } => {
            if reply.ret != 0 {
                law_operation_keeps(core, below, Ok(()));
            } else if is_full(core.queues.running) {
                let back = line_up(
                    set_status(core, top.worker_id, WorkerStatus::Waiting),
                    top.worker_id,
                );
                assert(back.states.dom() =~= core.states.dom());
                law_operation_keeps(back, below, Ok(()));
            } else {
                assert(on_reply(core, calls, reply).0.states.dom() =~= core.states.dom());
            }
        },
        _ => {
            if reply.ret == 0 {
                law_operation_keeps(
                    core,
                    below.push(
                        Frame {
                            stage: Stage::Draining { first: reply.first, second: reply.second },
                            ..top
                        },
                    ),
                    Ok(()),
                );
            } else {
                let error = Err(
                    ServerError::ContextSwitchFailed {
                        worker_id: top.worker_id,
                        ret_code: reply.ret,
                        errno: reply.errno,
                    },
                );
                law_switch_keeps(core, top, error);
                law_operation_keeps(after_switch(core, top, error), below, Ok(()));
            }
        },
    }
}

/// An attempt to schedule keeps the set of workers and the bounds of the queues, and does not fail.
pub proof fn law_scheduling_keeps(core: Core, channels: Set<u64>, tasks: Bounded)
    ensures
        kept(core, begin(core, channels, tasks).0),
        begin(core, channels, tasks).2 matches Move::Return(result) ==> result is Ok,
{
}

/// Every step of a server's life keeps the set of workers and the bounds of the queues.
pub proof fn law_life_keeps(
    run: ServerRun,
    before: World,
    reply: Reply,
    then: ServerRun,
    after: World,
    job: Job,
)
    requires
        run.fits(&before.server),
        run_step(run, before, reply, then, after, job),
    ensures
        kept(
            core_of(&before.server, &before.queues),
            core_of(&after.server, &after.queues),
        ),
{
    let core = core_of(&before.server, &before.queues);
    match run.phase {
        Phase::SwitchingTo { tid } => {
            if reply.ret == 0 && core.states.contains_key(worker_id_of(tid)) {
                assert(arrived(core, tid).states.dom() =~= core.states.dom());
            }
        },
        Phase::AtHead => {
            law_scheduling_keeps(core, before.server.channels@, before.tasks@);
        },
        Phase::BeforeEvent { first, .. } => {
            law_event_keeps(core, first);
        },
        Phase::Scheduling | Phase::InEvent { .. } => {
            law_reply_keeps(core, before.server.calls@, reply);
        },
        _ => {},
    }
}

/// Handling an event fails at once, and changes nothing, exactly if the event is not of the kinds
/// that say that a worker blocked, woke up or waits.
pub proof fn law_only_bad_kinds_fail(core: Core, event: u64)
    ensures
        (carry_on(on_event(core, event), Seq::empty()).2 matches Progress::Finished(Err(_)))
            <==> !(1 <= kind_of(event) <= 3),
        !(1 <= kind_of(event) <= 3) ==> on_event(core, event).0 == core && carry_on(
            on_event(core, event),
            Seq::empty(),
        ).2 == Progress::Finished(
            Err(
                ServerError::InvalidWorkerEvent { worker_id: worker_of(event) as usize, event },
            ),
        ),
{
}

/// An event about a worker of another server changes nothing.
pub proof fn law_unknown_worker_is_ignored(core: Core, event: u64)
    requires
        !core.states.contains_key(worker_of(event)),
    ensures
        on_event(core, event).0 == core,
        on_event(core, event).1 is Return,
{
}

/// An event changes the status of no worker but its own, and that only from running to blocked,
/// from blocked to running or from running to ready.
pub proof fn law_event_moves_one_worker(core: Core, event: u64, worker_id: u64)
    requires
        core.states.contains_key(worker_id),
    ensures
        ({
            let old_status = core.states[worker_id];
            let new_status = on_event(core, event).0.states[worker_id];
            ||| new_status == old_status
            ||| worker_id == worker_of(event) && (old_status is Running && new_status is Blocked
                || old_status is Blocked && new_status is Running || old_status is Running
                && new_status is Waiting)
        }),
{
}

/// A worker that blocks or wakes up stays among those that run: the queues do not change.
pub proof fn law_blocking_keeps_queues(core: Core, event: u64)
    requires
        kind_of(event) == 1 || kind_of(event) == 2,
    ensures
        on_event(core, event).0.queues == core.queues,
{
}

/// A worker that blocks and then wakes up runs again as before, and is switched to.
pub proof fn law_block_then_wake(core: Core, block: u64, wake: u64)
    requires
        kind_of(block) == 1,
        kind_of(wake) == 2,
        worker_of(block) == worker_of(wake),
        has_status(core, worker_of(block), WorkerStatus::Running),
    ensures
        ({
            let (blocked, _) = on_event(core, block);
            let (awake, step) = on_event(blocked, wake);
            &&& has_status(blocked, worker_of(block), WorkerStatus::Blocked)
            &&& awake == core
            &&& step == Move::Call(
                Frame {
                    worker_id: worker_of(wake),
                    caller: Caller::Waking,
                    stage: Stage::Switching,
                },
            )
        }),
{
    let (blocked, _) = on_event(core, block);
    assert(on_event(blocked, wake).0.states =~= core.states);
}

/// A worker that woke up and cannot be switched to is blocked as before; nothing else changed but
/// that the error is noted.
pub proof fn law_failed_wake_is_undone(core: Core, wake: u64, reply: Reply)
    requires
        kind_of(wake) == 2,
        has_status(core, worker_of(wake), WorkerStatus::Blocked),
        reply.ret != 0,
    ensures
        ({
            let (awake, calls, _) = carry_on(on_event(core, wake), Seq::empty());
            on_reply(awake, calls, reply) == (
                Core {
                    failures: core.failures.push(switch_error_of(worker_of(wake), reply)),
                    ..core
                },
                Seq::<Frame>::empty(),
                Progress::Finished(Ok(())),
            )
        }),
{
    let (awake, calls, _) = carry_on(on_event(core, wake), Seq::empty());
    assert(calls.drop_last() =~= Seq::<Frame>::empty());
    assert(on_reply(awake, calls, reply).0.states =~= core.states);
}

/// A running worker that waits becomes ready: it lines up if there is room, and one worker leaves
/// those that run, the one that has been running for longest.
pub proof fn law_wait_makes_ready(core: Core, event: u64)
    requires
        kind_of(event) == 3,
        has_status(core, worker_of(event), WorkerStatus::Running),
    ensures
        ({
            let after = on_event(core, event).0;
            &&& has_status(after, worker_of(event), WorkerStatus::Waiting)
            &&& after.queues.pending == put(core.queues.pending, worker_of(event))
            &&& after.queues.running == taken(core.queues.running)
        }),
{
}

/// The worker that has been ready for longest is sent the task that came first.
pub proof fn law_longest_ready_gets_first_task(
    core: Core,
    channels: Set<u64>,
    tasks: Bounded,
    worker_id: u64,
    task: u64,
)
    requires
        oldest(core.queues.pending.held) == Some(worker_id),
        oldest(tasks.held) == Some(task),
        has_status(core, worker_id, WorkerStatus::Waiting),
        channels.contains(worker_id),
    ensures
        ({
            let (after, rest, step) = begin(core, channels, tasks);
            &&& carry_on((after, step), Seq::empty()).2 == Progress::Needs(
                Request::Send { worker_id, task },
            )
            &&& rest == taken(tasks)
            &&& after.queues.pending == taken(core.queues.pending)
            &&& after.states == core.states
        }),
{
}

/// Without a task, and for a worker that is not this server's or not ready, an attempt to schedule
/// only sends the worker that has been ready for longest to the end of the line.
pub proof fn law_nothing_to_schedule(core: Core, channels: Set<u64>, tasks: Bounded, worker_id: u64)
    requires
        bounds_ok(core.queues),
        oldest(core.queues.pending.held) == Some(worker_id),
        tasks.held.len() == 0 || !has_status(core, worker_id, WorkerStatus::Waiting),
    ensures
        ({
            let (after, rest, step) = begin(core, channels, tasks);
            &&& rest == tasks
            &&& step == Move::Return(Ok(()))
            &&& after.states == core.states
            &&& after.queues.running == core.queues.running
            &&& after.queues.pending.held == core.queues.pending.held.drop_first().push(worker_id)
        }),
{
}

/// A task that cannot be sent is lost, and its worker is in none of the queues any more, though its
/// status still says that it is ready.
pub proof fn law_unsent_task_is_lost(
    core: Core,
    channels: Set<u64>,
    tasks: Bounded,
    worker_id: u64,
    reply: Reply,
)
    requires
        oldest(core.queues.pending.held) == Some(worker_id),
        has_status(core, worker_id, WorkerStatus::Waiting),
        tasks.held.len() > 0,
        channels.contains(worker_id) ==> reply.ret != 0,
    ensures
        ({
            let (begun, rest, step) = begin(core, channels, tasks);
            let (after, calls, progress) = if channels.contains(worker_id) {
                on_reply(begun, carry_on((begun, step), Seq::empty()).1, reply)
            } else {
                carry_on((begun, step), Seq::empty())
            };
            &&& progress == Progress::Finished(Ok(()))
            &&& calls.len() == 0
            &&& rest == taken(tasks)
            &&& after == (Core {
                queues: QueuesView { pending: taken(core.queues.pending), ..core.queues },
                ..core
            })
            &&& has_status(after, worker_id, WorkerStatus::Waiting)
        }),
{
    let (begun, rest, step) = begin(core, channels, tasks);
    let calls = carry_on((begun, step), Seq::empty()).1;
    if channels.contains(worker_id) {
        assert(calls.drop_last() =~= Seq::<Frame>::empty());
    }
}

/// A worker that was sent a task and cannot be switched to is ready again, at the end of the line,
/// and those that run are as they were before it was put among them, whichever they are. The error
/// is noted, and nothing else changed.
pub proof fn law_failed_switch(core: Core, frame: Frame, reply: Reply)
    requires
        frame.caller is Scheduling,
        frame.stage is Switching,
        core.states.contains_key(frame.worker_id),
        !is_full(core.queues.running),
        reply.ret != 0,
    ensures
        ({
            let sent = Core {
                queues: QueuesView {
                    running: put(core.queues.running, frame.worker_id),
                    ..core.queues
                },
                ..set_status(core, frame.worker_id, WorkerStatus::Running)
            };
            on_reply(sent, seq![frame], reply) == (
                Core {
                    states: core.states.insert(frame.worker_id, WorkerStatus::Waiting),
                    queues: QueuesView {
                        pending: put(core.queues.pending, frame.worker_id),
                        ..core.queues
                    },
                    failures: core.failures.push(switch_error_of(frame.worker_id, reply)),
                },
                Seq::<Frame>::empty(),
                Progress::Finished(Ok(())),
            )
        }),
{
    let sent = Core {
        queues: QueuesView {
            running: put(core.queues.running, frame.worker_id),
            ..core.queues
        },
        ..set_status(core, frame.worker_id, WorkerStatus::Running)
    };
    assert(seq![frame].drop_last() =~= Seq::<Frame>::empty());
    law_taken_back_is_undone(core.queues.running, frame.worker_id);
    assert(on_reply(sent, seq![frame], reply).0.states =~= core.states.insert(
        frame.worker_id,
        WorkerStatus::Waiting,
    ));
}

/// Of every switch that fails it is noted which worker it was to, what the call returned and the
/// error number, behind the errors that were noted before.
pub proof fn law_failed_switch_is_noted(core: Core, calls: Seq<Frame>, reply: Reply)
    requires
        calls.len() > 0,
        calls.last().stage is Switching,
        reply.ret != 0,
    ensures
        core.failures.push(
            ServerError::ContextSwitchFailed {
                worker_id: calls.last().worker_id,
                ret_code: reply.ret,
                errno: reply.errno,
            },
        ).is_prefix_of(on_reply(core, calls, reply).0.failures),
{
    let top = calls.last();
    let ended = after_switch(core, top, Err(switch_error_of(top.worker_id, reply)));
    law_operation_keeps(ended, calls.drop_last(), Ok(()));
}

/// A worker is found by its worker id and, unless the number of its thread is itself a multiple of
/// 32, by that number.
pub proof fn law_worker_found_by_either_number(tid: i32)
    requires
        tid >= 0,
    ensures
        state_key(worker_id_of(tid)) == worker_id_of(tid),
        tid % 32 != 0 ==> state_key(tid as u64) == worker_id_of(tid),
        shifted(tid as u64) == worker_id_of(tid),
        tid_of(shifted(tid as u64)) == tid,
{
}

/// Right after a task was handed in not all tasks are done, even if there was no room for it.
pub proof fn law_submitted_task_is_open(stats: TaskStats)
    requires
        stats.completed_tasks <= stats.total_tasks < usize::MAX,
    ensures
        !all_done(
            TaskStats {
                total_tasks: vstd::wrapping::usize_specs::wrapping_add(stats.total_tasks, 1),
                ..stats
            },
        ),
{
}

/// Every number finds a worker under a number without a kind field: a worker id under itself, and
/// any other under the number moved five bits to the left.
pub proof fn law_state_keys(number: u64)
    ensures
        kind_of(state_key(number)) == 0,
        number & 31 == 0 ==> state_key(number) == number,
        number & 31 != 0 ==> state_key(number) == number << 5,
        shifted(number) == number << 5,
        state_key(state_key(number)) == state_key(number),
{
    assert(number & 31 == number % 32) by (bit_vector);
    assert(number << 5 == (number * 32) % 0x1_0000_0000_0000_0000) by (bit_vector);
    assert(((number * 32) % 0x1_0000_0000_0000_0000) % 32 == 0);
}

} // verus!
