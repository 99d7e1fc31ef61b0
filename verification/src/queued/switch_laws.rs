//! What an operation of a server comes to, event by event and reply by reply.

use crate::error::ServerError;
use crate::queued::queues::{law_taken_back_is_undone, Bounded, QueuesView};
use crate::queued::server::{
    after_switch, all_draining, begin, carry_on, on_event, on_reply, settle, stack_ok, weight,
    Caller, Core, Frame, Move, Progress, Reply, Request, Stage,
};
use crate::status::WorkerStatus;
use crate::umcg::{kind_of, tid_of, worker_of};
use vstd::prelude::*;

verus! {

/// A switch that succeeds and reports no event leaves every status, every queue and the errors as
/// they were, whoever asked for it: a worker that woke up, or was sent a task, keeps running. The
/// operation is over.
pub proof fn law_quiet_switch_changes_nothing(core: Core, frame: Frame, reply: Reply)
    requires
        frame.stage is Switching,
        reply.ret == 0,
        reply.first == 0,
    ensures
        on_reply(core, seq![frame], reply) == (
            core,
            Seq::<Frame>::empty(),
            Progress::Finished(Ok(())),
        ),
{
    let empty = Seq::<Frame>::empty();
    let draining = Frame {
        stage: Stage::Draining { first: reply.first, second: reply.second },
        ..frame
    };
    assert(seq![frame].drop_last() =~= empty);
    assert(empty.push(draining).drop_last() =~= empty);
    reveal_with_fuel(settle, 3);
}

/// A switch inside the handling of an event, if it succeeds and reports nothing, only lets the
/// switch around it go on: as if that one had just reported the events that it has left.
pub proof fn law_quiet_inner_switch(
    core: Core,
    below: Seq<Frame>,
    frame: Frame,
    first: u64,
    second: u64,
    reply: Reply,
    rest: Reply,
)
    requires
        below.len() > 0,
        below.last().stage == (Stage::Draining { first, second }),
        frame.stage is Switching,
        reply.ret == 0,
        reply.first == 0,
        rest.ret == 0,
        rest.first == first,
        rest.second == second,
    ensures
        on_reply(core, below.push(frame), reply) == on_reply(
            core,
            below.drop_last().push(Frame { stage: Stage::Switching, ..below.last() }),
            rest,
        ),
{
    let around = below.drop_last();
    let waiting = Frame { stage: Stage::Switching, ..below.last() };
    let draining = Frame {
        stage: Stage::Draining { first: reply.first, second: reply.second },
        ..frame
    };
    assert(below.push(frame).drop_last() =~= below);
    assert(below.push(draining).drop_last() =~= below);
    assert(around.push(waiting).drop_last() =~= around);
    assert(around.push(below.last()) =~= below);
    assert(settle(core, below.push(draining), Ok(())) == settle(core, below, Ok(())));
}

/// The events that a switch reports are handled one after the other, the first one first. If the
/// first is handled to the end, the rest goes on as if only the second had been reported, to the
/// workers and queues that the first one left behind.
pub proof fn law_events_in_turn(
    core: Core,
    below: Seq<Frame>,
    frame: Frame,
    reply: Reply,
    rest: Reply,
)
    requires
        frame.stage is Switching,
        reply.ret == 0,
        reply.first != 0,
        rest.ret == 0,
        rest.first == reply.second,
        rest.second == 0,
    ensures
        ({
            let alone = carry_on(on_event(core, reply.first), Seq::empty());
            let whole = on_reply(core, below.push(frame), reply);
            let left = Stage::Draining { first: reply.second, second: 0 };
            match alone.2 {
                Progress::Finished(Ok(_)) => whole == on_reply(alone.0, below.push(frame), rest),
                Progress::Finished(Err(_)) => !(1 <= kind_of(reply.first) <= 3),
                Progress::Needs(request) => {
                    &&& alone.1.len() == 1
                    &&& whole == (
                        alone.0,
                        below.push(Frame { stage: left, ..frame }).push(alone.1[0]),
                        Progress::Needs(request),
                    )
                },
            }
        }),
{
    let empty = Seq::<Frame>::empty();
    let reported = Frame {
        stage: Stage::Draining { first: reply.first, second: reply.second },
        ..frame
    };
    let left = Frame { stage: Stage::Draining { first: reply.second, second: 0 }, ..frame };
    assert(below.push(frame).drop_last() =~= below);
    assert(below.push(reported).drop_last() =~= below);
    assert(below.push(left).drop_last() =~= below);
    assert(empty.len() == 0);
    if let Move::Return(outcome) = on_event(core, reply.first).1 {
        assert(settle(on_event(core, reply.first).0, empty, outcome).2 == Progress::Finished(
            outcome,
        ));
    }
}

/// A switch to a worker that woke up counts as failed if it reports an event that is refused: the
/// worker is blocked as before it woke up, the error is noted, the events behind that one are not
/// looked at, and whatever is around the switch goes on as after a quiet one.
pub proof fn law_bad_event_undoes_the_wake(
    core: Core,
    below: Seq<Frame>,
    frame: Frame,
    reply: Reply,
    quiet: Reply,
)
    requires
        frame.stage is Switching,
        frame.caller is Waking,
        core.states.contains_key(frame.worker_id),
        reply.ret == 0,
        reply.first != 0,
        !(1 <= kind_of(reply.first) <= 3),
        quiet.ret == 0,
        quiet.first == 0,
    ensures
        ({
            let error = ServerError::InvalidWorkerEvent {
                worker_id: worker_of(reply.first) as usize,
                event: reply.first,
            };
            let undone = Core {
                states: core.states.insert(frame.worker_id, WorkerStatus::Blocked),
                queues: core.queues,
                failures: core.failures.push(error),
            };
            on_reply(core, below.push(frame), reply) == on_reply(undone, below.push(frame), quiet)
        }),
{
    let reported = Frame {
        stage: Stage::Draining { first: reply.first, second: reply.second },
        ..frame
    };
    let left = Frame { stage: Stage::Draining { first: reply.second, second: 0 }, ..frame };
    let silent = Frame {
        stage: Stage::Draining { first: quiet.first, second: quiet.second },
        ..frame
    };
    assert(below.push(frame).drop_last() =~= below);
    assert(below.push(reported).drop_last() =~= below);
    assert(below.push(left).drop_last() =~= below);
    assert(below.push(silent).drop_last() =~= below);
    let outcome = Err::<(), ServerError>(
        ServerError::InvalidWorkerEvent {
            worker_id: worker_of(reply.first) as usize,
            event: reply.first,
        },
    );
    assert(on_reply(core, below.push(frame), reply) == settle(core, below.push(left), outcome));
    assert(settle(core, below.push(left), outcome) == settle(
        after_switch(core, left, outcome),
        below,
        Ok(()),
    ));
}

/// A switch to a worker that woke up, if the call fails: the worker is blocked as before it woke
/// up, the error is noted, and whatever is around the switch goes on as after a quiet one.
pub proof fn law_failed_call_undoes_the_wake(
    core: Core,
    below: Seq<Frame>,
    frame: Frame,
    reply: Reply,
    quiet: Reply,
)
    requires
        frame.stage is Switching,
        frame.caller is Waking,
        core.states.contains_key(frame.worker_id),
        reply.ret != 0,
        quiet.ret == 0,
        quiet.first == 0,
    ensures
        ({
            let error = ServerError::ContextSwitchFailed {
                worker_id: frame.worker_id,
                ret_code: reply.ret,
                errno: reply.errno,
            };
            let undone = Core {
                states: core.states.insert(frame.worker_id, WorkerStatus::Blocked),
                queues: core.queues,
                failures: core.failures.push(error),
            };
            on_reply(core, below.push(frame), reply) == on_reply(undone, below.push(frame), quiet)
        }),
{
    let silent = Frame {
        stage: Stage::Draining { first: quiet.first, second: quiet.second },
        ..frame
    };
    assert(below.push(frame).drop_last() =~= below);
    assert(below.push(silent).drop_last() =~= below);
}

/// The numbers with `value` behind them, if there is room for it.
pub open spec fn joined(held: Seq<u64>, room: nat, value: u64) -> Seq<u64> {
    if held.len() < room {
        held.push(value)
    } else {
        held
    }
}

/// What each kind of event does to the worker that it is about. Only a worker that runs can block
/// or wait, and only one that is blocked can wake up; one that waits joins the end of the line, and
/// the worker that has been running for longest leaves those that run.
pub proof fn law_event_effects(core: Core, event: u64)
    requires
        core.states.contains_key(worker_of(event)),
    ensures
        ({
            let worker_id = worker_of(event);
            let status = core.states[worker_id];
            let kind = kind_of(event);
            let (after, step) = on_event(core, event);
            let changes = kind == 1 && status is Running || kind == 2 && status is Blocked || kind
                == 3 && status is Running;
            &&& !changes ==> after == core
            &&& kind == 1 && status is Running ==> {
                &&& after.states == core.states.insert(worker_id, WorkerStatus::Blocked)
                &&& after.queues == core.queues
                &&& step == Move::Return(Ok(()))
            }
            &&& kind == 2 && status is Blocked ==> {
                &&& after.states == core.states.insert(worker_id, WorkerStatus::Running)
                &&& after.queues == core.queues
                &&& step == Move::Call(
                    Frame { worker_id, caller: Caller::Waking, stage: Stage::Switching },
                )
            }
            &&& kind == 3 && status is Running ==> {
                &&& after.states == core.states.insert(worker_id, WorkerStatus::Waiting)
                &&& after.queues.pending.held == joined(
                    core.queues.pending.held,
                    core.queues.pending.room,
                    worker_id,
                )
                &&& after.queues.pending.room == core.queues.pending.room
                &&& after.queues.running.room == core.queues.running.room
                &&& core.queues.running.held.len() > 0 ==> after.queues.running.held
                    == core.queues.running.held.drop_first()
                &&& core.queues.running.held.len() == 0 ==> after.queues.running
                    == core.queues.running
                &&& after.queues.preempted == core.queues.preempted
                &&& step == Move::Return(Ok(()))
            }
            &&& !changes && 1 <= kind <= 3 ==> step == Move::Return(Ok(()))
            &&& after.failures == core.failures
        }),
{
}

/// A blocked worker that wakes up, and to which the switch succeeds without an event, is running;
/// the queues and the errors are as they were, and no other status changed.
pub proof fn law_woken_worker_runs(core: Core, wake: u64, reply: Reply)
    requires
        kind_of(wake) == 2,
        core.states.contains_key(worker_of(wake)),
        core.states[worker_of(wake)] == WorkerStatus::Blocked,
        reply.ret == 0,
        reply.first == 0,
    ensures
        ({
            let begun = carry_on(on_event(core, wake), Seq::empty());
            let (after, calls, progress) = on_reply(begun.0, begun.1, reply);
            &&& begun.2 == Progress::Needs(Request::Switch { tid: tid_of(worker_of(wake)) })
            &&& after.states == core.states.insert(worker_of(wake), WorkerStatus::Running)
            &&& after.queues == core.queues
            &&& after.failures == core.failures
            &&& calls.len() == 0
            &&& progress == Progress::Finished(Ok(()))
        }),
{
    let frame = Frame {
        worker_id: worker_of(wake),
        caller: Caller::Waking,
        stage: Stage::Switching,
    };
    let begun = carry_on(on_event(core, wake), Seq::empty());
    assert(begun.1 =~= seq![frame]);
    law_quiet_switch_changes_nothing(begun.0, frame, reply);
}

/// What comes of sending a task. If the task could not be sent nothing changes, and if there is no
/// room among those that run the worker is ready again at the end of the line: both end the
/// attempt. Otherwise the worker runs, behind those that run, and is switched to.
pub proof fn law_sending(core: Core, frame: Frame, reply: Reply)
    requires
        frame.stage is Sending,
        core.states.contains_key(frame.worker_id),
    ensures
        ({
            let (after, calls, progress) = on_reply(core, seq![frame], reply);
            let worker_id = frame.worker_id;
            let running = core.queues.running;
            if reply.ret != 0 {
                &&& after == core
                &&& calls.len() == 0
                &&& progress == Progress::Finished(Ok(()))
            } else if running.held.len() >= running.room {
                &&& after.states == core.states.insert(worker_id, WorkerStatus::Waiting)
                &&& after.queues.pending == (Bounded {
                    held: joined(core.queues.pending.held, core.queues.pending.room, worker_id),
                    room: core.queues.pending.room,
                })
                &&& after.queues.running == running
                &&& after.queues.preempted == core.queues.preempted
                &&& after.failures == core.failures
                &&& calls.len() == 0
                &&& progress == Progress::Finished(Ok(()))
            } else {
                &&& after.states == core.states.insert(worker_id, WorkerStatus::Running)
                &&& after.queues.pending == core.queues.pending
                &&& after.queues.running == (Bounded {
                    held: running.held.push(worker_id),
                    room: running.room,
                })
                &&& after.queues.preempted == core.queues.preempted
                &&& after.failures == core.failures
                &&& calls == seq![Frame { stage: Stage::Switching, ..frame }]
                &&& progress == Progress::Needs(Request::Switch { tid: tid_of(worker_id) })
            }
        }),
{
    let empty = Seq::<Frame>::empty();
    let switching = Frame { stage: Stage::Switching, ..frame };
    assert(seq![frame].drop_last() =~= empty);
    assert(empty.push(switching) =~= seq![switching]);
}

/// A ready worker at the head of the line, for which a task is there, that is sent the task and
/// switched to without an event: it runs, behind those that run, and it and the task have left
/// their queues.
pub proof fn law_scheduled_worker_runs(
    core: Core,
    channels: Set<u64>,
    tasks: Bounded,
    sent: Reply,
    switched: Reply,
)
    requires
        core.queues.pending.held.len() > 0,
        core.states.contains_key(core.queues.pending.held[0]),
        core.states[core.queues.pending.held[0]] == WorkerStatus::Waiting,
        channels.contains(core.queues.pending.held[0]),
        tasks.held.len() > 0,
        core.queues.running.held.len() < core.queues.running.room,
        sent.ret == 0,
        switched.ret == 0,
        switched.first == 0,
    ensures
        ({
            let worker_id = core.queues.pending.held[0];
            let (begun, rest, step) = begin(core, channels, tasks);
            let asked = carry_on((begun, step), Seq::empty());
            let out = on_reply(asked.0, asked.1, sent);
            let (after, calls, progress) = on_reply(out.0, out.1, switched);
            &&& asked.2 == Progress::Needs(Request::Send { worker_id, task: tasks.held[0] })
            &&& rest == (Bounded { held: tasks.held.drop_first(), room: tasks.room })
            &&& out.2 == Progress::Needs(Request::Switch { tid: tid_of(worker_id) })
            &&& after == (Core {
                states: core.states.insert(worker_id, WorkerStatus::Running),
                queues: QueuesView {
                    pending: Bounded {
                        held: core.queues.pending.held.drop_first(),
                        room: core.queues.pending.room,
                    },
                    running: Bounded {
                        held: core.queues.running.held.push(worker_id),
                        room: core.queues.running.room,
                    },
                    preempted: core.queues.preempted,
                },
                failures: core.failures,
            })
            &&& calls.len() == 0
            &&& progress == Progress::Finished(Ok(()))
        }),
{
    let worker_id = core.queues.pending.held[0];
    let (begun, rest, step) = begin(core, channels, tasks);
    let asked = carry_on((begun, step), Seq::empty());
    let frame = Frame {
        worker_id,
        caller: Caller::Scheduling,
        stage: Stage::Sending { task: tasks.held[0] },
    };
    assert(asked.1 =~= seq![frame]);
    law_sending(begun, frame, sent);
    let out = on_reply(asked.0, asked.1, sent);
    law_quiet_switch_changes_nothing(
        out.0,
        Frame { stage: Stage::Switching, ..frame },
        switched,
    );
}

/// A worker that was sent a task and whose switch fails, or reports an event that is refused, is
/// ready again at the end of the line; those that run are as they were before it was put behind
/// them; the error is noted; and nobody hears of it.
pub proof fn law_bad_switch_undoes_the_sending(core: Core, frame: Frame, sent: Reply, reply: Reply)
    requires
        frame.stage is Sending,
        frame.caller is Scheduling,
        core.states.contains_key(frame.worker_id),
        core.queues.running.held.len() < core.queues.running.room,
        sent.ret == 0,
        reply.ret != 0 || (reply.first != 0 && !(1 <= kind_of(reply.first) <= 3)),
    ensures
        ({
            let worker_id = frame.worker_id;
            let error = if reply.ret != 0 {
                ServerError::ContextSwitchFailed {
                    worker_id,
                    ret_code: reply.ret,
                    errno: reply.errno,
                }
            } else {
                ServerError::InvalidWorkerEvent {
                    worker_id: worker_of(reply.first) as usize,
                    event: reply.first,
                }
            };
            let out = on_reply(core, seq![frame], sent);
            on_reply(out.0, out.1, reply) == (
                Core {
                    states: core.states.insert(worker_id, WorkerStatus::Waiting),
                    queues: QueuesView {
                        pending: Bounded {
                            held: joined(
                                core.queues.pending.held,
                                core.queues.pending.room,
                                worker_id,
                            ),
                            room: core.queues.pending.room,
                        },
                        running: core.queues.running,
                        preempted: core.queues.preempted,
                    },
                    failures: core.failures.push(error),
                },
                Seq::<Frame>::empty(),
                Progress::Finished(Ok(())),
            )
        }),
{
    let worker_id = frame.worker_id;
    law_sending(core, frame, sent);
    law_taken_back_is_undone(core.queues.running, worker_id);
    let empty = Seq::<Frame>::empty();
    let out = on_reply(core, seq![frame], sent);
    let switching = Frame { stage: Stage::Switching, ..frame };
    let reported = Frame {
        stage: Stage::Draining { first: reply.first, second: reply.second },
        ..frame
    };
    let left = Frame { stage: Stage::Draining { first: reply.second, second: 0 }, ..frame };
    assert(seq![switching].drop_last() =~= empty);
    assert(empty.push(reported).drop_last() =~= empty);
    assert(empty.push(left).drop_last() =~= empty);
    reveal_with_fuel(settle, 4);
    assert(out.0.states.insert(worker_id, WorkerStatus::Waiting) =~= core.states.insert(
        worker_id,
        WorkerStatus::Waiting,
    ));
}

/// When an attempt to schedule asks for a task to be sent, and what it does if not: with nobody in
/// line nothing changes; a worker that is not this server's or not ready, or for which there is no
/// task, goes to the end of the line; a task for a worker that cannot be sent one is lost and so
/// is the worker's place in the line. No status changes in any of these cases.
pub proof fn law_scheduling_begins(core: Core, channels: Set<u64>, tasks: Bounded)
    ensures
        ({
            let line = core.queues.pending.held;
            let (after, rest, step) = begin(core, channels, tasks);
            let ready = line.len() > 0 && core.states.contains_key(line[0]) && core.states[line[0]]
                == WorkerStatus::Waiting;
            &&& after.states == core.states
            &&& after.failures == core.failures
            &&& after.queues.running == core.queues.running
            &&& after.queues.preempted == core.queues.preempted
            &&& after.queues.pending.room == core.queues.pending.room
            &&& step is Call <==> ready && tasks.held.len() > 0 && channels.contains(line[0])
            &&& step is Return ==> step == Move::Return(Ok(()))
            &&& step is Call ==> step == Move::Call(
                Frame {
                    worker_id: line[0],
                    caller: Caller::Scheduling,
                    stage: Stage::Sending { task: tasks.held[0] },
                },
            )
            &&& rest.room == tasks.room
            &&& rest.held == (if ready && tasks.held.len() > 0 {
                tasks.held.drop_first()
            } else {
                tasks.held
            })
            &&& line.len() == 0 ==> after.queues.pending.held == line
            &&& line.len() > 0 && ready && tasks.held.len() > 0 ==> after.queues.pending.held
                == line.drop_first()
            &&& line.len() > 0 && !(ready && tasks.held.len() > 0) ==> after.queues.pending.held
                == joined(line.drop_first(), core.queues.pending.room, line[0])
        }),
{
}

/// An event that is taken in and is about another worker than `worker_id`, or none.
pub open spec fn not_about(event: u64, worker_id: u64) -> bool {
    event == 0 || (1 <= kind_of(event) <= 3 && worker_of(event) != worker_id)
}

/// The events that these switches have left are not about the worker `worker_id`.
pub open spec fn left_not_about(calls: Seq<Frame>, worker_id: u64) -> bool {
    forall|i: int| #![trigger calls[i]]
        0 <= i < calls.len() ==> match calls[i].stage {
            Stage::Draining { first, second } => not_about(first, worker_id) && not_about(
                second,
                worker_id,
            ),
            _ => true,
        }
}

proof fn lemma_left_below(calls: Seq<Frame>, worker_id: u64)
    requires
        calls.len() > 0,
        left_not_about(calls, worker_id),
    ensures
        left_not_about(calls.drop_last(), worker_id),
{
    let below = calls.drop_last();
    assert forall|i: int| #![trigger below[i]] 0 <= i < below.len() implies match below[i].stage {
        Stage::Draining { first, second } => not_about(first, worker_id) && not_about(
            second,
            worker_id,
        ),
        _ => true,
    } by {
        assert(below[i] == calls[i]);
    }
}

proof fn lemma_settle_leaves_others(core: Core, calls: Seq<Frame>, worker_id: u64)
    requires
        core.states.contains_key(worker_id),
        left_not_about(calls, worker_id),
    ensures
        ({
            let after = settle(core, calls, Ok(()));
            &&& after.0.states.contains_key(worker_id)
            &&& after.0.states[worker_id] == core.states[worker_id]
            &&& after.0.failures == core.failures
            &&& left_not_about(after.1, worker_id)
            &&& after.2 is Needs && all_draining(calls) ==> stack_ok(after.1) && after.1.len() > 0
                && after.1.last().stage is Switching
            &&& after.2 !is Needs ==> after.2 == Progress::Finished(Ok(()))
        }),
    decreases weight(calls),
{
    if calls.len() > 0 {
        let top = calls.last();
        let below = calls.drop_last();
        lemma_left_below(calls, worker_id);
        if let Stage::Draining { first, second } = top.stage {
            assert(calls[calls.len() - 1] == top);
            if first == 0 {
                lemma_settle_leaves_others(core, below, worker_id);
            } else {
                let left = Frame { stage: Stage::Draining { first: second, second: 0 }, ..top };
                let rest = below.push(left);
                assert(rest.drop_last() =~= below);
                assert(left_not_about(rest, worker_id));
                if let (core2, Move::Return(outcome)) = on_event(core, first) {
                    lemma_settle_leaves_others(core2, rest, worker_id);
                }
            }
        }
    }
}

/// As long as switches succeed, no status changes but as events say that are about the worker:
/// neither being switched to nor the end of a switch does. Whatever a switch reports, a worker that
/// none of the reported events is about, nor one of those that were left, has the status it had;
/// no error is noted, and an operation that ends then ends without one.
pub proof fn law_success_changes_only_as_reported(
    core: Core,
    calls: Seq<Frame>,
    reply: Reply,
    worker_id: u64,
)
    requires
        calls.len() > 0,
        stack_ok(calls),
        calls.last().stage is Switching,
        core.states.contains_key(worker_id),
        reply.ret == 0,
        not_about(reply.first, worker_id),
        not_about(reply.second, worker_id),
        left_not_about(calls, worker_id),
    ensures
        ({
            let (after, left, progress) = on_reply(core, calls, reply);
            &&& after.states.contains_key(worker_id)
            &&& after.states[worker_id] == core.states[worker_id]
            &&& after.failures == core.failures
            &&& left_not_about(left, worker_id)
            &&& progress is Needs ==> stack_ok(left) && left.len() > 0 && left.last().stage
                is Switching
            &&& progress !is Needs ==> progress == Progress::Finished(Ok(()))
        }),
{
    let top = calls.last();
    let below = calls.drop_last();
    let draining = Frame {
        stage: Stage::Draining { first: reply.first, second: reply.second },
        ..top
    };
    lemma_left_below(calls, worker_id);
    assert(left_not_about(below.push(draining), worker_id));
    lemma_settle_leaves_others(core, below.push(draining), worker_id);
}

/// An event that is about another worker than `worker_id`, or none, of whatever kind.
pub open spec fn about_another(event: u64, worker_id: u64) -> bool {
    event == 0 || worker_of(event) != worker_id
}

/// These switches are to other workers than `worker_id`, and so are the events they have left.
pub open spec fn only_others(calls: Seq<Frame>, worker_id: u64) -> bool {
    forall|i: int| #![trigger calls[i]]
        0 <= i < calls.len() ==> calls[i].worker_id != worker_id && match calls[i].stage {
            Stage::Draining { first, second } => about_another(first, worker_id) && about_another(
                second,
                worker_id,
            ),
            _ => true,
        }
}

proof fn lemma_others_below(calls: Seq<Frame>, worker_id: u64)
    requires
        calls.len() > 0,
        only_others(calls, worker_id),
    ensures
        only_others(calls.drop_last(), worker_id),
{
    let below = calls.drop_last();
    assert forall|i: int| #![trigger below[i]] 0 <= i < below.len() implies below[i].worker_id
        != worker_id && match below[i].stage {
        Stage::Draining { first, second } => about_another(first, worker_id) && about_another(
            second,
            worker_id,
        ),
        _ => true,
    } by {
        assert(below[i] == calls[i]);
    }
}

proof fn lemma_settle_never_touches_others(
    core: Core,
    calls: Seq<Frame>,
    outcome: Result<(), ServerError>,
    worker_id: u64,
)
    requires
        core.states.contains_key(worker_id),
        only_others(calls, worker_id),
    ensures
        ({
            let after = settle(core, calls, outcome);
            &&& after.0.states.contains_key(worker_id)
            &&& after.0.states[worker_id] == core.states[worker_id]
            &&& only_others(after.1, worker_id)
        }),
    decreases weight(calls),
{
    if calls.len() > 0 {
        let top = calls.last();
        let below = calls.drop_last();
        assert(calls[calls.len() - 1] == top);
        lemma_others_below(calls, worker_id);
        if let Stage::Draining { first, second } = top.stage {
            if outcome is Err || first == 0 {
                let ended = after_switch(core, top, outcome);
                lemma_settle_never_touches_others(ended, below, Ok(()), worker_id);
            } else {
                let left = Frame { stage: Stage::Draining { first: second, second: 0 }, ..top };
                let rest = below.push(left);
                assert(rest.drop_last() =~= below);
                assert(only_others(rest, worker_id));
                if let (core2, Move::Return(outcome2)) = on_event(core, first) {
                    lemma_settle_never_touches_others(core2, rest, outcome2, worker_id);
                }
            }
        }
    }
}

/// However a switch fares, a worker has the status it had that no switch of the operation is to and
/// no event is about.
pub proof fn law_bystanders_are_untouched(
    core: Core,
    calls: Seq<Frame>,
    reply: Reply,
    worker_id: u64,
)
    requires
        calls.len() > 0,
        stack_ok(calls),
        calls.last().stage is Switching,
        core.states.contains_key(worker_id),
        about_another(reply.first, worker_id),
        about_another(reply.second, worker_id),
        only_others(calls, worker_id),
    ensures
        ({
            let (after, left, progress) = on_reply(core, calls, reply);
            &&& after.states.contains_key(worker_id)
            &&& after.states[worker_id] == core.states[worker_id]
            &&& only_others(left, worker_id)
        }),
{
    let top = calls.last();
    let below = calls.drop_last();
    assert(calls[calls.len() - 1] == top);
    let draining = Frame {
        stage: Stage::Draining { first: reply.first, second: reply.second },
        ..top
    };
    lemma_others_below(calls, worker_id);
    assert(only_others(below.push(draining), worker_id));
    lemma_settle_never_touches_others(core, below.push(draining), Ok(()), worker_id);
    let failed = Err::<(), ServerError>(
        ServerError::ContextSwitchFailed {
            worker_id: top.worker_id,
            ret_code: reply.ret,
            errno: reply.errno,
        },
    );
    lemma_settle_never_touches_others(
        after_switch(core, top, failed),
        below,
        Ok(()),
        worker_id,
    );
}

/// What an operation has come to after these replies, if nothing else happens in between. A reply
/// to an operation that is over changes nothing.
pub open spec fn replied(begun: (Core, Seq<Frame>, Progress), replies: Seq<Reply>) -> (
    Core,
    Seq<Frame>,
    Progress,
)
    decreases replies.len(),
{
    if replies.len() == 0 {
        begun
    } else {
        let before = replied(begun, replies.drop_last());
        if before.2 is Needs {
            on_reply(before.0, before.1, replies.last())
        } else {
            before
        }
    }
}

/// The handling of an event, however many switches it needs, leaves a worker's status as it was, if
/// all of its switches succeed and neither the event nor any that they report is about that worker;
/// it notes no error and never ends with one.
pub proof fn law_event_with_success_changes_only_as_reported(
    core: Core,
    event: u64,
    replies: Seq<Reply>,
    worker_id: u64,
)
    requires
        core.states.contains_key(worker_id),
        event != 0,
        not_about(event, worker_id),
        forall|i: int| #![trigger replies[i]]
            0 <= i < replies.len() ==> {
                &&& replies[i].ret == 0
                &&& not_about(replies[i].first, worker_id)
                &&& not_about(replies[i].second, worker_id)
            },
    ensures
        ({
            let begun = carry_on(on_event(core, event), Seq::empty());
            let (after, left, progress) = replied(begun, replies);
            &&& after.states.contains_key(worker_id)
            &&& after.states[worker_id] == core.states[worker_id]
            &&& after.failures == core.failures
            &&& left_not_about(left, worker_id)
            &&& progress is Needs ==> stack_ok(left) && left.len() > 0 && left.last().stage
                is Switching
            &&& progress !is Needs ==> progress == Progress::Finished(Ok(()))
        }),
    decreases replies.len(),
{
    let begun = carry_on(on_event(core, event), Seq::empty());
    if replies.len() == 0 {
        if let (core2, Move::Return(outcome)) = on_event(core, event) {
            lemma_settle_leaves_others(core2, Seq::empty(), worker_id);
        } else {
            assert(begun.1.drop_last() =~= Seq::<Frame>::empty());
        }
    } else {
        let fewer = replies.drop_last();
        assert forall|i: int| #![trigger fewer[i]] 0 <= i < fewer.len() implies {
            &&& fewer[i].ret == 0
            &&& not_about(fewer[i].first, worker_id)
            &&& not_about(fewer[i].second, worker_id)
        } by {
            assert(fewer[i] == replies[i]);
        }
        law_event_with_success_changes_only_as_reported(core, event, fewer, worker_id);
        let before = replied(begun, fewer);
        assert(replies[replies.len() - 1] == replies.last());
        if before.2 is Needs {
            law_success_changes_only_as_reported(before.0, before.1, replies.last(), worker_id);
        }
    }
}

} // verus!
