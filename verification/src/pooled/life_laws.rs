//! What a server does in its life, and when.

use crate::error::ServerError;
use crate::pooled::pool::Worker;
use crate::pooled::run::{run_step, Job, JobReply, Phase};
use crate::pooled::server::{
    carry_on, on_event, on_reply, scheduled, Progress, Reply, Server,
};
use crate::pooled::staff::Moment;
use crate::pooled::switch_laws::law_scheduling;
use crate::status::WorkerStatus;
use crate::umcg::{kind_of, UmcgCall, UmcgCmd};
use crate::wait::timed_out_errno;
use vstd::prelude::*;

verus! {

/// How a server goes through the events that a wait reported. It begins with the first one, whether
/// or not the wait ran into its time limit. It is back at the head of its loop exactly if no event
/// is left: it has handled all six, or comes to a zero. Otherwise it handles the very event that it
/// has come to; it stays with that event until the handling and the scheduling after it are
/// over, and then comes to the next one.
pub proof fn law_events_one_by_one(m: Moment)
    requires
        run_step(m.phase, &m.before, m.reply, m.now, m.epoch, m.next, &m.after, m.job),
        m.phase matches Phase::AfterEvent { index, .. } ==> index < 6,
        m.phase matches Phase::SchedulingAfter { index, .. } ==> index < 6,
    ensures
        m.phase is Waiting && m.next !is Over ==> m.next == (Phase::BeforeEvent {
            events: m.reply.events,
            index: 0,
        }),
        m.phase matches Phase::BeforeEvent { events, index } ==> {
            let handled = carry_on(
                on_event(m.before@.core, events[index as int], m.epoch),
                Seq::empty(),
                m.epoch,
            );
            &&& m.next is AtHead <==> index >= 6 || events[index as int] == 0
            &&& m.next is AtHead ==> m.after == m.before && m.job is Proceed
            &&& m.next !is AtHead ==> {
                &&& m.after@.core == handled.0
                &&& m.after@.calls == handled.1
                &&& match handled.2 {
                    Progress::Needs(request) => {
                        &&& m.next == (Phase::InEvent { events, index })
                        &&& m.job == Job::Serve(request)
                    },
                    Progress::Finished(result) => {
                        &&& m.next == (Phase::AfterEvent { events, index })
                        &&& m.job is Report <==> result is Err
                        &&& m.job is Proceed <==> result is Ok
                        &&& result matches Err(error) ==> m.job == Job::Report(error)
                    },
                }
            }
        },
        m.phase matches Phase::InEvent { events, index } ==> {
            let resumed = on_reply(
                m.before@.core,
                m.before@.calls,
                Reply {
                    ret: m.reply.ret,
                    errno: m.reply.errno,
                    first: m.reply.events[0],
                    second: m.reply.events[1],
                },
                m.epoch,
            );
            &&& m.after@.core == resumed.0
            &&& m.after@.calls == resumed.1
            &&& match resumed.2 {
                Progress::Needs(request) => {
                    &&& m.next == (Phase::InEvent { events, index })
                    &&& m.job == Job::Serve(request)
                },
                Progress::Finished(result) => {
                    &&& m.next == (Phase::AfterEvent { events, index })
                    &&& m.job is Report <==> result is Err
                    &&& m.job is Proceed <==> result is Ok
                    &&& result matches Err(error) ==> m.job == Job::Report(error)
                },
            }
        },
        m.phase matches Phase::AfterEvent { events, index } ==> {
            ||| m.next == (Phase::SchedulingAfter { events, index }) && m.job is Serve
            ||| m.next == (Phase::BeforeEvent { events, index: (index + 1) as usize })
                && m.job is Proceed
            ||| m.next is Over
        },
        m.phase matches Phase::SchedulingAfter { events, index } ==> {
            ||| m.next == (Phase::SchedulingAfter { events, index }) && m.job is Serve
            ||| m.next == (Phase::BeforeEvent { events, index: (index + 1) as usize })
                && m.job is Proceed
            ||| m.next is Over
        },
        m.next is BeforeEvent ==> m.phase is Waiting || m.phase is AfterEvent
            || m.phase is SchedulingAfter,
        m.next is InEvent ==> m.phase is BeforeEvent || m.phase is InEvent,
        m.next is AfterEvent ==> m.phase is BeforeEvent || m.phase is InEvent,
        m.next is SchedulingAfter ==> m.phase is AfterEvent || m.phase is SchedulingAfter,
{
}

/// A round of a server's loop, from the return of a wait that reported `events` until the server is
/// at the head of the loop again: each step follows from the one before. In between the driver may
/// hand in tasks.
pub open spec fn is_round(moments: Seq<Moment>, events: [u64; 6]) -> bool {
    &&& moments.len() > 0
    &&& moments[0].phase is Waiting
    &&& moments[0].next !is Over
    &&& moments[0].reply.events == events
    &&& forall|i: int|
        0 <= i < moments.len() ==> {
            let m = #[trigger] moments[i];
            &&& run_step(m.phase, &m.before, m.reply, m.now, m.epoch, m.next, &m.after, m.job)
            &&& i > 0 ==> m.phase == moments[i - 1].next
            &&& i + 1 < moments.len() ==> m.next !is AtHead
        }
}

/// The events whose handling begins in one of these steps, in order.
pub open spec fn events_begun(moments: Seq<Moment>) -> Seq<u64>
    decreases moments.len(),
{
    if moments.len() == 0 {
        Seq::empty()
    } else {
        let earlier = events_begun(moments.drop_last());
        let m = moments.last();
        match m.phase {
            Phase::BeforeEvent { events, index } if m.next !is AtHead => earlier.push(
                events[index as int],
            ),
            _ => earlier,
        }
    }
}

/// In a round exactly the events before the first zero, or all six, are handled, each of them once
/// and in the order in which they were reported.
pub proof fn law_round_handles_each_event_once(moments: Seq<Moment>, events: [u64; 6])
    requires
        is_round(moments, events),
        moments.last().next is AtHead,
    ensures
        ({
            let begun = events_begun(moments);
            &&& begun.len() <= 6
            &&& begun.len() == 6 || events[begun.len() as int] == 0
            &&& forall|i: int|
                0 <= i < begun.len() ==> #[trigger] begun[i] == events[i] && events[i] != 0
        }),
{
    lemma_round_so_far(moments, events, moments.len() as int);
    assert(moments.take(moments.len() as int) =~= moments);
}

proof fn lemma_round_so_far(moments: Seq<Moment>, events: [u64; 6], n: int)
    requires
        is_round(moments, events),
        1 <= n <= moments.len(),
        moments[n - 1].next !is Over,
    ensures
        ({
            let begun = events_begun(moments.take(n));
            &&& begun.len() <= 6
            &&& forall|i: int|
                0 <= i < begun.len() ==> #[trigger] begun[i] == events[i] && events[i] != 0
            &&& match moments[n - 1].next {
                Phase::BeforeEvent { events: e, index } => e == events && begun.len() == index,
                Phase::InEvent { events: e, index } => e == events && begun.len() == index + 1,
                Phase::AfterEvent { events: e, index } => e == events && begun.len() == index + 1,
                Phase::SchedulingAfter { events: e, index } => e == events && begun.len() == index
                    + 1,
                Phase::AtHead => begun.len() == 6 || events[begun.len() as int] == 0,
                _ => false,
            }
        }),
    decreases n,
{
    let m = moments[n - 1];
    let so_far = moments.take(n);
    assert(so_far.last() == m);
    assert(so_far.drop_last() =~= moments.take(n - 1));
    if n == 1 {
        assert(moments.take(0) =~= Seq::<Moment>::empty());
        assert(events_begun(moments.take(0)) =~= Seq::<u64>::empty());
        law_events_one_by_one(m);
    } else {
        let last = moments[n - 2];
        assert(m.phase == last.next);
        assert(last.next !is Over) by {
            if last.next is Over {
                assert(m.next is Over);
            }
        }
        lemma_round_so_far(moments, events, n - 1);
        law_events_one_by_one(m);
    }
}

/// What a server does, and on which replies it does it.
pub proof fn law_jobs(
    phase: Phase,
    before: &Server,
    reply: JobReply,
    now: u64,
    epoch: u64,
    next: Phase,
    after: &Server,
    job: Job,
)
    requires
        run_step(phase, before, reply, now, epoch, next, after, job),
        before.id * before.worker_pool.total_workers + before.worker_pool.total_workers
            <= usize::MAX + 1,
        epoch + 100_000_000 <= u64::MAX,
    ensures
        job is SetAffinity <==> phase is Fresh,
        job matches Job::SetAffinity { cpu_id } ==> cpu_id == before.cpu_id,
        job == Job::Call(
            UmcgCall {
                flags: 0,
                cmd: UmcgCmd::RegisterServer,
                next_tid: 0,
                abs_timeout: 0,
                event_sz: 0,
            },
        ) <==> phase is SettingAffinity && reply.ret == 0,
        job == Job::Call(
            UmcgCall {
                flags: 0,
                cmd: UmcgCmd::Unregister,
                next_tid: 0,
                abs_timeout: 0,
                event_sz: 0,
            },
        ) <==> phase is StoppingWorkers,
        job is Call ==> phase is SettingAffinity || phase is StoppingWorkers,
        job is StartWorker <==> reply.ret == 0 && match phase {
            Phase::Registering => before.worker_pool.total_workers > 0,
            Phase::AwaitingWorker { index, .. } => kind_of(reply.events[0]) == 2 && index + 1
                < before.worker_pool.total_workers,
            _ => false,
        },
        job is AwaitWorker <==> match phase {
            Phase::StartingWorker { .. } => true,
            Phase::AwaitingWorker { since, .. } => reply.ret == 0 && kind_of(reply.events[0]) != 2
                && now - since <= 5_000_000_000,
            _ => false,
        },
        job is StopWorkers <==> phase is AtHead && before@.done,
        job matches Job::StopWorkers(tids) ==> {
            &&& forall|tid: i32| tids@.contains(tid) <==> before@.core.pool.contains_key(tid)
            &&& forall|i: int, j: int|
                0 <= i < j < tids@.len() ==> #[trigger] tids@[i] != #[trigger] tids@[j]
        },
        job is WaitForEvents ==> phase is SchedulingFirst || phase is AtHead && !before@.done,
        job matches Job::WaitForEvents(call) ==> call == (UmcgCall {
            flags: 0,
            cmd: UmcgCmd::Wait,
            next_tid: 0,
            abs_timeout: (epoch + 100_000_000) as u64,
            event_sz: 6,
        }),
        job is Report ==> phase is BeforeEvent || phase is InEvent,
        job == Job::Finish(Ok(())) <==> phase is Unregistering || phase is Over,
        phase is SettingAffinity && reply.ret != 0 ==> job == Job::Finish(
            Err(ServerError::SystemError(reply.errno)),
        ),
        phase is Registering && reply.ret != 0 ==> job == Job::Finish(
            Err(ServerError::RegistrationFailed(reply.ret)),
        ),
        phase matches Phase::AwaitingWorker { worker_id, since, .. } ==> {
            &&& reply.ret != 0 ==> job == Job::Finish(
                Err(ServerError::WorkerRegistrationFailed { worker_id, error: reply.ret }),
            )
            &&& reply.ret == 0 && kind_of(reply.events[0]) != 2 && now - since > 5_000_000_000
                ==> job == Job::Finish(Err(ServerError::WorkerRegistrationTimeout { worker_id }))
            &&& reply.ret == 0 && (kind_of(reply.events[0]) == 2 || now - since <= 5_000_000_000)
                ==> job !is Finish
        },
        phase is Waiting ==> (job is Finish <==> reply.ret != 0 && reply.errno
            != timed_out_errno()),
        phase is Waiting && job is Finish ==> job == Job::Finish(
            Err(ServerError::SystemError(reply.errno)),
        ),
{
    if let Job::StopWorkers(tids) = job {
        assert forall|tid: i32| tids@.contains(tid) <==> before@.core.pool.contains_key(tid) by {
            assert(tids@.to_set().contains(tid) <==> tids@.contains(tid));
            assert(before@.core.pool.dom().contains(tid) <==> before@.core.pool.contains_key(tid));
        }
    }
}

/// Where a server is once it has asked for a job, so that the reply to that job is taken for what
/// it is.
pub proof fn law_phase_follows_job(
    phase: Phase,
    before: &Server,
    reply: JobReply,
    now: u64,
    epoch: u64,
    next: Phase,
    after: &Server,
    job: Job,
)
    requires
        run_step(phase, before, reply, now, epoch, next, after, job),
        before.id * before.worker_pool.total_workers + before.worker_pool.total_workers
            <= usize::MAX + 1,
    ensures
        job is SetAffinity <==> next is SettingAffinity,
        next is Registering <==> job is Call && phase is SettingAffinity,
        next is Unregistering <==> job is Call && phase is StoppingWorkers,
        job is StartWorker <==> next is StartingWorker,
        job matches Job::StartWorker { worker_id, server_id, cpu_id } ==> {
            &&& next matches Phase::StartingWorker { index } && index
                < before.worker_pool.total_workers && worker_id == before.id
                * before.worker_pool.total_workers + index
            &&& server_id == before.id
            &&& cpu_id == before.cpu_id
        },
        next matches Phase::StartingWorker { index } ==> match phase {
            Phase::Registering => index == 0,
            Phase::AwaitingWorker { index: done, .. } => index == done + 1,
            _ => false,
        },
        job is AwaitWorker <==> next is AwaitingWorker,
        phase is AwaitingWorker && next is AwaitingWorker ==> next == phase,
        next is AwaitingWorker ==> phase is AwaitingWorker || phase is StartingWorker,
        phase matches Phase::StartingWorker { index } ==> next == (Phase::AwaitingWorker {
            index,
            worker_id: (before.id * before.worker_pool.total_workers + index) as usize,
            tid: reply.ret,
            since: now,
        }),
        job is WaitForEvents <==> next is Waiting,
        job is StopWorkers <==> next is StoppingWorkers,
        job is Finish <==> next is Over,
        job is Serve <==> next is SchedulingFirst || next is InEvent || next is SchedulingAfter,
        next is SchedulingFirst ==> phase is AtHead || phase is SchedulingFirst,
{
    let total = before.worker_pool.total_workers;
    assert forall|i: int| 0 <= i < total implies #[trigger] (before.id * total + i) as usize
        == before.id * total + i by {
        assert(0 <= before.id * total) by (nonlinear_arith);
    }
}

/// What becomes of the workers while they are started: the one that was started is registering,
/// with the number that its place gives it and without a task, and the one that reported is ready.
/// Nobody else is touched, and a step that neither takes one in nor hears of one changes nothing.
pub proof fn law_workers_are_taken_in(
    phase: Phase,
    before: &Server,
    reply: JobReply,
    now: u64,
    epoch: u64,
    next: Phase,
    after: &Server,
    job: Job,
)
    requires
        run_step(phase, before, reply, now, epoch, next, after, job),
    ensures
        phase matches Phase::StartingWorker { index } ==> {
            &&& after@.core.pool == before@.core.pool.insert(
                reply.ret,
                Worker {
                    id: (before.id * before.worker_pool.total_workers + index) as usize,
                    tid: reply.ret,
                    status: WorkerStatus::Registering,
                    current_task: None,
                    server_id: before.id,
                },
            )
            &&& after@.core.queue == before@.core.queue
            &&& after@.calls == before@.calls
        },
        phase matches Phase::AwaitingWorker { tid, .. } ==> {
            &&& reply.ret == 0 && kind_of(reply.events[0]) == 2 && before@.core.pool.contains_key(
                tid,
            ) ==> after@.core.pool == before@.core.pool.insert(
                tid,
                Worker {
                    status: WorkerStatus::Waiting,
                    current_task: None,
                    ..before@.core.pool[tid]
                },
            )
            &&& reply.ret != 0 || kind_of(reply.events[0]) != 2 ==> after == before
            &&& after@.core.queue == before@.core.queue
            &&& after@.calls == before@.calls
        },
        phase is Fresh || phase is SettingAffinity || phase is Registering || phase is Waiting
            || phase is StoppingWorkers || phase is Unregistering || phase is Over ==> after
            == before,
        after@.done == before@.done,
        after.id == before.id,
        after.cpu_id == before.cpu_id,
{
}

/// A server never waits for events, nor goes on to the next one, while a worker is ready and a task
/// is there: it first hands the task out. If there is no such pair it goes on at once, with
/// nothing changed.
pub proof fn law_work_is_handed_out_first(
    phase: Phase,
    before: &Server,
    reply: JobReply,
    now: u64,
    epoch: u64,
    next: Phase,
    after: &Server,
    job: Job,
)
    requires
        run_step(phase, before, reply, now, epoch, next, after, job),
        before.wf(),
        before@.calls.len() == 0,
        phase is AtHead && !before@.done || phase is AfterEvent,
    ensures
        ({
            let core = before@.core;
            let work = core.queue.pending.len() + core.queue.preempted.len() > 0 && exists|tid: i32|
                #[trigger]
                core.pool.contains_key(tid) && core.pool[tid].status == WorkerStatus::Waiting;
            &&& job is Serve <==> work
            &&& !work && phase is AtHead ==> job is WaitForEvents
            &&& !work && phase is AfterEvent ==> job is Proceed && next is BeforeEvent
            &&& !work ==> after@ == before@
        }),
{
    let progress = choose|progress: Progress| #[trigger]
        scheduled(before, after, progress, epoch) && match progress {
            Progress::Needs(request) => job == Job::Serve(request),
            Progress::Finished(Err(error)) => job == Job::Finish(Err(error)),
            Progress::Finished(Ok(_)) => job is WaitForEvents && phase is AtHead || job is Proceed
                && phase is AfterEvent && next is BeforeEvent,
        };
    law_scheduling(before, after, progress, epoch);
}

/// What the scheduling comes to: its requests are passed on, its failure ends the server's life,
/// and its success leads to the wait or to the next event.
pub proof fn law_scheduling_goes_on(
    phase: Phase,
    before: &Server,
    reply: JobReply,
    now: u64,
    epoch: u64,
    next: Phase,
    after: &Server,
    job: Job,
)
    requires
        run_step(phase, before, reply, now, epoch, next, after, job),
        phase is SchedulingFirst || phase is SchedulingAfter,
    ensures
        ({
            let resumed = on_reply(
                before@.core,
                before@.calls,
                Reply {
                    ret: reply.ret,
                    errno: reply.errno,
                    first: reply.events[0],
                    second: reply.events[1],
                },
                epoch,
            );
            &&& after@.core == resumed.0
            &&& after@.calls == resumed.1
            &&& match resumed.2 {
                Progress::Needs(request) => next == phase && job == Job::Serve(request),
                Progress::Finished(Err(error)) => job == Job::Finish(Err(error)),
                Progress::Finished(Ok(_)) => {
                    &&& phase is SchedulingFirst ==> job is WaitForEvents
                    &&& phase is SchedulingAfter ==> job is Proceed && next is BeforeEvent
                },
            }
        }),
{
}

} // verus!
