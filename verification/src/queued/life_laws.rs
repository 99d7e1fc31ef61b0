//! What a server does in its life, and when.

use crate::queued::queues::Bounded;
use crate::queued::run::{run_step, Job, Phase, ServerRun, World};
use crate::queued::server::{
    begin, carry_on, core_of, on_event, on_reply, Progress, Reply, Request,
};
use crate::queued::switch_laws::joined;
use crate::status::WorkerStatus;
use crate::umcg::{kind_of, tid_of, worker_id_of, UmcgCall, UmcgCmd};
use crate::wait::timed_out_errno;
use vstd::prelude::*;

verus! {

/// One step of a server's life, with what it began from and what it came to.
pub struct Moment {
    pub run: ServerRun,
    pub before: World,
    pub reply: Reply,
    pub next: ServerRun,
    pub after: World,
    pub job: Job,
}

/// How a server goes through the two events that a wait reported. It is back at the head of its
/// loop exactly if no event is left, which is so at the first zero, or if the wait failed otherwise
/// than by its time limit. Otherwise it handles the first event that is left; the other one is left
/// until that is over, and then comes next.
pub proof fn law_events_one_by_one(m: Moment)
    requires
        run_step(m.run, m.before, m.reply, m.next, m.after, m.job),
    ensures
        m.run.phase is Waiting ==> {
            let cut_off = m.reply.ret != 0 && m.reply.errno != timed_out_errno();
            &&& cut_off ==> m.next.phase is AtHead
            &&& !cut_off ==> m.next.phase == (Phase::BeforeEvent {
                first: m.reply.first,
                second: m.reply.second,
            })
            &&& m.after == m.before
            &&& m.job is Proceed
        },
        m.run.phase matches Phase::BeforeEvent { first, second } ==> {
            let handled = carry_on(
                on_event(core_of(&m.before.server, &m.before.queues), first),
                Seq::empty(),
            );
            &&& m.next.phase is AtHead <==> first == 0
            &&& first == 0 ==> m.after == m.before && m.job is Proceed
            &&& first != 0 ==> {
                &&& core_of(&m.after.server, &m.after.queues) == handled.0
                &&& m.after.server.calls@ == handled.1
                &&& match handled.2 {
                    Progress::Needs(request) => {
                        &&& m.next.phase == (Phase::InEvent { left: second })
                        &&& m.job == Job::Serve(request)
                    },
                    Progress::Finished(result) => {
                        &&& m.next.phase == (Phase::BeforeEvent { first: second, second: 0 })
                        &&& m.job is Report <==> result is Err
                        &&& m.job is Proceed <==> result is Ok
                        &&& result matches Err(error) ==> m.job == Job::Report(error)
                    },
                }
            }
        },
        m.run.phase matches Phase::InEvent { left } ==> {
            let resumed = on_reply(
                core_of(&m.before.server, &m.before.queues),
                m.before.server.calls@,
                m.reply,
            );
            &&& core_of(&m.after.server, &m.after.queues) == resumed.0
            &&& m.after.server.calls@ == resumed.1
            &&& match resumed.2 {
                Progress::Needs(request) => {
                    &&& m.next.phase == (Phase::InEvent { left })
                    &&& m.job == Job::Serve(request)
                },
                Progress::Finished(result) => {
                    &&& m.next.phase == (Phase::BeforeEvent { first: left, second: 0 })
                    &&& m.job is Report <==> result is Err
                    &&& m.job is Proceed <==> result is Ok
                    &&& result matches Err(error) ==> m.job == Job::Report(error)
                },
            }
        },
        m.next.phase is BeforeEvent ==> m.run.phase is Waiting || m.run.phase is BeforeEvent
            || m.run.phase is InEvent,
        m.next.phase is InEvent ==> m.run.phase is BeforeEvent || m.run.phase is InEvent,
{
}

/// A round of a server's loop, from the return of a wait that reported `first` and `second` until
/// the server is at the head of the loop again: each step follows from the one before.
pub open spec fn is_round(moments: Seq<Moment>, first: u64, second: u64) -> bool {
    &&& moments.len() > 0
    &&& moments[0].run.phase is Waiting
    &&& moments[0].reply.first == first
    &&& moments[0].reply.second == second
    &&& moments[0].reply.ret == 0 || moments[0].reply.errno == timed_out_errno()
    &&& forall|i: int|
        0 <= i < moments.len() ==> {
            let m = #[trigger] moments[i];
            &&& run_step(m.run, m.before, m.reply, m.next, m.after, m.job)
            &&& i > 0 ==> m.run.phase == moments[i - 1].next.phase
            &&& i + 1 < moments.len() ==> m.next.phase !is AtHead
        }
}

/// The events whose handling begins in one of these steps, in order.
pub open spec fn events_begun(moments: Seq<Moment>) -> Seq<u64>
    decreases moments.len(),
{
    if moments.len() == 0 {
        Seq::empty()
    } else {
        let earlier = events_begun(moments.drop_last());
        let m = moments.last();
        match m.run.phase {
            Phase::BeforeEvent { first, .. } if m.next.phase !is AtHead => earlier.push(first),
            _ => earlier,
        }
    }
}

/// In a round exactly the events before the first zero, or both, are handled, each of them once and
/// in the order in which they were reported.
pub proof fn law_round_handles_each_event_once(moments: Seq<Moment>, first: u64, second: u64)
    requires
        is_round(moments, first, second),
        moments.last().next.phase is AtHead,
    ensures
        first == 0 ==> events_begun(moments).len() == 0,
        first != 0 && second == 0 ==> events_begun(moments) =~= Seq::empty().push(first),
        first != 0 && second != 0 ==> events_begun(moments) =~= Seq::empty().push(first).push(
            second,
        ),
{
    lemma_round_so_far(moments, first, second, moments.len() as int);
    assert(moments.take(moments.len() as int) =~= moments);
}

proof fn lemma_round_so_far(moments: Seq<Moment>, first: u64, second: u64, n: int)
    requires
        is_round(moments, first, second),
        1 <= n <= moments.len(),
    ensures
        ({
            let begun = events_begun(moments.take(n));
            &&& begun.len() <= 2
            &&& begun.len() > 0 ==> begun[0] == first && first != 0
            &&& begun.len() > 1 ==> begun[1] == second && second != 0
            &&& match moments[n - 1].next.phase {
                Phase::BeforeEvent { first: f, second: s } => {
                    ||| begun.len() == 0 && f == first && s == second
                    ||| begun.len() == 1 && f == second && s == 0
                    ||| begun.len() == 2 && f == 0 && s == 0
                },
                Phase::InEvent { left } => {
                    ||| begun.len() == 1 && left == second
                    ||| begun.len() == 2 && left == 0
                },
                Phase::AtHead => {
                    ||| begun.len() == 0 && first == 0
                    ||| begun.len() == 1 && second == 0
                    ||| begun.len() == 2
                },
                _ => false,
            }
        }),
    decreases n,
{
    let m = moments[n - 1];
    let so_far = moments.take(n);
    assert(so_far.last() == m);
    assert(so_far.drop_last() =~= moments.take(n - 1));
    law_events_one_by_one(m);
    if n == 1 {
        assert(moments.take(0) =~= Seq::<Moment>::empty());
        assert(events_begun(moments.take(0)) =~= Seq::<u64>::empty());
    } else {
        let last = moments[n - 2];
        assert(m.run.phase == last.next.phase);
        lemma_round_so_far(moments, first, second, n - 1);
    }
}

/// What a server does, and on which replies it does it.
pub proof fn law_jobs(m: Moment)
    requires
        run_step(m.run, m.before, m.reply, m.next, m.after, m.job),
    ensures
        m.job is SetAffinity <==> m.run.phase is Fresh,
        m.job matches Job::SetAffinity { cpu_id } ==> cpu_id == m.before.server.id,
        m.job is Call <==> m.run.phase is SettingAffinity,
        m.job matches Job::Call(call) ==> call == (UmcgCall {
            flags: 0,
            cmd: UmcgCmd::RegisterServer,
            next_tid: 0,
            abs_timeout: 0,
            event_sz: 0,
        }),
        m.job is Switch <==> m.run.phase is AwaitingWorker && m.reply.ret == 0 && kind_of(
            m.reply.first,
        ) == 2 && !m.run.registered@.contains(worker_id_of(tid_of(m.reply.first))),
        m.job matches Job::Switch { tid } ==> tid == tid_of(m.reply.first),
        m.run.phase is Registering && m.reply.ret != 0 ==> m.job == (Job::Finish {
            refused: Some(m.reply.ret),
        }),
        m.job is AwaitRelease ==> (m.run.phase is Registering || m.run.phase is SwitchingTo)
            && m.reply.ret == 0 && m.next.registered@.len() >= m.before.server.states@.len(),
        m.run.phase is Registering && m.reply.ret == 0 ==> (m.job is AwaitRelease
            <==> m.run.registered@.len() >= m.before.server.states@.len()),
        m.job is AwaitWorker ==> m.run.phase is Registering || m.run.phase is AwaitingWorker
            || m.run.phase is SwitchingTo,
        m.run.phase is AwaitingWorker ==> m.job is AwaitWorker || m.job is Switch,
        m.run.phase is SwitchingTo ==> m.job is AwaitWorker || m.job is AwaitRelease,
        m.run.phase is Holding ==> m.job is Proceed,
        m.run.phase is AtHead && m.before.server.done ==> m.job == (Job::Finish { refused: None }),
        m.run.phase is Over ==> m.job == (Job::Finish { refused: None }),
        m.job is Finish ==> m.run.phase is Over || m.run.phase is AtHead && m.before.server.done
            || m.run.phase is Registering && m.reply.ret != 0,
        m.job is WaitForEvents ==> m.run.phase is Scheduling || m.run.phase is AtHead
            && !m.before.server.done,
        m.job is Report ==> m.run.phase is BeforeEvent || m.run.phase is InEvent,
{
}

/// Where a server is once it has asked for a job, so that the reply to that job is taken for what
/// it is.
pub proof fn law_phase_follows_job(m: Moment)
    requires
        run_step(m.run, m.before, m.reply, m.next, m.after, m.job),
    ensures
        m.job is SetAffinity <==> m.next.phase is SettingAffinity,
        m.job is Call <==> m.next.phase is Registering,
        m.job is AwaitWorker <==> m.next.phase is AwaitingWorker,
        m.job is Switch <==> m.next.phase is SwitchingTo,
        m.job matches Job::Switch { tid } ==> m.next.phase == (Phase::SwitchingTo { tid }),
        m.job is AwaitRelease <==> m.next.phase is Holding,
        m.job is WaitForEvents <==> m.next.phase is Waiting,
        m.job is Serve <==> m.next.phase is Scheduling || m.next.phase is InEvent,
        m.job is Finish <==> m.next.phase is Over,
        m.run.phase is Holding ==> m.next.phase is AtHead,
        m.next.phase is Scheduling ==> m.run.phase is AtHead || m.run.phase is Scheduling,
{
}

/// A worker that was switched to is ready and joins the end of the line, and is counted as brought
/// to where it waits, exactly if the switch succeeded and the worker is known. Nothing else changes
/// anything before the servers are let go.
pub proof fn law_worker_is_taken_in(m: Moment, tid: i32)
    requires
        run_step(m.run, m.before, m.reply, m.next, m.after, m.job),
        m.run.phase == (Phase::SwitchingTo { tid }),
    ensures
        ({
            let id = worker_id_of(tid);
            let server = m.before.server;
            let queues = m.before.queues@;
            if m.reply.ret == 0 && server.states@.contains_key(id) {
                &&& m.after.server.states@ == server.states@.insert(id, WorkerStatus::Waiting)
                &&& m.after.queues@.pending == (Bounded {
                    held: joined(queues.pending.held, queues.pending.room, id),
                    room: queues.pending.room,
                })
                &&& m.after.queues@.running == queues.running
                &&& m.after.queues@.preempted == queues.preempted
                &&& m.after.server.failures@ == server.failures@
                &&& m.after.server.calls@ == server.calls@
                &&& m.next.registered@ == m.run.registered@.insert(id)
                &&& m.job is AwaitRelease <==> m.next.registered@.len() >= server.states@.insert(
                    id,
                    WorkerStatus::Waiting,
                ).len()
            } else {
                &&& m.after == m.before
                &&& m.next.registered@ == m.run.registered@
                &&& m.job is AwaitWorker
            }
        }),
{
}

/// The steps that only wait, register or count change nothing of the server, the workers, the
/// queues and the tasks; and only bringing a worker to where it waits changes who is counted.
pub proof fn law_quiet_steps(m: Moment)
    requires
        run_step(m.run, m.before, m.reply, m.next, m.after, m.job),
    ensures
        m.run.phase is Fresh || m.run.phase is SettingAffinity || m.run.phase is Registering
            || m.run.phase is AwaitingWorker || m.run.phase is Holding || m.run.phase is Waiting
            || m.run.phase is Over ==> m.after == m.before,
        m.run.phase is AtHead && m.before.server.done ==> m.after == m.before,
        m.run.phase !is SwitchingTo ==> m.next.registered@ == m.run.registered@,
        m.run.phase !is AtHead ==> m.after.tasks == m.before.tasks,
        m.after.server.id == m.before.server.id,
        m.after.server.done == m.before.server.done,
        m.after.server.channels@ == m.before.server.channels@,
        m.after.server.metrics == m.before.server.metrics,
{
}

/// At the head of its loop a server that is to go on tries to schedule exactly if there is a task,
/// with the worker at the head of the line, and never waits while such a task is being handed out.
/// Without a task it waits at once, with nothing changed.
pub proof fn law_work_is_handed_out_first(m: Moment)
    requires
        run_step(m.run, m.before, m.reply, m.next, m.after, m.job),
        m.run.phase is AtHead,
        !m.before.server.done,
    ensures
        ({
            let core = core_of(&m.before.server, &m.before.queues);
            let line = core.queues.pending.held;
            let tasks = m.before.tasks@;
            let hands_out = tasks.held.len() > 0 && line.len() > 0 && core.states.contains_key(
                line[0],
            ) && core.states[line[0]] == WorkerStatus::Waiting
                && m.before.server.channels@.contains(line[0]);
            let (begun, rest, step) = begin(core, m.before.server.channels@, tasks);
            &&& tasks.held.len() == 0 ==> m.after == m.before && m.job is WaitForEvents
            &&& tasks.held.len() > 0 ==> {
                &&& core_of(&m.after.server, &m.after.queues) == begun
                &&& m.after.tasks@ == rest
                &&& m.after.server.calls@ == carry_on((begun, step), Seq::empty()).1
            }
            &&& m.job is Serve <==> hands_out
            &&& m.job is WaitForEvents <==> !hands_out
            &&& hands_out ==> m.job == Job::Serve(
                Request::Send { worker_id: line[0], task: tasks.held[0] },
            )
        }),
{
}

/// What the scheduling comes to: its requests are passed on, and once it is over, with or without
/// success, the server waits for events.
pub proof fn law_scheduling_goes_on(m: Moment)
    requires
        run_step(m.run, m.before, m.reply, m.next, m.after, m.job),
        m.run.phase is Scheduling,
    ensures
        ({
            let resumed = on_reply(
                core_of(&m.before.server, &m.before.queues),
                m.before.server.calls@,
                m.reply,
            );
            &&& core_of(&m.after.server, &m.after.queues) == resumed.0
            &&& m.after.server.calls@ == resumed.1
            &&& match resumed.2 {
                Progress::Needs(request) => m.next.phase is Scheduling && m.job == Job::Serve(
                    request,
                ),
                Progress::Finished(_) => m.job is WaitForEvents,
            }
        }),
{
}

} // verus!
