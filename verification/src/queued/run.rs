//! The life of a server that shares its queues: it registers, brings each of its workers to where
//! it waits for a task, and serves events until it is told to stop.
//!
//! [`ServerRun`] decides what comes next; the program that drives it does the work and reports
//! what came of it.

use crate::error::ServerError;
use crate::queued::laws::{law_event_keeps, law_reply_keeps, law_scheduling_keeps};
use crate::queued::queues::{TaskQueue, WorkerQueues};
use crate::queued::server::{
    begin, carry_on, core_of, line_up, on_event, on_reply, same_server, set_status, stack_ok, went,
    Core, Progress, Reply, Request, Server,
};
use crate::status::WorkerStatus;
use crate::umcg::{
    event_kind, event_tid, kind_of, plain_call, tid_of, worker_id, worker_id_of, UmcgCall, UmcgCmd,
};
use crate::wait::{etimedout, timed_out_errno};
use std::collections::HashSet;
use vstd::prelude::*;

verus! {

broadcast use vstd::std_specs::hash::group_hash_axioms;

/// What the driver of a server does next.
#[derive(Debug, Copy, Clone)]
pub enum Job {
    /// Try to bind the server's thread to a processor; it does not matter if that fails.
    SetAffinity { cpu_id: usize },
    /// Make this system call, without room for events.
    Call(UmcgCall),
    /// Wait for any worker's event, again after each interruption. The buffer of two events keeps
    /// what it held.
    AwaitWorker,
    /// Switch to the worker with this thread id; the events that the switch reports are dropped.
    Switch { tid: i32 },
    /// Wait until the servers are let go.
    AwaitRelease,
    /// Do what an operation of the server needs.
    Serve(Request),
    /// Wait for any worker's event, again after each interruption, with an empty buffer of two
    /// events.
    WaitForEvents,
    /// Tell of an error that does not stop the server.
    Report(ServerError),
    /// Nothing; go on.
    Proceed,
    /// The server's life is over. The return value of the registration is given if it failed.
    Finish { refused: Option<i32> },
}

/// How far a server has come in its life.
#[derive(Debug, Copy, Clone, PartialEq, Eq, Structural)]
pub enum Phase {
    /// Nothing was done yet.
    Fresh,
    /// Its thread is being bound to a processor.
    SettingAffinity,
    /// It is registering.
    Registering,
    /// It waits for a worker to report.
    AwaitingWorker,
    /// It switches to a worker that reported.
    SwitchingTo { tid: i32 },
    /// It waits to be let go.
    Holding,
    /// It is about to schedule, if there is a task, and then to wait.
    AtHead,
    /// The scheduling before a wait is under way.
    Scheduling,
    /// It waits for events.
    Waiting,
    /// It is about to handle the first of these events.
    BeforeEvent { first: u64, second: u64 },
    /// The handling of an event is under way; this one is left.
    InEvent { left: u64 },
    /// Its life is over.
    Over,
}

/// The run of a server: how far it has come, and the workers that it has brought to where they
/// wait for a task.
pub struct ServerRun {
    pub phase: Phase,
    pub registered: HashSet<u64>,
}

/// An operation of the server is under way in this phase.
pub open spec fn serving(phase: Phase) -> bool {
    phase is Scheduling || phase is InEvent
}

/// The server waits for its next worker, or to be let go once it has all of them.
pub open spec fn awaits(registered: Set<u64>, server: &Server, next: Phase, job: Job) -> bool {
    if registered.len() < server.states@.len() {
        next is AwaitingWorker && job is AwaitWorker
    } else {
        next is Holding && job is AwaitRelease
    }
}

/// Scheduling with this progress leads on to waiting for events.
pub open spec fn leads_on(progress: Progress, next: Phase, job: Job) -> bool {
    match progress {
        Progress::Needs(request) => next is Scheduling && job == Job::Serve(request),
        Progress::Finished(_) => next is Waiting && job is WaitForEvents,
    }
}

/// The handling of an event with this progress leads on to the event `left`. A failure is told of,
/// and the server goes on.
pub open spec fn event_leads_on(progress: Progress, left: u64, next: Phase, job: Job) -> bool {
    match progress {
        Progress::Needs(request) => next == (Phase::InEvent { left }) && job == Job::Serve(
            request,
        ),
        Progress::Finished(result) => {
            &&& next == (Phase::BeforeEvent { first: left, second: 0 })
            &&& job == match result {
                Err(error) => Job::Report(error),
                Ok(_) => Job::Proceed,
            }
        },
    }
}

/// What a server and the shared queues are.
pub struct World {
    pub server: Server,
    pub queues: WorkerQueues,
    pub tasks: TaskQueue,
}

/// The workers once the worker `tid`, which was switched to, waits for a task: it is ready and
/// lines up.
pub open spec fn arrived(core: Core, tid: i32) -> Core {
    line_up(set_status(core, worker_id_of(tid), WorkerStatus::Waiting), worker_id_of(tid))
}

/// One step of a server's life: from `run`, with the reply to the last job, to `then`, with the
/// next job.
pub open spec fn run_step(
    run: ServerRun,
    before: World,
    reply: Reply,
    then: ServerRun,
    after: World,
    job: Job,
) -> bool {
    let core = core_of(&before.server, &before.queues);
    let calls = before.server.calls@;
    let next = then.phase;
    &&& run.phase !is AtHead ==> after.tasks == before.tasks
    &&& run.phase !is SwitchingTo ==> then.registered@ == run.registered@
    &&& match run.phase {
        Phase::Fresh => {
            &&& after == before
            &&& next is SettingAffinity
            &&& job == (Job::SetAffinity { cpu_id: before.server.id })
        },
        Phase::SettingAffinity => {
            &&& after == before
            &&& next is Registering
            &&& job == Job::Call(plain_call(UmcgCmd::RegisterServer))
        },
        Phase::Registering => {
            &&& after == before
            &&& if reply.ret != 0 {
                next is Over && job == (Job::Finish { refused: Some(reply.ret) })
            } else {
                awaits(run.registered@, &before.server, next, job)
            }
        },
        Phase::AwaitingWorker => {
            let tid = tid_of(reply.first);
            &&& after == before
            &&& if reply.ret == 0 && kind_of(reply.first) == 2 && !run.registered@.contains(
                worker_id_of(tid),
            ) {
                next == (Phase::SwitchingTo { tid }) && job == (Job::Switch { tid })
            } else {
                next is AwaitingWorker && job is AwaitWorker
            }
        },
        Phase::SwitchingTo { tid } => if reply.ret == 0 && core.states.contains_key(
            worker_id_of(tid),
        ) {
            &&& same_server(&before.server, &after.server)
            &&& after.server.calls@ == calls
            &&& core_of(&after.server, &after.queues) == arrived(core, tid)
            &&& then.registered@ == run.registered@.insert(worker_id_of(tid))
            &&& awaits(then.registered@, &after.server, next, job)
        } else {
            &&& after == before
            &&& then.registered@ == run.registered@
            &&& next is AwaitingWorker
            &&& job is AwaitWorker
        },
        Phase::Holding => after == before && next is AtHead && job is Proceed,
        Phase::AtHead => if before.server.done {
            after == before && next is Over && job == (Job::Finish { refused: None })
        } else if before.tasks@.held.len() > 0 {
            let (begun, rest, step) = begin(core, before.server.channels@, before.tasks@);
            let result = carry_on((begun, step), Seq::empty());
            &&& after.tasks@ == rest
            &&& went(&before.server, &after.server, &after.queues, result, result.2)
            &&& leads_on(result.2, next, job)
        } else {
            after == before && next is Waiting && job is WaitForEvents
        },
        Phase::Scheduling => {
            let result = on_reply(core, calls, reply);
            &&& went(&before.server, &after.server, &after.queues, result, result.2)
            &&& leads_on(result.2, next, job)
        },
        Phase::Waiting => {
            &&& after == before
            &&& job is Proceed
            &&& next == if reply.ret != 0 && reply.errno != timed_out_errno() {
                Phase::AtHead
            } else {
                Phase::BeforeEvent { first: reply.first, second: reply.second }
            }
        },
        Phase::BeforeEvent { first, second } => if first == 0 {
            after == before && next is AtHead && job is Proceed
        } else {
            let result = carry_on(on_event(core, first), Seq::empty());
            &&& went(&before.server, &after.server, &after.queues, result, result.2)
            &&& event_leads_on(result.2, second, next, job)
        },
        Phase::InEvent { left } => {
            let result = on_reply(core, calls, reply);
            &&& went(&before.server, &after.server, &after.queues, result, result.2)
            &&& event_leads_on(result.2, left, next, job)
        },
        Phase::Over => {
            after == before && next is Over && job == (Job::Finish { refused: None })
        },
    }
}

impl ServerRun {
    /// A run that has not begun.
    pub fn new() -> (r: ServerRun)
        ensures
            r.phase is Fresh,
            r.registered@ == Set::<u64>::empty(),
    {
        ServerRun { phase: Phase::Fresh, registered: HashSet::new() }
    }

    /// This run belongs to this server: an operation of the server is under way exactly in the
    /// phases that wait for one, and only workers of the server have been brought to where they
    /// wait.
    pub open spec fn fits(&self, server: &Server) -> bool {
        &&& stack_ok(server.calls@)
        &&& serving(self.phase) <==> server.calls@.len() > 0
        &&& self.registered@.subset_of(server.states@.dom())
    }

    fn await_next(&mut self, server: &Server) -> (r: Job)
        ensures
            final(self).registered@ == old(self).registered@,
            awaits(old(self).registered@, server, final(self).phase, r),
    {
        if self.registered.len() < server.states.len() {
            self.phase = Phase::AwaitingWorker;
            Job::AwaitWorker
        } else {
            self.phase = Phase::Holding;
            Job::AwaitRelease
        }
    }

    fn lead_on(&mut self, progress: Progress) -> (r: Job)
        ensures
            final(self).registered@ == old(self).registered@,
            leads_on(progress, final(self).phase, r),
    {
        match progress {
            Progress::Needs(request) => {
                self.phase = Phase::Scheduling;
                Job::Serve(request)
            },
            Progress::Finished(_) => {
                self.phase = Phase::Waiting;
                Job::WaitForEvents
            },
        }
    }

    fn event_lead_on(&mut self, progress: Progress, left: u64) -> (r: Job)
        ensures
            final(self).registered@ == old(self).registered@,
            event_leads_on(progress, left, final(self).phase, r),
    {
        match progress {
            Progress::Needs(request) => {
                self.phase = Phase::InEvent { left };
                Job::Serve(request)
            },
            Progress::Finished(result) => {
                self.phase = Phase::BeforeEvent { first: left, second: 0 };
                match result {
                    Ok(_) => Job::Proceed,
                    Err(error) => Job::Report(error),
                }
            },
        }
    }

    /// Takes in what came of the last job and says what to do next. The first reply is not read.
    pub fn step(
        &mut self,
        server: &mut Server,
        queues: &mut WorkerQueues,
        tasks: &mut TaskQueue,
        reply: Reply,
    ) -> (job: Job)
        requires
            old(self).fits(old(server)),
        ensures
            final(self).fits(final(server)),
            run_step(
                *old(self),
                (World { server: *old(server), queues: *old(queues), tasks: *old(tasks) }),
                reply,
                *final(self),
                (World { server: *final(server), queues: *final(queues), tasks: *final(tasks) }),
                job,
            ),
    {
        let ghost core = core_of(server, queues);
        match self.phase {
            Phase::Fresh => {
                self.phase = Phase::SettingAffinity;
                Job::SetAffinity { cpu_id: server.id }
            },
            Phase::SettingAffinity => {
                self.phase = Phase::Registering;
                Job::Call(UmcgCall::plain(UmcgCmd::RegisterServer))
            },
            Phase::Registering => {
                if reply.ret != 0 {
                    self.phase = Phase::Over;
                    return Job::Finish { refused: Some(reply.ret) };
                }
                self.await_next(server)
            },
            Phase::AwaitingWorker => {
                if reply.ret == 0 && event_kind(reply.first) == 2 {
                    let tid = event_tid(reply.first);
                    if !self.registered.contains(&worker_id(tid)) {
                        self.phase = Phase::SwitchingTo { tid };
                        return Job::Switch { tid };
                    }
                }
                Job::AwaitWorker
            },
            Phase::SwitchingTo { tid } => {
                let id = worker_id(tid);
                if reply.ret == 0 && server.enter_line(queues, id) {
                    self.registered.insert(id);
                    return self.await_next(server);
                }
                self.phase = Phase::AwaitingWorker;
                Job::AwaitWorker
            },
            Phase::Holding => {
                self.phase = Phase::AtHead;
                Job::Proceed
            },
            Phase::AtHead => {
                if server.done {
                    self.phase = Phase::Over;
                    return Job::Finish { refused: None };
                }
                if tasks.has_pending_tasks() {
                    proof {
                        law_scheduling_keeps(core, server.channels@, tasks@);
                    }
                    let progress = server.try_schedule_tasks(queues, tasks);
                    return self.lead_on(progress);
                }
                self.phase = Phase::Waiting;
                Job::WaitForEvents
            },
            Phase::Scheduling => {
                proof {
                    law_reply_keeps(core, server.calls@, reply);
                }
                let progress = server.resume(queues, reply);
                self.lead_on(progress)
            },
            Phase::Waiting => {
                self.phase = if reply.ret != 0 && reply.errno != etimedout() {
                    Phase::AtHead
                } else {
                    Phase::BeforeEvent { first: reply.first, second: reply.second }
                };
                Job::Proceed
            },
            Phase::BeforeEvent { first, second } => {
                if first == 0 {
                    self.phase = Phase::AtHead;
                    return Job::Proceed;
                }
                proof {
                    law_event_keeps(core, first);
                }
                let progress = server.handle_event(queues, first);
                self.event_lead_on(progress, second)
            },
            Phase::InEvent { left } => {
                proof {
                    law_reply_keeps(core, server.calls@, reply);
                }
                let progress = server.resume(queues, reply);
                self.event_lead_on(progress, left)
            },
            Phase::Over => Job::Finish { refused: None },
        }
    }
}

/// A server waits to be let go only once every worker of its own waits for a task.
pub proof fn law_all_workers_arrive_first(
    run: ServerRun,
    before: World,
    reply: Reply,
    then: ServerRun,
    after: World,
    job: Job,
)
    requires
        run.fits(&before.server),
        before.server.states@.dom().finite(),
        run_step(run, before, reply, then, after, job),
        then.phase is Holding,
    ensures
        then.registered@ == after.server.states@.dom(),
{
    let dom = before.server.states@.dom();
    assert(after.server.states@.dom() =~= dom);
    assert(then.registered@.subset_of(dom));
    vstd::set_lib::lemma_len_subset(then.registered@, dom);
    vstd::set_lib::lemma_subset_equality(then.registered@, dom);
}

/// A worker is brought to where it waits only once: a server switches only to a worker that it has
/// not brought there, and a worker that was brought there is ready and last in line if there was
/// room.
pub proof fn law_worker_arrives_once(
    run: ServerRun,
    before: World,
    reply: Reply,
    then: ServerRun,
    after: World,
    job: Job,
)
    requires
        run_step(run, before, reply, then, after, job),
    ensures
        job matches Job::Switch { tid } ==> !run.registered@.contains(worker_id_of(tid)),
        forall|id: u64| #[trigger]
            then.registered@.contains(id) && !run.registered@.contains(id)
                ==> after.server.states@[id] == WorkerStatus::Waiting && after.queues@.pending
                == crate::queued::queues::put(before.queues@.pending, id),
{
}

/// Nothing ends the life of a server but a registration that is refused and the order to stop.
pub proof fn law_server_stops_when_told(
    run: ServerRun,
    before: World,
    reply: Reply,
    then: ServerRun,
    after: World,
    job: Job,
)
    requires
        run_step(run, before, reply, then, after, job),
        run.phase !is Over,
    ensures
        job is Finish <==> run.phase is Registering && reply.ret != 0 || run.phase is AtHead
            && before.server.done,
        then.phase is Over <==> job is Finish,
{
}

} // verus!
