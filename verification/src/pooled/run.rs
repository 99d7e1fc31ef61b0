//! The life of a server: it registers, has its workers started, serves events until it is told to
//! stop, and tells its workers.
//!
//! [`ServerRun`] decides what comes next; the program that drives it does the work and reports
//! what came of it.

use crate::error::ServerError;
use crate::pooled::pool::{new_worker, Worker};
use crate::pooled::server::{
    carry_on, on_event, on_reply, scheduled, set_worker, Progress, Reply, Request, Server,
    ServerView,
};
use crate::status::WorkerStatus;
use crate::umcg::{
    event_kind, kind_of, plain_call, UmcgCall, UmcgCmd, WORKER_REGISTRATION_TIMEOUT_MS,
};
use crate::wait::{etimedout, timed_out_errno};
use vstd::prelude::*;

verus! {

/// How many events a server has room for when it waits.
pub const WAIT_EVENTS: usize = 6;

/// For how long a server waits for events at most, in nanoseconds.
pub const EVENT_WAIT_NS: u64 = 100_000_000;

/// What the driver of a server does next.
#[derive(Debug)]
pub enum Job {
    /// Bind the server's thread to a processor.
    SetAffinity { cpu_id: usize },
    /// Make this system call, without room for events.
    Call(UmcgCall),
    /// Start a worker's thread and answer with its thread id.
    StartWorker { worker_id: usize, server_id: usize, cpu_id: usize },
    /// Wait for any worker's event, again after each interruption.
    AwaitWorker,
    /// Do what an operation of the server needs.
    Serve(Request),
    /// Make this system call, with room for as many events as it says.
    WaitForEvents(UmcgCall),
    /// Tell of an error that does not stop the server.
    Report(ServerError),
    /// Tell these workers to stop.
    StopWorkers(Vec<i32>),
    /// Nothing; go on.
    Proceed,
    /// The server's life is over.
    Finish(Result<(), ServerError>),
}

/// What came of a job. Zero means success, but for a started worker, where the return value is its
/// thread id.
#[derive(Debug, Copy, Clone)]
pub struct JobReply {
    pub ret: i32,
    pub errno: i32,
    pub events: [u64; 6],
}

/// How far a server has come in its life.
#[derive(Debug, Copy, Clone)]
pub enum Phase {
    /// Nothing was done yet.
    Fresh,
    /// Its thread is being bound to a processor.
    SettingAffinity,
    /// It is registering.
    Registering,
    /// Its worker with this index is being started.
    StartingWorker { index: usize },
    /// It waits for that worker to report.
    AwaitingWorker { index: usize, worker_id: usize, tid: i32, since: u64 },
    /// It is about to schedule and then to wait.
    AtHead,
    /// The scheduling before a wait is under way.
    SchedulingFirst,
    /// It waits for events.
    Waiting,
    /// It is about to handle the event with this index.
    BeforeEvent { events: [u64; 6], index: usize },
    /// The handling of that event is under way.
    InEvent { events: [u64; 6], index: usize },
    /// It is about to schedule after that event.
    AfterEvent { events: [u64; 6], index: usize },
    /// The scheduling after that event is under way.
    SchedulingAfter { events: [u64; 6], index: usize },
    /// Its workers are being told to stop.
    StoppingWorkers,
    /// It is giving up its registration.
    Unregistering,
    /// Its life is over.
    Over,
}

/// An operation of the server is under way in this phase.
pub open spec fn serving(phase: Phase) -> bool {
    phase is SchedulingFirst || phase is InEvent || phase is SchedulingAfter
}

/// The part of a reply that an operation of the server reads.
pub open spec fn short_reply(reply: JobReply) -> Reply {
    Reply { ret: reply.ret, errno: reply.errno, first: reply.events[0], second: reply.events[1] }
}

/// The call by which a server waits for events: the wait ends a short time after `epoch`, which is
/// the time at which the call is made, in nanoseconds since the epoch.
pub open spec fn event_wait(epoch: u64) -> UmcgCall {
    UmcgCall {
        flags: 0,
        cmd: UmcgCmd::Wait,
        next_tid: 0,
        abs_timeout: (epoch + EVENT_WAIT_NS) as u64,
        event_sz: WAIT_EVENTS as i32,
    }
}

/// The server's life ends here with `result`.
pub open spec fn ends(next: Phase, job: Job, result: Result<(), ServerError>) -> bool {
    next is Over && job == Job::Finish(result)
}

/// The worker with this index is started, or the server's loop is entered if there is none.
pub open spec fn starts(server: &Server, index: int, next: Phase, job: Job) -> bool {
    if index < server.worker_pool.total_workers {
        &&& next == (Phase::StartingWorker { index: index as usize })
        &&& job == (Job::StartWorker {
            worker_id: (server.id * server.worker_pool.total_workers + index) as usize,
            server_id: server.id,
            cpu_id: server.cpu_id,
        })
    } else {
        next is AtHead && job is Proceed
    }
}

/// An operation with this progress leads on: what it needs is done in the phase `under_way`; a
/// failure ends the server's life; success leads to the phase `after` with the job `then`.
pub open spec fn leads_on(
    progress: Progress,
    under_way: Phase,
    after: Phase,
    then: Job,
    next: Phase,
    job: Job,
) -> bool {
    match progress {
        Progress::Needs(request) => next == under_way && job == Job::Serve(request),
        Progress::Finished(Err(error)) => ends(next, job, Err(error)),
        Progress::Finished(Ok(_)) => next == after && job == then,
    }
}

/// The handling of an event with this progress leads on: a failure is told of, and the server goes
/// on.
pub open spec fn event_leads_on(
    progress: Progress,
    events: [u64; 6],
    index: usize,
    next: Phase,
    job: Job,
) -> bool {
    match progress {
        Progress::Needs(request) => next == (Phase::InEvent { events, index }) && job
            == Job::Serve(request),
        Progress::Finished(result) => {
            &&& next == (Phase::AfterEvent { events, index })
            &&& job == match result {
                Err(error) => Job::Report(error),
                Ok(_) => Job::Proceed,
            }
        },
    }
}

/// `after` is `before` but for its workers, which are `pool`.
pub open spec fn has_workers(before: &Server, after: &Server, pool: Map<i32, Worker>) -> bool {
    &&& after.wf()
    &&& after.same_server(before)
    &&& after@ == (ServerView {
        core: crate::pooled::server::Core { pool, ..before@.core },
        ..before@
    })
}

/// One step of a server's life: from `phase`, with the reply to the last job, to `next`, with the
/// next job.
pub open spec fn run_step(
    phase: Phase,
    before: &Server,
    reply: JobReply,
    now: u64,
    epoch: u64,
    next: Phase,
    after: &Server,
    job: Job,
) -> bool {
    match phase {
        Phase::Fresh => {
            &&& *after == *before
            &&& next is SettingAffinity
            &&& job == (Job::SetAffinity { cpu_id: before.cpu_id })
        },
        Phase::SettingAffinity => {
            &&& *after == *before
            &&& if reply.ret != 0 {
                ends(next, job, Err(ServerError::SystemError(reply.errno)))
            } else {
                next is Registering && job == Job::Call(plain_call(UmcgCmd::RegisterServer))
            }
        },
        Phase::Registering => {
            &&& *after == *before
            &&& if reply.ret != 0 {
                ends(next, job, Err(ServerError::RegistrationFailed(reply.ret)))
            } else {
                starts(before, 0, next, job)
            }
        },
        Phase::StartingWorker { index } => {
            let worker_id = (before.id * before.worker_pool.total_workers + index) as usize;
            let tid = reply.ret;
            &&& has_workers(
                before,
                after,
                before@.core.pool.insert(
                    tid,
                    Worker {
                        status: WorkerStatus::Registering,
                        ..new_worker(worker_id, before.id, tid)
                    },
                ),
            )
            &&& next == (Phase::AwaitingWorker { index, worker_id, tid, since: now })
            &&& job is AwaitWorker
        },
        Phase::AwaitingWorker { index, worker_id, tid, since } => if reply.ret != 0 {
            &&& *after == *before
            &&& ends(
                next,
                job,
                Err(ServerError::WorkerRegistrationFailed { worker_id, error: reply.ret }),
            )
        } else if kind_of(reply.events[0]) == 2 {
            &&& has_workers(
                before,
                after,
                set_worker(before@.core, tid, WorkerStatus::Waiting, None).pool,
            )
            &&& starts(before, index + 1, next, job)
        } else if now - since > WORKER_REGISTRATION_TIMEOUT_MS * 1_000_000 {
            &&& *after == *before
            &&& ends(next, job, Err(ServerError::WorkerRegistrationTimeout { worker_id }))
        } else {
            &&& *after == *before
            &&& next == phase
            &&& job is AwaitWorker
        },
        Phase::AtHead => if before@.done {
            &&& after.wf()
            &&& after.same_server(before)
            &&& after@ == before@
            &&& next is StoppingWorkers
            &&& job matches Job::StopWorkers(tids) && tids@.no_duplicates() && tids@.to_set()
                == before@.core.pool.dom()
        } else {
            exists|progress: Progress| #[trigger]
                scheduled(before, after, progress, epoch) && leads_on(
                    progress,
                    Phase::SchedulingFirst,
                    Phase::Waiting,
                    Job::WaitForEvents(event_wait(epoch)),
                    next,
                    job,
                )
        },
        Phase::SchedulingFirst => {
            let resumed = on_reply(before@.core, before@.calls, short_reply(reply), epoch);
            &&& after.went(before, resumed, resumed.2)
            &&& leads_on(
                resumed.2,
                Phase::SchedulingFirst,
                Phase::Waiting,
                Job::WaitForEvents(event_wait(epoch)),
                next,
                job,
            )
        },
        Phase::Waiting => {
            &&& *after == *before
            &&& if reply.ret != 0 && reply.errno != timed_out_errno() {
                ends(next, job, Err(ServerError::SystemError(reply.errno)))
            } else {
                &&& next == (Phase::BeforeEvent { events: reply.events, index: 0 })
                &&& job is Proceed
            }
        },
        Phase::BeforeEvent { events, index } => if index >= WAIT_EVENTS || events[index as int]
            == 0 {
            &&& *after == *before
            &&& next is AtHead
            &&& job is Proceed
        } else {
            let handled = carry_on(
                on_event(before@.core, events[index as int], epoch),
                Seq::empty(),
                epoch,
            );
            &&& after.went(before, handled, handled.2)
            &&& event_leads_on(handled.2, events, index, next, job)
        },
        Phase::InEvent { events, index } => {
            let resumed = on_reply(before@.core, before@.calls, short_reply(reply), epoch);
            &&& after.went(before, resumed, resumed.2)
            &&& event_leads_on(resumed.2, events, index, next, job)
        },
        Phase::AfterEvent { events, index } => exists|progress: Progress| #[trigger]
            scheduled(before, after, progress, epoch) && leads_on(
                progress,
                Phase::SchedulingAfter { events, index },
                Phase::BeforeEvent { events, index: (index + 1) as usize },
                Job::Proceed,
                next,
                job,
            ),
        Phase::SchedulingAfter { events, index } => {
            let resumed = on_reply(before@.core, before@.calls, short_reply(reply), epoch);
            &&& after.went(before, resumed, resumed.2)
            &&& leads_on(
                resumed.2,
                Phase::SchedulingAfter { events, index },
                Phase::BeforeEvent { events, index: (index + 1) as usize },
                Job::Proceed,
                next,
                job,
            )
        },
        Phase::StoppingWorkers => {
            &&& *after == *before
            &&& next is Unregistering
            &&& job == Job::Call(plain_call(UmcgCmd::Unregister))
        },
        Phase::Unregistering => *after == *before && ends(next, job, Ok(())),
        Phase::Over => *after == *before && ends(next, job, Ok(())),
    }
}

/// The run of a server.
#[derive(Debug)]
pub struct ServerRun {
    pub phase: Phase,
}

impl ServerRun {
    /// A run that has not begun.
    pub fn new() -> (r: ServerRun)
        ensures
            r.phase is Fresh,
    {
        ServerRun { phase: Phase::Fresh }
    }

    /// This run belongs to this server: an operation of the server is under way exactly in the
    /// phases that wait for one, and the numbers of its workers can be counted.
    pub open spec fn fits(&self, server: &Server) -> bool {
        &&& server.wf()
        &&& serving(self.phase) <==> server@.calls.len() > 0
        &&& server.id * server.worker_pool.total_workers + server.worker_pool.total_workers
            <= usize::MAX + 1
        &&& match self.phase {
            Phase::StartingWorker { index } => index < server.worker_pool.total_workers,
            Phase::AwaitingWorker { index, .. } => index < server.worker_pool.total_workers,
            Phase::InEvent { index, .. } => index < WAIT_EVENTS,
            Phase::AfterEvent { index, .. } => index < WAIT_EVENTS,
            Phase::SchedulingAfter { index, .. } => index < WAIT_EVENTS,
            _ => true,
        }
    }

    /// The clock has not gone back since the server began to wait for a worker.
    pub open spec fn clock_ok(&self, now: u64) -> bool {
        self.phase matches Phase::AwaitingWorker { since, .. } ==> since <= now
    }

    fn finish(&mut self, result: Result<(), ServerError>) -> (r: Job)
        ensures
            ends(final(self).phase, r, result),
    {
        self.phase = Phase::Over;
        Job::Finish(result)
    }

    fn start_worker(&mut self, server: &Server, index: usize) -> (r: Job)
        requires
            server.id * server.worker_pool.total_workers + server.worker_pool.total_workers
                <= usize::MAX + 1,
        ensures
            starts(server, index as int, final(self).phase, r),
    {
        let total = server.worker_pool.total_workers;
        if index < total {
            self.phase = Phase::StartingWorker { index };
            Job::StartWorker {
                worker_id: server.id * total + index,
                server_id: server.id,
                cpu_id: server.cpu_id,
            }
        } else {
            self.phase = Phase::AtHead;
            Job::Proceed
        }
    }

    fn lead_on(&mut self, progress: Progress, under_way: Phase, after: Phase, then: Job) -> (r: Job)
        ensures
            leads_on(progress, under_way, after, then, final(self).phase, r),
    {
        match progress {
            Progress::Needs(request) => {
                self.phase = under_way;
                Job::Serve(request)
            },
            Progress::Finished(result) => match result {
                Ok(_) => {
                    self.phase = after;
                    then
                },
                Err(error) => self.finish(Err(error)),
            },
        }
    }

    fn event_lead_on(&mut self, progress: Progress, events: [u64; 6], index: usize) -> (r: Job)
        ensures
            event_leads_on(progress, events, index, final(self).phase, r),
    {
        match progress {
            Progress::Needs(request) => {
                self.phase = Phase::InEvent { events, index };
                Job::Serve(request)
            },
            Progress::Finished(result) => {
                self.phase = Phase::AfterEvent { events, index };
                match result {
                    Ok(_) => Job::Proceed,
                    Err(error) => Job::Report(error),
                }
            },
        }
    }

    /// Takes in what came of the last job and says what to do next. `now` is the time on a clock
    /// that never goes back, by which workers are waited for, and `epoch` the time since the epoch,
    /// both in nanoseconds. The first reply is not read.
    pub fn step(&mut self, server: &mut Server, reply: JobReply, now: u64, epoch: u64) -> (job: Job)
        requires
            epoch + EVENT_WAIT_NS <= u64::MAX,
            old(self).fits(old(server)),
            old(self).clock_ok(now),
        ensures
            final(self).fits(final(server)),
            final(server).same_server(old(server)),
            run_step(
                old(self).phase,
                old(server),
                reply,
                now,
                epoch,
                final(self).phase,
                final(server),
                job,
            ),
    {
        let short = Reply {
            ret: reply.ret,
            errno: reply.errno,
            first: reply.events[0],
            second: reply.events[1],
        };
        let wait = UmcgCall {
            flags: 0,
            cmd: UmcgCmd::Wait,
            next_tid: 0,
            abs_timeout: epoch + EVENT_WAIT_NS,
            event_sz: 6,
        };
        match self.phase {
            Phase::Fresh => {
                self.phase = Phase::SettingAffinity;
                Job::SetAffinity { cpu_id: server.cpu_id }
            },
            Phase::SettingAffinity => {
                if reply.ret != 0 {
                    return self.finish(Err(ServerError::SystemError(reply.errno)));
                }
                self.phase = Phase::Registering;
                Job::Call(UmcgCall::plain(UmcgCmd::RegisterServer))
            },
            Phase::Registering => {
                if reply.ret != 0 {
                    return self.finish(Err(ServerError::RegistrationFailed(reply.ret)));
                }
                self.start_worker(server, 0)
            },
            Phase::StartingWorker { index } => {
                let tid = reply.ret;
                let worker_id = server.id * server.worker_pool.total_workers + index;
                server.worker_pool.add_worker(Worker::new(worker_id, server.id, tid));
                server.worker_pool.update_worker_status(tid, WorkerStatus::Registering, None);
                self.phase = Phase::AwaitingWorker { index, worker_id, tid, since: now };
                assert(server@.core.pool =~= old(server)@.core.pool.insert(
                    tid,
                    Worker {
                        status: WorkerStatus::Registering,
                        ..new_worker(worker_id, server.id, tid)
                    },
                ));
                Job::AwaitWorker
            },
            Phase::AwaitingWorker { index, worker_id, tid, since } => {
                if reply.ret != 0 {
                    return self.finish(
                        Err(ServerError::WorkerRegistrationFailed { worker_id, error: reply.ret }),
                    );
                }
                if event_kind(reply.events[0]) == 2 {
                    server.transition_worker_state(tid, WorkerStatus::Waiting, None);
                    return self.start_worker(server, index + 1);
                }
                if now - since > WORKER_REGISTRATION_TIMEOUT_MS * 1_000_000 {
                    return self.finish(Err(ServerError::WorkerRegistrationTimeout { worker_id }));
                }
                Job::AwaitWorker
            },
            Phase::AtHead => {
                if server.done {
                    self.phase = Phase::StoppingWorkers;
                    return Job::StopWorkers(server.initiate_shutdown());
                }
                let progress = server.try_schedule_tasks(epoch);
                assert(scheduled(old(server), server, progress, epoch));
                self.lead_on(
                    progress,
                    Phase::SchedulingFirst,
                    Phase::Waiting,
                    Job::WaitForEvents(wait),
                )
            },
            Phase::SchedulingFirst => {
                let progress = server.resume(short, epoch);
                self.lead_on(
                    progress,
                    Phase::SchedulingFirst,
                    Phase::Waiting,
                    Job::WaitForEvents(wait),
                )
            },
            Phase::Waiting => {
                if reply.ret != 0 && reply.errno != etimedout() {
                    return self.finish(Err(ServerError::SystemError(reply.errno)));
                }
                self.phase = Phase::BeforeEvent { events: reply.events, index: 0 };
                Job::Proceed
            },
            Phase::BeforeEvent { events, index } => {
                if index >= WAIT_EVENTS || events[index] == 0 {
                    self.phase = Phase::AtHead;
                    return Job::Proceed;
                }
                let progress = server.handle_umcg_event(events[index], epoch);
                self.event_lead_on(progress, events, index)
            },
            Phase::InEvent { events, index } => {
                let progress = server.resume(short, epoch);
                self.event_lead_on(progress, events, index)
            },
            Phase::AfterEvent { events, index } => {
                let progress = server.try_schedule_tasks(epoch);
                assert(scheduled(old(server), server, progress, epoch));
                self.lead_on(
                    progress,
                    Phase::SchedulingAfter { events, index },
                    Phase::BeforeEvent { events, index: index + 1 },
                    Job::Proceed,
                )
            },
            Phase::SchedulingAfter { events, index } => {
                let progress = server.resume(short, epoch);
                self.lead_on(
                    progress,
                    Phase::SchedulingAfter { events, index },
                    Phase::BeforeEvent { events, index: index + 1 },
                    Job::Proceed,
                )
            },
            Phase::StoppingWorkers => {
                self.phase = Phase::Unregistering;
                Job::Call(UmcgCall::plain(UmcgCmd::Unregister))
            },
            Phase::Unregistering => self.finish(Ok(())),
            Phase::Over => self.finish(Ok(())),
        }
    }
}

/// A server waits for events with room for six of them, and never for longer than a tenth of a
/// second from the time at which the wait begins.
pub proof fn law_waits_are_short(
    phase: Phase,
    before: &Server,
    reply: JobReply,
    now: u64,
    epoch: u64,
    next: Phase,
    after: &Server,
    job: Job,
)
    requires
        run_step(phase, before, reply, now, epoch, next, after, job),
        epoch + EVENT_WAIT_NS <= u64::MAX,
    ensures
        job matches Job::WaitForEvents(call) ==> call.abs_timeout == epoch + 100_000_000
            && call.event_sz == 6 && call.cmd == UmcgCmd::Wait && call.next_tid == 0,
{
}

/// A wait that ran into its time limit does not stop a server.
pub proof fn law_timed_out_wait_goes_on(
    before: &Server,
    reply: JobReply,
    now: u64,
    epoch: u64,
    next: Phase,
    after: &Server,
    job: Job,
)
    requires
        run_step(Phase::Waiting, before, reply, now, epoch, next, after, job),
        reply.errno == timed_out_errno(),
    ensures
        next == (Phase::BeforeEvent { events: reply.events, index: 0 }),
        job is Proceed,
{
}

/// An event that cannot be handled does not stop a server; it schedules and goes on to the next
/// event.
pub proof fn law_failed_event_goes_on(
    phase: Phase,
    before: &Server,
    reply: JobReply,
    now: u64,
    epoch: u64,
    next: Phase,
    after: &Server,
    job: Job,
)
    requires
        run_step(phase, before, reply, now, epoch, next, after, job),
        phase is BeforeEvent || phase is InEvent,
    ensures
        job !is Finish,
        job is Report ==> next is AfterEvent,
{
}

/// A server enters its loop only once all its workers have reported: before that it goes from one
/// worker to the next, or its life ends.
pub proof fn law_workers_report_first(
    phase: Phase,
    before: &Server,
    reply: JobReply,
    now: u64,
    epoch: u64,
    next: Phase,
    after: &Server,
    job: Job,
)
    requires
        run_step(phase, before, reply, now, epoch, next, after, job),
        phase is Fresh || phase is SettingAffinity || phase is Registering
            || phase is StartingWorker || phase is AwaitingWorker,
        next is AtHead,
    ensures
        phase is Registering ==> before.worker_pool.total_workers == 0,
        phase is Registering || phase is AwaitingWorker,
        phase matches Phase::AwaitingWorker { index, .. } ==> index + 1
            >= before.worker_pool.total_workers && kind_of(reply.events[0]) == 2,
{
}

/// Once a server has come to the head of its loop and finds that it is to stop, it tells all its
/// workers, gives up its registration and ends without an error, whatever came of these jobs.
pub proof fn law_stop_is_orderly(
    told: &Server,
    first: JobReply,
    second: JobReply,
    third: JobReply,
    now: u64,
    epoch: u64,
    stopping: Phase,
    stopped: &Server,
    stop: Job,
    leaving: Phase,
    left: &Server,
    leave: Job,
    last: Phase,
    end: &Server,
    finish: Job,
)
    requires
        told@.done,
        run_step(Phase::AtHead, told, first, now, epoch, stopping, stopped, stop),
        run_step(stopping, stopped, second, now, epoch, leaving, left, leave),
        run_step(leaving, left, third, now, epoch, last, end, finish),
    ensures
        stop matches Job::StopWorkers(tids) && tids@.to_set() == told@.core.pool.dom(),
        leave == Job::Call(plain_call(UmcgCmd::Unregister)),
        ends(last, finish, Ok(())),
        end@ == told@,
{
}

} // verus!
