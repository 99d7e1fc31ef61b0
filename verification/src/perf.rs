//! The decisions of the two performance measurements: handing control back and forth between a
//! server and a worker, and waking one another through a futex.

use crate::conformance::check::{
    is_event, umcg_ctxsw_assert_worker_event, umcg_wait_any_worker, CallReply,
};
use crate::umcg::{
    event_code, event_tid, kind_of, lemma_shifted_tid, plain_call, registration, tid_of, worker_of,
    UmcgCall, UmcgCmd, UmcgEventType,
};
use vstd::prelude::*;

verus! {

/// How long a measurement lasts, in nanoseconds.
pub const PERF_DURATION_NS: u64 = 10_000_000_000;

/// What the server of the measurement does next.
#[derive(Debug, Copy, Clone, PartialEq, Eq, Structural)]
pub enum PerfJob {
    /// Start the worker.
    Start,
    /// Make this call, without room for events.
    Call(UmcgCall),
    /// Wait for any worker's event, again after each interruption, with room for two events.
    AwaitWorker,
    /// Make this call, with room for two events.
    Switch(UmcgCall),
    /// Print how many rounds there were. Whether the measurement is over was told before.
    Tell { cycles: i64 },
    /// Wait for the end of the worker.
    Join,
    /// End with exit code zero.
    Finish,
    /// Give up, since a call or its events were not as they have to be.
    Fail,
}

/// How far the server of the measurement has come.
#[derive(Debug, Copy, Clone, PartialEq, Eq, Structural)]
pub enum PerfPhase {
    Fresh,
    Starting,
    Registering,
    AwaitingWorker,
    Switching,
    Telling,
    Leaving,
    Joining,
    Over,
}

/// The server of the measurement: how far it has come, its worker, the rounds so far, and whether
/// the time is over.
#[derive(Debug, Copy, Clone, PartialEq, Eq, Structural)]
pub struct PerfRun {
    pub phase: PerfPhase,
    pub worker_id: u64,
    pub cycles: i64,
    pub done: bool,
}

/// The switch to a worker, with room for two events.
pub open spec fn perf_switch(worker_id: u64) -> UmcgCall {
    UmcgCall {
        flags: 0,
        cmd: UmcgCmd::CtxSwitch,
        next_tid: tid_of(worker_id),
        abs_timeout: 0,
        event_sz: 2,
    }
}

/// The switch succeeded, with one event, of this kind and about the worker.
pub open spec fn switched(run: PerfRun, reply: CallReply, kind: UmcgEventType) -> bool {
    reply.ret == 0 && is_event(reply.first, run.worker_id, kind) && reply.second == 0
}

/// The server begins another round, or tells the result if the time is over.
pub open spec fn next_round(run: PerfRun) -> (PerfRun, PerfJob) {
    if run.done {
        (PerfRun { phase: PerfPhase::Telling, ..run }, PerfJob::Tell { cycles: run.cycles })
    } else {
        (
            PerfRun { phase: PerfPhase::Switching, ..run },
            PerfJob::Switch(perf_switch(run.worker_id)),
        )
    }
}

/// The server's next job, and the server as it is then. `elapsed` is the time since the worker was
/// found, in nanoseconds.
pub open spec fn next_perf_job(run: PerfRun, reply: CallReply, elapsed: u64) -> (
    PerfRun,
    PerfJob,
) {
    let failed = (PerfRun { phase: PerfPhase::Over, ..run }, PerfJob::Fail);
    match run.phase {
        PerfPhase::Fresh => (PerfRun { phase: PerfPhase::Starting, ..run }, PerfJob::Start),
        PerfPhase::Starting => (
            PerfRun { phase: PerfPhase::Registering, ..run },
            PerfJob::Call(plain_call(UmcgCmd::RegisterServer)),
        ),
        PerfPhase::Registering => if reply.ret != 0 {
            failed
        } else {
            (PerfRun { phase: PerfPhase::AwaitingWorker, ..run }, PerfJob::AwaitWorker)
        },
        PerfPhase::AwaitingWorker => if reply.ret == 0 && kind_of(reply.first) == event_code(
            UmcgEventType::Wake,
        ) && reply.second == 0 {
            next_round(PerfRun { worker_id: worker_of(reply.first), ..run })
        } else {
            failed
        },
        PerfPhase::Switching => if switched(run, reply, UmcgEventType::Wait) {
            next_round(
                PerfRun {
                    cycles: (run.cycles + 1) as i64,
                    done: run.done || elapsed >= PERF_DURATION_NS,
                    ..run
                },
            )
        } else {
            failed
        },
        PerfPhase::Telling => (
            PerfRun { phase: PerfPhase::Leaving, ..run },
            PerfJob::Switch(perf_switch(run.worker_id)),
        ),
        PerfPhase::Leaving => if switched(run, reply, UmcgEventType::Exit) {
            (PerfRun { phase: PerfPhase::Joining, ..run }, PerfJob::Join)
        } else {
            failed
        },
        PerfPhase::Joining => (PerfRun { phase: PerfPhase::Over, ..run }, PerfJob::Finish),
        PerfPhase::Over => (run, PerfJob::Finish),
    }
}

impl PerfRun {
    /// A measurement that has not begun; `done` says whether it is over before it begins.
    pub fn new(done: bool) -> (r: PerfRun)
        ensures
            r == (PerfRun { phase: PerfPhase::Fresh, worker_id: 0, cycles: 0, done }),
    {
        PerfRun { phase: PerfPhase::Fresh, worker_id: 0, cycles: 0, done }
    }

    fn fail(&mut self) -> (r: PerfJob)
        ensures
            (*final(self), r) == (
                PerfRun { phase: PerfPhase::Over, ..*old(self) },
                PerfJob::Fail,
            ),
    {
        self.phase = PerfPhase::Over;
        PerfJob::Fail
    }

    fn switch(&self) -> (r: PerfJob)
        ensures
            r == PerfJob::Switch(perf_switch(self.worker_id)),
    {
        PerfJob::Switch(
            UmcgCall {
                flags: 0,
                cmd: UmcgCmd::CtxSwitch,
                next_tid: event_tid(self.worker_id),
                abs_timeout: 0,
                event_sz: 2,
            },
        )
    }

    fn round(&mut self) -> (r: PerfJob)
        ensures
            (*final(self), r) == next_round(*old(self)),
    {
        if self.done {
            self.phase = PerfPhase::Telling;
            PerfJob::Tell { cycles: self.cycles }
        } else {
            self.phase = PerfPhase::Switching;
            self.switch()
        }
    }

    /// Takes in what came of the last job, `elapsed` nanoseconds after the worker was found, and
    /// says what to do next. The first reply is not read.
    pub fn step(&mut self, reply: &CallReply, elapsed: u64) -> (r: PerfJob)
        requires
            old(self).phase is Switching ==> old(self).cycles < i64::MAX,
        ensures
            (*final(self), r) == next_perf_job(*old(self), *reply, elapsed),
    {
        match self.phase {
            PerfPhase::Fresh => {
                self.phase = PerfPhase::Starting;
                PerfJob::Start
            },
            PerfPhase::Starting => {
                self.phase = PerfPhase::Registering;
                PerfJob::Call(UmcgCall::plain(UmcgCmd::RegisterServer))
            },
            PerfPhase::Registering => {
                if reply.ret != 0 {
                    return self.fail();
                }
                self.phase = PerfPhase::AwaitingWorker;
                PerfJob::AwaitWorker
            },
            PerfPhase::AwaitingWorker => match umcg_wait_any_worker(reply, UmcgEventType::Wake) {
                Some(found) => {
                    self.worker_id = found;
                    self.round()
                },
                None => self.fail(),
            },
            PerfPhase::Switching => {
                if !umcg_ctxsw_assert_worker_event(reply, self.worker_id, UmcgEventType::Wait) {
                    return self.fail();
                }
                self.cycles = self.cycles + 1;
                if elapsed >= PERF_DURATION_NS {
                    self.done = true;
                }
                self.round()
            },
            PerfPhase::Telling => {
                self.phase = PerfPhase::Leaving;
                self.switch()
            },
            PerfPhase::Leaving => {
                if !umcg_ctxsw_assert_worker_event(reply, self.worker_id, UmcgEventType::Exit) {
                    return self.fail();
                }
                self.phase = PerfPhase::Joining;
                PerfJob::Join
            },
            PerfPhase::Joining => {
                self.phase = PerfPhase::Over;
                PerfJob::Finish
            },
            PerfPhase::Over => PerfJob::Finish,
        }
    }
}

/// How far the worker of the measurement has come.
#[derive(Debug, Copy, Clone, PartialEq, Eq, Structural)]
pub enum PerfWorker {
    /// The thread with this id has not begun.
    Fresh { tid: i32 },
    /// It registered, or waited, with the call that was made last.
    Going,
    /// It is giving up its registration.
    Leaving,
    /// It is over.
    Over,
}

/// What the worker of the measurement does next: it registers, waits again and again until the time
/// is over, and gives up its registration. Every call has to return zero.
pub open spec fn next_perf_chore(worker: PerfWorker, ret: i32, done: bool) -> (
    PerfWorker,
    PerfJob,
) {
    match worker {
        PerfWorker::Fresh { tid } => (PerfWorker::Going, PerfJob::Call(registration(tid))),
        PerfWorker::Going => if ret != 0 {
            (PerfWorker::Over, PerfJob::Fail)
        } else if done {
            (PerfWorker::Leaving, PerfJob::Call(plain_call(UmcgCmd::Unregister)))
        } else {
            (PerfWorker::Going, PerfJob::Call(plain_call(UmcgCmd::Wait)))
        },
        PerfWorker::Leaving => (
            PerfWorker::Over,
            if ret == 0 {
                PerfJob::Finish
            } else {
                PerfJob::Fail
            },
        ),
        PerfWorker::Over => (PerfWorker::Over, PerfJob::Finish),
    }
}

impl PerfWorker {
    /// Takes in what the last call returned, and whether the time is over, and says what to do
    /// next. The first return value is not read.
    pub fn step(&mut self, ret: i32, done: bool) -> (r: PerfJob)
        ensures
            (*final(self), r) == next_perf_chore(*old(self), ret, done),
    {
        match *self {
            PerfWorker::Fresh { tid } => {
                *self = PerfWorker::Going;
                PerfJob::Call(UmcgCall::registration(tid))
            },
            PerfWorker::Going => {
                if ret != 0 {
                    *self = PerfWorker::Over;
                    PerfJob::Fail
                } else if done {
                    *self = PerfWorker::Leaving;
                    PerfJob::Call(UmcgCall::plain(UmcgCmd::Unregister))
                } else {
                    PerfJob::Call(UmcgCall::plain(UmcgCmd::Wait))
                }
            },
            PerfWorker::Leaving => {
                *self = PerfWorker::Over;
                if ret == 0 {
                    PerfJob::Finish
                } else {
                    PerfJob::Fail
                }
            },
            PerfWorker::Over => PerfJob::Finish,
        }
    }
}

/// What a thread of the futex measurement does next.
#[derive(Debug, Copy, Clone, PartialEq, Eq, Structural)]
pub enum FutexJob {
    /// Store this value in the word.
    Store(i32),
    /// Wake one thread that waits on the word.
    Wake,
    /// Wait on the word for as long as it holds this value.
    Wait(i32),
    /// Let the other thread know that the measurement is over, and print how many rounds there
    /// were.
    Tell { cycles: i64 },
    /// Wait for the end of the other thread.
    Join,
    /// Stop.
    Finish,
}

/// How far the thread that counts has come.
#[derive(Debug, Copy, Clone, PartialEq, Eq, Structural)]
pub enum FutexPhase {
    AtHead,
    Stored,
    Woken,
    Waited,
    Told,
    StoredLast,
    WokenLast,
    Joined,
}

/// The thread that counts.
#[derive(Debug, Copy, Clone, PartialEq, Eq, Structural)]
pub struct FutexRun {
    pub phase: FutexPhase,
    pub cycles: i64,
}

/// The next job of the thread that counts, and the thread as it is then: in each round it stores
/// one, wakes the other thread, and waits; after the time is over it wakes the other thread once
/// more. `elapsed` is the time since the first round, in nanoseconds.
pub open spec fn next_futex_job(run: FutexRun, elapsed: u64) -> (FutexRun, FutexJob) {
    match run.phase {
        FutexPhase::AtHead => (FutexRun { phase: FutexPhase::Stored, ..run }, FutexJob::Store(1)),
        FutexPhase::Stored => (FutexRun { phase: FutexPhase::Woken, ..run }, FutexJob::Wake),
        FutexPhase::Woken => (FutexRun { phase: FutexPhase::Waited, ..run }, FutexJob::Wait(1)),
        FutexPhase::Waited => {
            let cycles = (run.cycles + 1) as i64;
            if elapsed >= PERF_DURATION_NS {
                (FutexRun { phase: FutexPhase::Told, cycles }, FutexJob::Tell { cycles })
            } else {
                (FutexRun { phase: FutexPhase::Stored, cycles }, FutexJob::Store(1))
            }
        },
        FutexPhase::Told => (
            FutexRun { phase: FutexPhase::StoredLast, ..run },
            FutexJob::Store(1),
        ),
        FutexPhase::StoredLast => (
            FutexRun { phase: FutexPhase::WokenLast, ..run },
            FutexJob::Wake,
        ),
        FutexPhase::WokenLast => (FutexRun { phase: FutexPhase::Joined, ..run }, FutexJob::Join),
        FutexPhase::Joined => (run, FutexJob::Finish),
    }
}

impl FutexRun {
    /// No round so far.
    pub fn new() -> (r: FutexRun)
        ensures
            r == (FutexRun { phase: FutexPhase::AtHead, cycles: 0 }),
    {
        FutexRun { phase: FutexPhase::AtHead, cycles: 0 }
    }

    /// Says what to do next, `elapsed` nanoseconds after the first round began.
    pub fn step(&mut self, elapsed: u64) -> (r: FutexJob)
        requires
            old(self).phase is Waited ==> old(self).cycles < i64::MAX,
        ensures
            (*final(self), r) == next_futex_job(*old(self), elapsed),
    {
        match self.phase {
            FutexPhase::AtHead => {
                self.phase = FutexPhase::Stored;
                FutexJob::Store(1)
            },
            FutexPhase::Stored => {
                self.phase = FutexPhase::Woken;
                FutexJob::Wake
            },
            FutexPhase::Woken => {
                self.phase = FutexPhase::Waited;
                FutexJob::Wait(1)
            },
            FutexPhase::Waited => {
                self.cycles = self.cycles + 1;
                if elapsed >= PERF_DURATION_NS {
                    self.phase = FutexPhase::Told;
                    FutexJob::Tell { cycles: self.cycles }
                } else {
                    self.phase = FutexPhase::Stored;
                    FutexJob::Store(1)
                }
            },
            FutexPhase::Told => {
                self.phase = FutexPhase::StoredLast;
                FutexJob::Store(1)
            },
            FutexPhase::StoredLast => {
                self.phase = FutexPhase::WokenLast;
                FutexJob::Wake
            },
            FutexPhase::WokenLast => {
                self.phase = FutexPhase::Joined;
                FutexJob::Join
            },
            FutexPhase::Joined => FutexJob::Finish,
        }
    }
}

/// How far the other thread of the futex measurement has come.
#[derive(Debug, Copy, Clone, PartialEq, Eq, Structural)]
pub enum FutexEcho {
    AtHead,
    Waited,
    Stored,
}

/// What the other thread does next: in each round it waits, stores zero and wakes the thread that
/// counts; it looks whether the measurement is over only between rounds.
pub open spec fn next_echo_job(echo: FutexEcho, done: bool) -> (FutexEcho, FutexJob) {
    match echo {
        FutexEcho::AtHead => if done {
            (FutexEcho::AtHead, FutexJob::Finish)
        } else {
            (FutexEcho::Waited, FutexJob::Wait(0))
        },
        FutexEcho::Waited => (FutexEcho::Stored, FutexJob::Store(0)),
        FutexEcho::Stored => (FutexEcho::AtHead, FutexJob::Wake),
    }
}

impl FutexEcho {
    /// Says what to do next.
    pub fn step(&mut self, done: bool) -> (r: FutexJob)
        ensures
            (*final(self), r) == next_echo_job(*old(self), done),
    {
        match *self {
            FutexEcho::AtHead => {
                if done {
                    FutexJob::Finish
                } else {
                    *self = FutexEcho::Waited;
                    FutexJob::Wait(0)
                }
            },
            FutexEcho::Waited => {
                *self = FutexEcho::Stored;
                FutexJob::Store(0)
            },
            FutexEcho::Stored => {
                *self = FutexEcho::AtHead;
                FutexJob::Wake
            },
        }
    }
}

/// A round is counted exactly for each switch that came back with the worker waiting.
pub proof fn law_switches_are_counted(run: PerfRun, reply: CallReply, elapsed: u64)
    requires
        run.phase is Switching ==> run.cycles < i64::MAX,
    ensures
        next_perf_job(run, reply, elapsed).0.cycles == run.cycles + if run.phase is Switching
            && switched(run, reply, UmcgEventType::Wait) {
            1int
        } else {
            0
        },
{
}

/// The result is told only once the time is over, and with the number of rounds that were counted.
pub proof fn law_result_is_told_at_the_end(run: PerfRun, reply: CallReply, elapsed: u64)
    ensures
        next_perf_job(run, reply, elapsed).1 matches PerfJob::Tell { cycles } ==> (run.done
            || elapsed >= PERF_DURATION_NS) && cycles == next_perf_job(
            run,
            reply,
            elapsed,
        ).0.cycles,
{
}

/// The futex measurement counts a round after each wait and nowhere else.
pub proof fn law_futex_rounds_are_counted(run: FutexRun, elapsed: u64)
    requires
        run.phase is Waited ==> run.cycles < i64::MAX,
    ensures
        next_futex_job(run, elapsed).0.cycles == run.cycles + if run.phase is Waited {
            1int
        } else {
            0
        },
{
}

/// What the server of the measurement does, and on which replies. It gives up exactly if a call
/// failed or an event is not the one that has to come: one wake-up at first, then one wait of its
/// own worker after each switch, and one exit of it at the end.
pub proof fn law_perf_jobs(run: PerfRun, reply: CallReply, elapsed: u64)
    ensures
        ({
            let (next, job) = next_perf_job(run, reply, elapsed);
            let one = reply.ret == 0 && reply.second == 0;
            let own = worker_of(reply.first) == run.worker_id;
            let found = run.phase is AwaitingWorker && one && kind_of(reply.first) == 2;
            let waited = run.phase is Switching && one && own && kind_of(reply.first) == 3;
            let left = run.phase is Leaving && one && own && kind_of(reply.first) == 4;
            let over = run.done || waited && elapsed >= 10_000_000_000;
            &&& job is Start <==> run.phase is Fresh
            &&& job is Call <==> run.phase is Starting
            &&& job matches PerfJob::Call(call) ==> call == (UmcgCall {
                flags: 0,
                cmd: UmcgCmd::RegisterServer,
                next_tid: 0,
                abs_timeout: 0,
                event_sz: 0,
            })
            &&& job is AwaitWorker <==> run.phase is Registering && reply.ret == 0
            &&& job is Tell <==> (found || waited) && over
            &&& job is Switch <==> (found || waited) && !over || run.phase is Telling
            &&& job matches PerfJob::Switch(call) ==> call == (UmcgCall {
                flags: 0,
                cmd: UmcgCmd::CtxSwitch,
                next_tid: tid_of(next.worker_id),
                abs_timeout: 0,
                event_sz: 2,
            })
            &&& job is Join <==> left
            &&& job is Finish <==> run.phase is Joining || run.phase is Over
            &&& job is Fail <==> run.phase is Registering && reply.ret != 0
                || run.phase is AwaitingWorker && !found || run.phase is Switching && !waited
                || run.phase is Leaving && !left
            &&& next.worker_id == if found {
                worker_of(reply.first)
            } else {
                run.worker_id
            }
            &&& next.done == over
        }),
{
}

/// Where the server of the measurement is once it has a job.
pub proof fn law_perf_phase_follows_job(run: PerfRun, reply: CallReply, elapsed: u64)
    ensures
        ({
            let (next, job) = next_perf_job(run, reply, elapsed);
            match job {
                PerfJob::Start => next.phase is Starting,
                PerfJob::Call(_) => next.phase is Registering,
                PerfJob::AwaitWorker => next.phase is AwaitingWorker,
                PerfJob::Switch(_) => if run.phase is Telling {
                    next.phase is Leaving
                } else {
                    next.phase is Switching
                },
                PerfJob::Tell { .. } => next.phase is Telling,
                PerfJob::Join => next.phase is Joining,
                PerfJob::Finish | PerfJob::Fail => next.phase is Over,
            }
        }),
{
}

/// The worker of the measurement registers first, under its thread id moved five bits to the left;
/// after that it waits as long as the time is not over, gives up its registration once it is, and
/// stops after that. A call that did not return zero ends it at once.
pub proof fn law_perf_worker(tid: i32, ret: i32, done: bool)
    ensures
        next_perf_chore(PerfWorker::Fresh { tid }, ret, done) == (
            PerfWorker::Going,
            PerfJob::Call(
                UmcgCall {
                    flags: 0,
                    cmd: UmcgCmd::RegisterWorker,
                    next_tid: 0,
                    abs_timeout: (tid as u64) << 5,
                    event_sz: 0,
                },
            ),
        ),
        ret != 0 ==> next_perf_chore(PerfWorker::Going, ret, done) == (
            PerfWorker::Over,
            PerfJob::Fail,
        ),
        ret == 0 ==> next_perf_chore(PerfWorker::Going, ret, done).1 == PerfJob::Call(
            UmcgCall {
                flags: 0,
                cmd: if done {
                    UmcgCmd::Unregister
                } else {
                    UmcgCmd::Wait
                },
                next_tid: 0,
                abs_timeout: 0,
                event_sz: 0,
            },
        ),
        ret == 0 ==> (next_perf_chore(PerfWorker::Going, ret, done).0 is Leaving <==> done),
        ret == 0 && !done ==> next_perf_chore(PerfWorker::Going, ret, done).0 is Going,
        next_perf_chore(PerfWorker::Leaving, ret, done).0 is Over,
        next_perf_chore(PerfWorker::Leaving, ret, done).1 is Finish <==> ret == 0,
        next_perf_chore(PerfWorker::Leaving, ret, done).1 is Fail <==> ret != 0,
        next_perf_chore(PerfWorker::Over, ret, done) == (PerfWorker::Over, PerfJob::Finish),
{
    lemma_shifted_tid(tid);
}

/// A round of the thread that counts: it stores one, wakes the other thread, waits as long as the
/// word holds that one, and counts. Unless ten seconds are over it begins again; else it tells the
/// count, stores one and wakes the other thread a last time, waits for its end and stops.
pub proof fn law_futex_round(cycles: i64, a: u64, b: u64, c: u64, d: u64)
    requires
        cycles < i64::MAX,
    ensures
        ({
            let (stored, store) = next_futex_job(
                FutexRun { phase: FutexPhase::AtHead, cycles },
                a,
            );
            let (woken, wake) = next_futex_job(stored, b);
            let (waited, wait) = next_futex_job(woken, c);
            let (next, job) = next_futex_job(waited, d);
            &&& store == FutexJob::Store(1)
            &&& wake is Wake
            &&& wait == FutexJob::Wait(1)
            &&& d < 10_000_000_000 ==> {
                &&& job == FutexJob::Store(1)
                &&& next == (FutexRun { cycles: (cycles + 1) as i64, ..stored })
            }
            &&& d >= 10_000_000_000 ==> {
                let (again, last) = next_futex_job(next, a);
                let (released, release) = next_futex_job(again, b);
                let (joined, join) = next_futex_job(released, c);
                &&& job == (FutexJob::Tell { cycles: (cycles + 1) as i64 })
                &&& last == FutexJob::Store(1)
                &&& release is Wake
                &&& join is Join
                &&& next_futex_job(joined, d) == (joined, FutexJob::Finish)
            }
        }),
{
}

/// A round of the other thread: unless the measurement is over it waits as long as the word holds
/// zero, stores zero and wakes the thread that counts, and is where it was; it looks whether the
/// measurement is over at no other time.
pub proof fn law_echo_round(done: bool, b: bool, c: bool)
    ensures
        ({
            let (waited, wait) = next_echo_job(FutexEcho::AtHead, done);
            let (stored, store) = next_echo_job(waited, b);
            let (next, wake) = next_echo_job(stored, c);
            &&& done ==> waited is AtHead && wait is Finish
            &&& !done ==> {
                &&& wait == FutexJob::Wait(0)
                &&& store == FutexJob::Store(0)
                &&& wake is Wake
                &&& next is AtHead
            }
        }),
{
}

} // verus!
