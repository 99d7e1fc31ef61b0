//! The decisions of the demonstrations: when to stop waiting for tasks, and what a server and its
//! three workers do that show one another off.

use crate::text::{decimal, push_decimal};
use crate::umcg::{
    event_kind, kind_of, lemma_shifted_tid, plain_call, registration, UmcgCall, UmcgCmd,
};
use vstd::prelude::*;

verus! {

/// How long tasks are waited for, in nanoseconds.
pub const COMPLETION_TIMEOUT_NS: u64 = 30_000_000_000;

/// How long the demonstration with three workers lasts, in nanoseconds.
pub const DEMO_DURATION_NS: u64 = 10_000_000_000;

/// How the wait for the completion of all tasks goes on.
#[derive(Debug, Copy, Clone, PartialEq, Eq, Structural)]
pub enum PollStep {
    /// All tasks are done.
    Done,
    /// The time is over.
    TimedOut,
    /// Look again after a while.
    Wait,
}

/// Says how the wait goes on, `elapsed` nanoseconds after it began.
pub fn poll_completion(all_done: bool, elapsed: u64) -> (r: PollStep)
    ensures
        r == (if all_done {
            PollStep::Done
        } else if elapsed > COMPLETION_TIMEOUT_NS {
            PollStep::TimedOut
        } else {
            PollStep::Wait
        }),
{
    if all_done {
        PollStep::Done
    } else if elapsed > COMPLETION_TIMEOUT_NS {
        PollStep::TimedOut
    } else {
        PollStep::Wait
    }
}

/// Whether progress is told of, `elapsed` nanoseconds after the wait began: in every fifth second.
pub fn progress_due(elapsed: u64) -> (r: bool)
    ensures
        r == ((elapsed / 1_000_000_000) % 5 == 0),
{
    elapsed / 1_000_000_000 % 5 == 0
}

/// The three workers.
#[derive(Debug, Copy, Clone, PartialEq, Eq, Structural)]
pub enum DemoKind {
    A,
    B,
    C,
}

/// What a worker does next.
#[derive(Debug, Copy, Clone, PartialEq, Eq, Structural)]
pub enum DemoChore {
    /// Make this call; it has to return zero.
    Call(UmcgCall),
    /// Count the worker as one that is there.
    CountUp,
    /// Print a dot if one is due, and let the server go on if that is due.
    Spin { dot: bool, yields: bool },
    /// Print the worker's name and sleep.
    Sleep { seconds: u64 },
    /// Count the worker as one that is gone.
    CountDown,
    /// Stop.
    Finish,
    /// Give up, since a call returned this.
    Fail { ret: i32 },
}

/// How far a worker has come.
#[derive(Debug, Copy, Clone, PartialEq, Eq, Structural)]
pub enum DemoPhase {
    Fresh,
    Registering,
    Beating,
    Leaving,
    Unregistering,
    Over,
}

/// A worker.
#[derive(Debug, Copy, Clone, PartialEq, Eq, Structural)]
pub struct DemoWorker {
    pub kind: DemoKind,
    pub tid: i32,
    pub beats: u64,
    pub phase: DemoPhase,
}

/// What a worker does in one round: the first spins, with a dot in every millionth round and a
/// pause in every ten millionth, the first round included; the others sleep for one and for two
/// seconds.
pub open spec fn beat(kind: DemoKind, beats: u64) -> DemoChore {
    match kind {
        DemoKind::A => DemoChore::Spin {
            dot: beats % 1_000_000 == 0,
            yields: beats % 10_000_000 == 0,
        },
        DemoKind::B => DemoChore::Sleep { seconds: 1 },
        DemoKind::C => DemoChore::Sleep { seconds: 2 },
    }
}

/// The worker's next round, or its end if the demonstration is over.
pub open spec fn next_beat(worker: DemoWorker, done: bool) -> (DemoWorker, DemoChore) {
    if done {
        (DemoWorker { phase: DemoPhase::Leaving, ..worker }, DemoChore::CountDown)
    } else {
        (
            DemoWorker {
                phase: DemoPhase::Beating,
                beats: vstd::wrapping::u64_specs::wrapping_add(worker.beats, 1),
                ..worker
            },
            beat(worker.kind, worker.beats),
        )
    }
}

/// The worker's next chore, and the worker as it is then. `ret` is what the last chore returned,
/// which is zero but for calls and pauses.
pub open spec fn next_demo_chore(worker: DemoWorker, ret: i32, done: bool) -> (
    DemoWorker,
    DemoChore,
) {
    let failed = (DemoWorker { phase: DemoPhase::Over, ..worker }, DemoChore::Fail { ret });
    match worker.phase {
        DemoPhase::Fresh => (
            DemoWorker { phase: DemoPhase::Registering, ..worker },
            DemoChore::Call(registration(worker.tid)),
        ),
        DemoPhase::Registering => if ret != 0 {
            failed
        } else {
            (DemoWorker { phase: DemoPhase::Beating, ..worker }, DemoChore::CountUp)
        },
        DemoPhase::Beating => if ret != 0 {
            failed
        } else {
            next_beat(worker, done)
        },
        DemoPhase::Leaving => (
            DemoWorker { phase: DemoPhase::Unregistering, ..worker },
            DemoChore::Call(plain_call(UmcgCmd::Unregister)),
        ),
        DemoPhase::Unregistering => if ret != 0 {
            failed
        } else {
            (DemoWorker { phase: DemoPhase::Over, ..worker }, DemoChore::Finish)
        },
        DemoPhase::Over => (worker, DemoChore::Finish),
    }
}

impl DemoWorker {
    /// A worker that has not begun.
    pub fn new(kind: DemoKind, tid: i32) -> (r: DemoWorker)
        ensures
            r == (DemoWorker { kind, tid, beats: 0, phase: DemoPhase::Fresh }),
    {
        DemoWorker { kind, tid, beats: 0, phase: DemoPhase::Fresh }
    }

    /// Takes in what came of the last chore, and whether the demonstration is over, and says what
    /// to do next. The first return value is not read.
    pub fn step(&mut self, ret: i32, done: bool) -> (r: DemoChore)
        ensures
            (*final(self), r) == next_demo_chore(*old(self), ret, done),
    {
        match self.phase {
            DemoPhase::Fresh => {
                self.phase = DemoPhase::Registering;
                DemoChore::Call(UmcgCall::registration(self.tid))
            },
            DemoPhase::Registering => {
                if ret != 0 {
                    self.phase = DemoPhase::Over;
                    return DemoChore::Fail { ret };
                }
                self.phase = DemoPhase::Beating;
                DemoChore::CountUp
            },
            DemoPhase::Beating => {
                if ret != 0 {
                    self.phase = DemoPhase::Over;
                    return DemoChore::Fail { ret };
                }
                if done {
                    self.phase = DemoPhase::Leaving;
                    return DemoChore::CountDown;
                }
                let beats = self.beats;
                self.beats = beats.wrapping_add(1);
                match self.kind {
                    DemoKind::A => DemoChore::Spin {
                        dot: beats % 1_000_000 == 0,
                        yields: beats % 10_000_000 == 0,
                    },
                    DemoKind::B => DemoChore::Sleep { seconds: 1 },
                    DemoKind::C => DemoChore::Sleep { seconds: 2 },
                }
            },
            DemoPhase::Leaving => {
                self.phase = DemoPhase::Unregistering;
                DemoChore::Call(UmcgCall::plain(UmcgCmd::Unregister))
            },
            DemoPhase::Unregistering => {
                self.phase = DemoPhase::Over;
                if ret != 0 {
                    DemoChore::Fail { ret }
                } else {
                    DemoChore::Finish
                }
            },
            DemoPhase::Over => DemoChore::Finish,
        }
    }
}

/// The line that is printed for an event: wake-ups and waits are told by their kind alone.
pub open spec fn event_line_of(event: u64) -> Seq<char> {
    if kind_of(event) == 2 || kind_of(event) == 3 {
        "Worker event: "@ + decimal(kind_of(event) as nat)
    } else {
        "Worker tid "@ + decimal((event / 32) as nat) + ", event "@ + decimal(
            kind_of(event) as nat,
        )
    }
}

/// The line that is printed for an event.
pub fn event_line(event: u64) -> (r: String)
    ensures
        r@ == event_line_of(event),
{
    let kind = event_kind(event);
    if kind == 2 || kind == 3 {
        let mut line = String::from_str("Worker event: ");
        push_decimal(&mut line, kind);
        line
    } else {
        let mut line = String::from_str("Worker tid ");
        assert(event >> 5 == event / 32) by (bit_vector);
        push_decimal(&mut line, event >> 5);
        line.append(", event ");
        push_decimal(&mut line, kind);
        line
    }
}

/// How many events there are in front of the first zero.
pub open spec fn leading(events: Seq<u64>) -> nat
    decreases events.len(),
{
    if events.len() == 0 || events[0] == 0 {
        0
    } else {
        1 + leading(events.drop_first())
    }
}

/// The lines that are printed for the events in front of the first zero.
pub fn event_lines(events: &[u64; 6]) -> (r: Vec<String>)
    ensures
        r@.len() == leading(events@),
        forall|i: int| 0 <= i < r@.len() ==> (#[trigger] r@[i])@ == event_line_of(events@[i]),
{
    let mut lines: Vec<String> = Vec::new();
    let mut index: usize = 0;
    assert(events@.skip(0) =~= events@);
    while index < 6 && events[index] != 0
        invariant
            index <= 6,
            events@.len() == 6,
            lines@.len() == index,
            index + leading(events@.skip(index as int)) == leading(events@),
            forall|i: int|
                0 <= i < lines@.len() ==> (#[trigger] lines@[i])@ == event_line_of(events@[i]),
        decreases 6 - index,
    {
        lines.push(event_line(events[index]));
        assert(events@.skip(index as int).drop_first() =~= events@.skip(index + 1));
        index = index + 1;
    }
    lines
}

/// What the server of the demonstration does next.
#[derive(Debug)]
pub enum DemoJob {
    /// Register; it has to return zero.
    Register(UmcgCall),
    /// Start a worker.
    Start(DemoKind),
    /// Wait for any worker's event, again after each interruption, with room for six events.
    Wait,
    /// Print these lines, and let the workers know whether the demonstration is over.
    Tell { lines: Vec<String>, done: bool },
    /// Wait for the end of all workers.
    Join,
    /// End with this exit code.
    Finish { code: i32 },
    /// Give up, since the registration returned this.
    Fail { ret: i32 },
}

/// How far the server has come.
#[derive(Debug, Copy, Clone, PartialEq, Eq, Structural)]
pub enum DemoServerPhase {
    Fresh,
    Registering,
    StartedA,
    StartedB,
    AtHead,
    Waiting,
    Joining,
    Over,
}

/// The server of the demonstration.
#[derive(Debug)]
pub struct DemoServer {
    pub phase: DemoServerPhase,
    pub done: bool,
}

/// One step of the server: `ret` and `events` are what the last job returned, `workers` the number
/// of workers that are there, and `elapsed` the time since they were started, in nanoseconds. The
/// server waits for events until the time is over and all workers are gone; a wait that fails ends
/// it at once.
pub open spec fn demo_step(
    before: &DemoServer,
    ret: i32,
    events: [u64; 6],
    workers: i32,
    elapsed: u64,
    after: &DemoServer,
    job: DemoJob,
) -> bool {
    &&& before.phase !is Waiting ==> after.done == before.done
    &&& match before.phase {
        DemoServerPhase::Fresh => after.phase is Registering && job == DemoJob::Register(
            plain_call(UmcgCmd::RegisterServer),
        ),
        DemoServerPhase::Registering => if ret != 0 {
            after.phase is Over && job == (DemoJob::Fail { ret })
        } else {
            after.phase is StartedA && job == DemoJob::Start(DemoKind::A)
        },
        DemoServerPhase::StartedA => after.phase is StartedB && job == DemoJob::Start(
            DemoKind::B,
        ),
        DemoServerPhase::StartedB => after.phase is AtHead && job == DemoJob::Start(DemoKind::C),
        DemoServerPhase::AtHead => if before.done && workers == 0 {
            after.phase is Joining && job is Join
        } else {
            after.phase is Waiting && job is Wait
        },
        DemoServerPhase::Waiting => if ret != 0 {
            after.phase is Over && after.done == before.done && job == (DemoJob::Finish {
                code: (-1) as i32,
            })
        } else {
            &&& after.phase is AtHead
            &&& after.done == (before.done || elapsed >= DEMO_DURATION_NS)
            &&& job matches DemoJob::Tell { lines, done } && done == after.done && lines@.len()
                == leading(events@) && forall|i: int|
                0 <= i < lines@.len() ==> (#[trigger] lines@[i])@ == event_line_of(events@[i])
        },
        DemoServerPhase::Joining => after.phase is Over && job == (DemoJob::Finish { code: 0 }),
        DemoServerPhase::Over => after.phase is Over && job == (DemoJob::Finish { code: 0 }),
    }
}

impl DemoServer {
    /// A server that has not begun.
    pub fn new() -> (r: DemoServer)
        ensures
            r.phase is Fresh,
            !r.done,
    {
        DemoServer { phase: DemoServerPhase::Fresh, done: false }
    }

    /// Takes in what came of the last job and says what to do next. The first return value is not
    /// read.
    pub fn step(&mut self, ret: i32, events: [u64; 6], workers: i32, elapsed: u64) -> (job: DemoJob)
        ensures
            demo_step(old(self), ret, events, workers, elapsed, final(self), job),
    {
        match self.phase {
            DemoServerPhase::Fresh => {
                self.phase = DemoServerPhase::Registering;
                DemoJob::Register(UmcgCall::plain(UmcgCmd::RegisterServer))
            },
            DemoServerPhase::Registering => {
                if ret != 0 {
                    self.phase = DemoServerPhase::Over;
                    return DemoJob::Fail { ret };
                }
                self.phase = DemoServerPhase::StartedA;
                DemoJob::Start(DemoKind::A)
            },
            DemoServerPhase::StartedA => {
                self.phase = DemoServerPhase::StartedB;
                DemoJob::Start(DemoKind::B)
            },
            DemoServerPhase::StartedB => {
                self.phase = DemoServerPhase::AtHead;
                DemoJob::Start(DemoKind::C)
            },
            DemoServerPhase::AtHead => {
                if self.done && workers == 0 {
                    self.phase = DemoServerPhase::Joining;
                    DemoJob::Join
                } else {
                    self.phase = DemoServerPhase::Waiting;
                    DemoJob::Wait
                }
            },
            DemoServerPhase::Waiting => {
                if ret != 0 {
                    self.phase = DemoServerPhase::Over;
                    return DemoJob::Finish { code: -1 };
                }
                let lines = event_lines(&events);
                self.phase = DemoServerPhase::AtHead;
                if elapsed >= DEMO_DURATION_NS {
                    self.done = true;
                }
                DemoJob::Tell { lines, done: self.done }
            },
            DemoServerPhase::Joining => {
                self.phase = DemoServerPhase::Over;
                DemoJob::Finish { code: 0 }
            },
            DemoServerPhase::Over => DemoJob::Finish { code: 0 },
        }
    }
}

/// The server ends well only after the time was over and all workers were gone.
pub proof fn law_demo_waits_for_workers(
    before: &DemoServer,
    ret: i32,
    events: [u64; 6],
    workers: i32,
    elapsed: u64,
    after: &DemoServer,
    job: DemoJob,
)
    requires
        demo_step(before, ret, events, workers, elapsed, after, job),
    ensures
        job is Join ==> before.done && workers == 0,
        after.done ==> before.done || elapsed >= DEMO_DURATION_NS,
        before.done ==> after.done,
{
}

/// A worker counts itself as gone only after the demonstration is over, and gives up its
/// registration right after.
pub proof fn law_demo_worker_leaves(worker: DemoWorker, ret: i32, done: bool, next: i32)
    ensures
        next_demo_chore(worker, ret, done).1 is CountDown ==> done && next_demo_chore(
            next_demo_chore(worker, ret, done).0,
            next,
            done,
        ).1 == DemoChore::Call(plain_call(UmcgCmd::Unregister)),
{
}

/// How the wait for tasks goes on: it is over well exactly if all tasks are done, however long that
/// took, and badly exactly if they are not after more than thirty seconds.
pub proof fn law_wait_for_tasks(all_done: bool, elapsed: u64, step: PollStep, tell: bool)
    requires
        call_ensures(poll_completion, (all_done, elapsed), step),
        call_ensures(progress_due, (elapsed,), tell),
    ensures
        step is Done <==> all_done,
        step is TimedOut <==> !all_done && elapsed > 30_000_000_000,
        step is Wait <==> !all_done && elapsed <= 30_000_000_000,
        tell <==> exists|fifths: int|
            #![trigger 5_000_000_000 * fifths]
            5_000_000_000 * fifths <= elapsed < 5_000_000_000 * fifths + 1_000_000_000,
{
    let secs = (elapsed / 1_000_000_000) as int;
    if tell {
        let fifths = secs / 5;
        assert(5_000_000_000 * fifths <= elapsed < 5_000_000_000 * fifths + 1_000_000_000);
    }
    if exists|fifths: int|
        #![trigger 5_000_000_000 * fifths]
        5_000_000_000 * fifths <= elapsed < 5_000_000_000 * fifths + 1_000_000_000 {
        let fifths = choose|fifths: int|
            #![trigger 5_000_000_000 * fifths]
            5_000_000_000 * fifths <= elapsed < 5_000_000_000 * fifths + 1_000_000_000;
        assert(secs == 5 * fifths);
    }
}

/// What a worker does, and on which replies: it registers under its thread id moved five bits to
/// the left, counts itself, does its rounds until the demonstration is over, counts itself out,
/// gives up its registration and stops. It gives up exactly if a call or a pause did not return
/// zero, and says what it returned.
pub proof fn law_demo_worker_chores(worker: DemoWorker, ret: i32, done: bool)
    ensures
        ({
            let (next, chore) = next_demo_chore(worker, ret, done);
            let beats = worker.phase is Beating && ret == 0 && !done;
            &&& chore == DemoChore::Call(
                UmcgCall {
                    flags: 0,
                    cmd: UmcgCmd::RegisterWorker,
                    next_tid: 0,
                    abs_timeout: (worker.tid as u64) << 5,
                    event_sz: 0,
                },
            ) <==> worker.phase is Fresh
            &&& chore == DemoChore::Call(
                UmcgCall {
                    flags: 0,
                    cmd: UmcgCmd::Unregister,
                    next_tid: 0,
                    abs_timeout: 0,
                    event_sz: 0,
                },
            ) <==> worker.phase is Leaving
            &&& chore is CountUp <==> worker.phase is Registering && ret == 0
            &&& chore is CountDown <==> worker.phase is Beating && ret == 0 && done
            &&& chore is Spin <==> beats && worker.kind is A
            &&& chore is Sleep <==> beats && worker.kind !is A
            &&& chore matches DemoChore::Sleep { seconds } ==> seconds == if worker.kind is B {
                1u64
            } else {
                2
            }
            &&& chore matches DemoChore::Spin { dot, yields } ==> {
                &&& dot <==> worker.beats as int % 1_000_000 == 0
                &&& yields <==> worker.beats as int % 10_000_000 == 0
            }
            &&& chore is Finish <==> worker.phase is Over || worker.phase is Unregistering && ret
                == 0
            &&& chore is Fail <==> ret != 0 && (worker.phase is Registering
                || worker.phase is Beating || worker.phase is Unregistering)
            &&& chore matches DemoChore::Fail { ret: told } ==> told == ret
            &&& next.kind == worker.kind
            &&& next.tid == worker.tid
            &&& !beats ==> next.beats == worker.beats
            &&& beats ==> next.beats == (worker.beats + 1) % 0x1_0000_0000_0000_0000
        }),
{
    lemma_shifted_tid(worker.tid);
}

/// Where a worker is once it has a chore.
pub proof fn law_demo_worker_phase_follows_chore(worker: DemoWorker, ret: i32, done: bool)
    ensures
        ({
            let (next, chore) = next_demo_chore(worker, ret, done);
            match chore {
                DemoChore::Call(call) => if call.cmd == UmcgCmd::Unregister {
                    next.phase is Unregistering
                } else {
                    next.phase is Registering
                },
                DemoChore::CountUp | DemoChore::Spin { .. } | DemoChore::Sleep { .. } =>
                    next.phase is Beating,
                DemoChore::CountDown => next.phase is Leaving,
                DemoChore::Finish | DemoChore::Fail { .. } => next.phase is Over,
            }
        }),
{
}

/// The events that are told of are those in front of the first zero: none of them is zero, and
/// either all are told of or the next one is zero.
pub proof fn law_leading_events(events: Seq<u64>)
    ensures
        leading(events) <= events.len(),
        forall|i: int| 0 <= i < leading(events) ==> #[trigger] events[i] != 0,
        leading(events) < events.len() ==> events[leading(events) as int] == 0,
    decreases events.len(),
{
    if events.len() > 0 && events[0] != 0 {
        let rest = events.drop_first();
        law_leading_events(rest);
        assert forall|i: int| 0 <= i < leading(events) implies #[trigger] events[i] != 0 by {
            if i > 0 {
                assert(rest[i - 1] == events[i]);
            }
        }
        if leading(events) < events.len() {
            assert(rest[leading(rest) as int] == events[leading(events) as int]);
        }
    }
}

/// The line of an event says its kind, which is in the five low bits; the thread, which is in the
/// others, is said exactly if the kind is neither a wake-up nor a wait.
pub proof fn law_event_lines(event: u64)
    ensures
        event & 31 == 2 || event & 31 == 3 ==> event_line_of(event) == "Worker event: "@ + decimal(
            (event & 31) as nat,
        ),
        event & 31 != 2 && event & 31 != 3 ==> event_line_of(event) == "Worker tid "@ + decimal(
            (event >> 5) as nat,
        ) + ", event "@ + decimal((event & 31) as nat),
{
    assert(event & 31 == event % 32) by (bit_vector);
    assert(event >> 5 == event / 32) by (bit_vector);
}

/// What the server of the demonstration does, and on which replies: it registers, starts its three
/// workers one after the other, and then waits for events until the time is over and no worker is
/// there any more. Only a registration or a wait that did not return zero ends it otherwise.
pub proof fn law_demo_jobs(
    before: &DemoServer,
    ret: i32,
    events: [u64; 6],
    workers: i32,
    elapsed: u64,
    after: &DemoServer,
    job: DemoJob,
)
    requires
        demo_step(before, ret, events, workers, elapsed, after, job),
    ensures
        job is Register <==> before.phase is Fresh,
        job matches DemoJob::Register(call) ==> call == (UmcgCall {
            flags: 0,
            cmd: UmcgCmd::RegisterServer,
            next_tid: 0,
            abs_timeout: 0,
            event_sz: 0,
        }),
        job == DemoJob::Start(DemoKind::A) <==> before.phase is Registering && ret == 0,
        job == DemoJob::Start(DemoKind::B) <==> before.phase is StartedA,
        job == DemoJob::Start(DemoKind::C) <==> before.phase is StartedB,
        job is Wait <==> before.phase is AtHead && !(before.done && workers == 0),
        job is Join <==> before.phase is AtHead && before.done && workers == 0,
        job is Tell <==> before.phase is Waiting && ret == 0,
        job is Fail <==> before.phase is Registering && ret != 0,
        job matches DemoJob::Fail { ret: told } ==> told == ret,
        job == (DemoJob::Finish { code: (-1) as i32 }) <==> before.phase is Waiting && ret != 0,
        job == (DemoJob::Finish { code: 0 }) <==> before.phase is Joining || before.phase is Over,
        after.done == (before.done || before.phase is Waiting && ret == 0 && elapsed
            >= 10_000_000_000),
        job matches DemoJob::Tell { lines, done } ==> {
            &&& done == after.done
            &&& lines@.len() <= 6
            &&& lines@.len() < 6 ==> events[lines@.len() as int] == 0
            &&& forall|i: int|
                0 <= i < lines@.len() ==> events[i] != 0 && (#[trigger] lines@[i])@
                    == event_line_of(events[i])
        },
        match job {
            DemoJob::Register(_) => after.phase is Registering,
            DemoJob::Start(kind) => match kind {
                DemoKind::A => after.phase is StartedA,
                DemoKind::B => after.phase is StartedB,
                DemoKind::C => after.phase is AtHead,
            },
            DemoJob::Wait => after.phase is Waiting,
            DemoJob::Tell { .. } => after.phase is AtHead,
            DemoJob::Join => after.phase is Joining,
            DemoJob::Finish { .. } | DemoJob::Fail { .. } => after.phase is Over,
        },
{
    law_leading_events(events@);
}

} // verus!
