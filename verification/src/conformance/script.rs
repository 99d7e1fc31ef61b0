//! A script of calls: what to call one after the other, with what has to come back.

use crate::conformance::check::{
    is_event, is_met, law_only_its_own_event, umcg_assert_worker_event,
    umcg_ctxsw_assert_worker_event, umcg_wait_any_worker, CallReply, Want,
};
use crate::umcg::{
    event_code, event_tid, event_word, kind_of, law_event_round_trip, law_words_by_bits,
    lemma_shifted_tid, tid_of, worker_id, worker_id_of, worker_of, UmcgCall, UmcgCmd,
    UmcgEventType,
};
use vstd::prelude::*;

verus! {

/// The thread that a call names.
#[derive(Debug, Copy, Clone, PartialEq, Eq, Structural)]
pub enum Target {
    /// None.
    Nobody,
    /// The thread that makes the call.
    Own,
    /// The first worker that was noted.
    FirstWorker,
    /// The second worker that was noted.
    SecondWorker,
    /// The thread with this id.
    Thread(i32),
}

/// The time limit that a call names, or what stands in its place.
#[derive(Debug, Copy, Clone, PartialEq, Eq, Structural)]
pub enum Limit {
    /// This number.
    Number(u64),
    /// The time at which the call is made, in nanoseconds.
    Now,
    /// The worker id of the thread that makes the call.
    OwnWorkerId,
}

/// Whom a script starts.
#[derive(Debug, Copy, Clone, PartialEq, Eq, Structural)]
pub enum Helper {
    BlockingWorker,
    WaitTimeoutWorker,
    DummyWorker,
    SwitchTimeoutWorker,
    PreemptedWorker,
    ExitingWorker,
    IdleServer,
}

/// What a step of a script does.
#[derive(Debug, Copy, Clone, PartialEq, Eq, Structural)]
pub enum Act {
    /// Make a call, with or without a buffer of two events, which may differ from the number of
    /// events that the call claims room for.
    Call { cmd: UmcgCmd, target: Target, limit: Limit, buffer: bool, event_sz: i32 },
    /// Wait, again after each interruption, with room for two events or without.
    WaitRetry { target: Target, buffer: bool },
    /// Start another thread, and tell it the first worker that was noted.
    Start(Helper),
    /// Wait for the end of a thread that was started: the earliest one that was not waited for.
    Join,
    /// Let the worker that spins go.
    Release,
    /// Spin until let go.
    Spin,
    /// Sleep.
    Sleep { micros: u64 },
}

/// What a step looks at in the events that came back.
#[derive(Debug, Copy, Clone, PartialEq, Eq, Structural)]
pub enum Look {
    /// Nothing.
    Nothing,
    /// There is one event, of this kind; its worker is noted as the first one.
    NoteFirst(UmcgEventType),
    /// There is one event, of this kind; its worker is noted as the second one.
    NoteSecond(UmcgEventType),
    /// There is one event, of this kind, about the first worker that was noted.
    First(UmcgEventType),
    /// There is one event, of this kind, about the second worker that was noted.
    Second(UmcgEventType),
    /// There is an event of this kind about the second worker that was noted; if there is another
    /// one it is of that kind and about that worker too.
    SecondAndPerhaps(UmcgEventType, UmcgEventType),
    /// There is no event.
    Silence,
}

/// A step of a script. One that is `patient` is done again for as long as it does not return zero.
#[derive(Debug, Copy, Clone, PartialEq, Eq, Structural)]
pub struct Step {
    pub act: Act,
    pub want: Want,
    pub look: Look,
    pub patient: bool,
}

/// The workers that a script noted.
#[derive(Debug, Copy, Clone, PartialEq, Eq, Structural)]
pub struct Notes {
    pub first: u64,
    pub second: u64,
}

/// What the thread that goes through a script does next.
#[derive(Debug, Copy, Clone, PartialEq, Eq, Structural)]
pub enum Todo {
    /// Make this call.
    Call { call: UmcgCall, buffer: bool },
    /// Wait for this worker, or for any if it is zero, again after each interruption.
    WaitRetry { worker_id: u64, buffer: bool },
    /// Start another thread, and tell it the first worker that was noted.
    Start { helper: Helper, worker_id: u64 },
    Join,
    Release,
    Spin,
    Sleep { micros: u64 },
    /// Everything was as wanted.
    Pass,
    /// The step with this number was not as wanted.
    Fail { step: usize },
}

/// A script that is gone through by the thread `tid`: its steps, the number of those that were
/// begun, and what was noted. Once a step was not as wanted the script is broken.
#[derive(Debug)]
pub struct Script {
    pub steps: Vec<Step>,
    pub begun: usize,
    pub tid: i32,
    pub notes: Notes,
    pub broken: bool,
}

/// The thread id that a call names.
pub open spec fn target_tid(target: Target, tid: i32, notes: Notes) -> i32 {
    match target {
        Target::Nobody => 0,
        Target::Own => tid,
        Target::FirstWorker => tid_of(notes.first),
        Target::SecondWorker => tid_of(notes.second),
        Target::Thread(thread) => thread,
    }
}

/// The worker that a wait names.
pub open spec fn target_worker(target: Target, notes: Notes) -> u64 {
    match target {
        Target::FirstWorker => notes.first,
        Target::SecondWorker => notes.second,
        _ => 0,
    }
}

/// The time limit that a call names.
pub open spec fn limit_of(limit: Limit, tid: i32, now: u64) -> u64 {
    match limit {
        Limit::Number(number) => number,
        Limit::Now => now,
        Limit::OwnWorkerId => worker_id_of(tid),
    }
}

/// What a step does, for this thread, these notes and this time.
pub open spec fn todo_of(act: Act, tid: i32, notes: Notes, now: u64) -> Todo {
    match act {
        Act::Call { cmd, target, limit, buffer, event_sz } => Todo::Call {
            call: UmcgCall {
                flags: 0,
                cmd,
                next_tid: target_tid(target, tid, notes),
                abs_timeout: limit_of(limit, tid, now),
                event_sz,
            },
            buffer,
        },
        Act::WaitRetry { target, buffer } => Todo::WaitRetry {
            worker_id: target_worker(target, notes),
            buffer,
        },
        Act::Start(helper) => Todo::Start { helper, worker_id: notes.first },
        Act::Join => Todo::Join,
        Act::Release => Todo::Release,
        Act::Spin => Todo::Spin,
        Act::Sleep { micros } => Todo::Sleep { micros },
    }
}

/// The events that came back are as wanted.
pub open spec fn is_seen(look: Look, notes: Notes, reply: CallReply) -> bool {
    match look {
        Look::Nothing => true,
        Look::NoteFirst(kind) => kind_of(reply.first) == event_code(kind) && reply.second == 0,
        Look::NoteSecond(kind) => kind_of(reply.first) == event_code(kind) && reply.second == 0,
        Look::First(kind) => is_event(reply.first, notes.first, kind) && reply.second == 0,
        Look::Second(kind) => is_event(reply.first, notes.second, kind) && reply.second == 0,
        Look::SecondAndPerhaps(kind, other) => is_event(reply.first, notes.second, kind) && (
        reply.second == 0 || is_event(reply.second, notes.second, other)),
        Look::Silence => reply.first == 0,
    }
}

/// The notes once these events came back.
pub open spec fn noted(look: Look, notes: Notes, reply: CallReply) -> Notes {
    match look {
        Look::NoteFirst(_) => Notes { first: worker_of(reply.first), ..notes },
        Look::NoteSecond(_) => Notes { second: worker_of(reply.first), ..notes },
        _ => notes,
    }
}

/// A step came back as wanted.
pub open spec fn step_ok(step: Step, notes: Notes, reply: CallReply) -> bool {
    is_met(step.want, reply) && is_seen(step.look, notes, reply)
}

impl Script {
    /// A script whose first step is yet to come.
    pub fn new(steps: Vec<Step>, tid: i32, worker_id: u64) -> (r: Script)
        ensures
            r.steps@ == steps@,
            r.begun == 0,
            r.tid == tid,
            r.notes == (Notes { first: worker_id, second: 0 }),
            !r.broken,
            r.wf(),
    {
        Script {
            steps,
            begun: 0,
            tid,
            notes: Notes { first: worker_id, second: 0 },
            broken: false,
        }
    }

    /// What holds of every script.
    pub open spec fn wf(&self) -> bool {
        self.begun <= self.steps@.len()
    }

    fn todo(&self, act: Act, now: u64) -> (r: Todo)
        ensures
            r == todo_of(act, self.tid, self.notes, now),
    {
        match act {
            Act::Call { cmd, target, limit, buffer, event_sz } => {
                let next_tid = match target {
                    Target::Nobody => 0,
                    Target::Own => self.tid,
                    Target::FirstWorker => event_tid(self.notes.first),
                    Target::SecondWorker => event_tid(self.notes.second),
                    Target::Thread(thread) => thread,
                };
                let abs_timeout = match limit {
                    Limit::Number(number) => number,
                    Limit::Now => now,
                    Limit::OwnWorkerId => worker_id(self.tid),
                };
                Todo::Call {
                    call: UmcgCall { flags: 0, cmd, next_tid, abs_timeout, event_sz },
                    buffer,
                }
            },
            Act::WaitRetry { target, buffer } => {
                let worker_id = match target {
                    Target::FirstWorker => self.notes.first,
                    Target::SecondWorker => self.notes.second,
                    _ => 0,
                };
                Todo::WaitRetry { worker_id, buffer }
            },
            Act::Start(helper) => Todo::Start { helper, worker_id: self.notes.first },
            Act::Join => Todo::Join,
            Act::Release => Todo::Release,
            Act::Spin => Todo::Spin,
            Act::Sleep { micros } => Todo::Sleep { micros },
        }
    }

    /// Looks at the events of a step that returned what was wanted of it; says whether they are as
    /// wanted, and notes the worker if there is one to note.
    fn look(&mut self, look: Look, reply: &CallReply) -> (r: bool)
        ensures
            r == is_seen(look, old(self).notes, *reply),
            *final(self) == (Script {
                notes: if r {
                    noted(look, old(self).notes, *reply)
                } else {
                    old(self).notes
                },
                ..*old(self)
            }),
    {
        let quiet = CallReply { ret: 0, errno: 0, first: reply.first, second: reply.second };
        match look {
            Look::Nothing => true,
            Look::NoteFirst(kind) => match umcg_wait_any_worker(&quiet, kind) {
                Some(worker) => {
                    self.notes = Notes { first: worker, second: self.notes.second };
                    true
                },
                None => false,
            },
            Look::NoteSecond(kind) => match umcg_wait_any_worker(&quiet, kind) {
                Some(worker) => {
                    self.notes = Notes { first: self.notes.first, second: worker };
                    true
                },
                None => false,
            },
            Look::First(kind) => umcg_ctxsw_assert_worker_event(&quiet, self.notes.first, kind),
            Look::Second(kind) => umcg_ctxsw_assert_worker_event(&quiet, self.notes.second, kind),
            Look::SecondAndPerhaps(kind, other) => umcg_assert_worker_event(
                reply.first,
                self.notes.second,
                kind,
            ) && (reply.second == 0 || umcg_assert_worker_event(
                reply.second,
                self.notes.second,
                other,
            )),
            Look::Silence => reply.first == 0,
        }
    }

    /// Takes in what came of the last step, at the time `now` in nanoseconds, and says what to do
    /// next. The first reply is not read.
    pub fn step(&mut self, reply: &CallReply, now: u64) -> (r: Todo)
        requires
            old(self).wf(),
        ensures
            final(self).wf(),
            final(self).steps@ == old(self).steps@,
            final(self).tid == old(self).tid,
            advanced(old(self), *reply, now, final(self), r),
    {
        if self.broken {
            return Todo::Fail { step: self.begun };
        }
        if self.begun > 0 {
            let last = self.steps[self.begun - 1];
            if !last.want.met(reply) || !self.look(last.look, reply) {
                self.broken = true;
                return Todo::Fail { step: self.begun };
            }
            if last.patient && reply.ret != 0 {
                return self.todo(last.act, now);
            }
        }
        if self.begun < self.steps.len() {
            let next = self.steps[self.begun];
            self.begun = self.begun + 1;
            self.todo(next.act, now)
        } else {
            Todo::Pass
        }
    }
}

/// A script went on from `before` to `after`, with this to do. The last step, if there was one, is
/// held against what came back; if it was not as wanted the script is broken for good, and else the
/// next step is begun, or the last one again if it is patient and did not return zero.
pub open spec fn advanced(
    before: &Script,
    reply: CallReply,
    now: u64,
    after: &Script,
    todo: Todo,
) -> bool {
    let last = before.steps@[before.begun - 1];
    let started = before.begun > 0;
    if before.broken || started && !step_ok(last, before.notes, reply) {
        &&& after.broken
        &&& after.begun == before.begun
        &&& after.notes == before.notes
        &&& todo == (Todo::Fail { step: before.begun })
    } else {
        let notes = if started {
            noted(last.look, before.notes, reply)
        } else {
            before.notes
        };
        &&& !after.broken
        &&& after.notes == notes
        &&& if started && last.patient && reply.ret != 0 {
            after.begun == before.begun && todo == todo_of(last.act, before.tid, notes, now)
        } else if before.begun < before.steps@.len() {
            &&& after.begun == before.begun + 1
            &&& todo == todo_of(
                before.steps@[before.begun as int].act,
                before.tid,
                notes,
                now,
            )
        } else {
            after.begun == before.begun && todo is Pass
        }
    }
}

/// A script passes only after its last step came back as wanted, and fails exactly if a step did
/// not.
pub proof fn law_script_passes_last(
    before: &Script,
    reply: CallReply,
    now: u64,
    after: &Script,
    todo: Todo,
)
    requires
        before.wf(),
        !before.broken,
        advanced(before, reply, now, after, todo),
    ensures
        todo is Pass ==> before.begun == before.steps@.len() && (before.begun > 0 ==> step_ok(
            before.steps@.last(),
            before.notes,
            reply,
        )),
        todo is Fail <==> before.begun > 0 && !step_ok(
            before.steps@[before.begun - 1],
            before.notes,
            reply,
        ),
{
}

/// A script that failed stays so, whatever comes back afterwards.
pub proof fn law_failed_script_stays_failed(
    before: &Script,
    reply: CallReply,
    now: u64,
    after: &Script,
    todo: Todo,
)
    requires
        before.broken,
        advanced(before, reply, now, after, todo),
    ensures
        after.broken,
        todo is Fail,
{
}

/// What a step that makes a call calls: the command, the thread and the time limit that the step
/// names, without flags, with the room for events that it claims. A thread that was noted as a
/// worker is called by the thread id out of its worker id.
pub proof fn law_calls_as_written(
    cmd: UmcgCmd,
    target: Target,
    limit: Limit,
    buffer: bool,
    event_sz: i32,
    tid: i32,
    notes: Notes,
    now: u64,
)
    ensures
        todo_of(Act::Call { cmd, target, limit, buffer, event_sz }, tid, notes, now) matches
            Todo::Call { call, buffer: given } && {
            &&& given == buffer
            &&& call.flags == 0
            &&& call.cmd == cmd
            &&& call.event_sz == event_sz
            &&& target is Nobody ==> call.next_tid == 0
            &&& target is Own ==> call.next_tid == tid
            &&& target is FirstWorker ==> call.next_tid == tid_of(notes.first)
            &&& target is SecondWorker ==> call.next_tid == tid_of(notes.second)
            &&& target matches Target::Thread(thread) ==> call.next_tid == thread
            &&& limit is Now ==> call.abs_timeout == now
            &&& limit is OwnWorkerId ==> call.abs_timeout == (tid as u64) << 5
            &&& limit matches Limit::Number(number) ==> call.abs_timeout == number
        },
{
    lemma_shifted_tid(tid);
}

/// What the other steps do: a wait names the worker that was noted, or none; a thread that is
/// started is told the first worker that was noted; and the rest is done as it is written.
pub proof fn law_acts_as_written(target: Target, buffer: bool, tid: i32, notes: Notes, now: u64)
    ensures
        todo_of(Act::WaitRetry { target, buffer }, tid, notes, now) == (Todo::WaitRetry {
            worker_id: if target is FirstWorker {
                notes.first
            } else if target is SecondWorker {
                notes.second
            } else {
                0
            },
            buffer,
        }),
        forall|helper: Helper| #[trigger]
            todo_of(Act::Start(helper), tid, notes, now) == (Todo::Start {
                helper,
                worker_id: notes.first,
            }),
        todo_of(Act::Join, tid, notes, now) is Join,
        todo_of(Act::Release, tid, notes, now) is Release,
        todo_of(Act::Spin, tid, notes, now) is Spin,
        forall|micros: u64| #[trigger]
            todo_of(Act::Sleep { micros }, tid, notes, now) == (Todo::Sleep { micros }),
{
}

/// Which events a step lets pass, where the worker `tid` has been noted as the first one and
/// `other` as the second. A step that notes a worker or looks for one wants one event, of the
/// kind it says; a step that allows for a second event wants it of the other kind and about the
/// same worker.
pub proof fn law_looks(
    tid: i32,
    other: i32,
    kind: UmcgEventType,
    later: UmcgEventType,
    reply: CallReply,
)
    ensures
        ({
            let notes = Notes { first: worker_id_of(tid), second: worker_id_of(other) };
            &&& is_seen(Look::Nothing, notes, reply)
            &&& is_seen(Look::Silence, notes, reply) <==> reply.first == 0
            &&& is_seen(Look::First(kind), notes, reply) <==> reply.first == event_word(tid, kind)
                && reply.second == 0
            &&& is_seen(Look::Second(kind), notes, reply) <==> reply.first == event_word(
                other,
                kind,
            ) && reply.second == 0
            &&& is_seen(Look::SecondAndPerhaps(kind, later), notes, reply) <==> reply.first
                == event_word(other, kind) && (reply.second == 0 || reply.second == event_word(
                other,
                later,
            ))
            &&& is_seen(Look::NoteFirst(kind), notes, reply) <==> reply.first & 31 == event_code(
                kind,
            ) && reply.second == 0
            &&& is_seen(Look::NoteSecond(kind), notes, reply) <==> is_seen(
                Look::NoteFirst(kind),
                notes,
                reply,
            )
        }),
{
    law_only_its_own_event(tid, kind, reply.first);
    law_only_its_own_event(other, kind, reply.first);
    law_only_its_own_event(other, later, reply.second);
    law_words_by_bits(reply.first, tid);
}

/// What is noted: a step that notes the first worker notes the one of the event and keeps the
/// second, and the other way round; no other step changes the notes.
pub proof fn law_notes(tid: i32, kind: UmcgEventType, look: Look, notes: Notes, reply: CallReply)
    requires
        reply.first == event_word(tid, kind),
    ensures
        ({
            let after = noted(look, notes, reply);
            &&& after.first == if look is NoteFirst {
                worker_id_of(tid)
            } else {
                notes.first
            }
            &&& after.second == if look is NoteSecond {
                worker_id_of(tid)
            } else {
                notes.second
            }
        }),
{
    law_event_round_trip(tid, kind);
}

/// How a script goes on: the steps are begun one after the other, none is left out, and one is done
/// again exactly if it is patient and what it wants allows the number other than zero that it
/// returned. What a step does is read with the notes as they are once the step before it came back.
/// The script passes exactly if its last step was as wanted and is not done again; it fails exactly
/// if a step was not as wanted, and says which.
pub proof fn law_script_goes_on(
    before: &Script,
    reply: CallReply,
    now: u64,
    after: &Script,
    todo: Todo,
)
    requires
        before.wf(),
        !before.broken,
        advanced(before, reply, now, after, todo),
    ensures
        ({
            let begun = before.begun;
            let last = before.steps@[begun - 1];
            let good = begun > 0 ==> is_met(last.want, reply) && is_seen(
                last.look,
                before.notes,
                reply,
            );
            let again = begun > 0 && last.patient && reply.ret != 0;
            &&& after.broken <==> !good
            &&& todo == (Todo::Fail { step: begun }) <==> !good
            &&& todo is Fail <==> !good
            &&& todo is Pass <==> good && !again && begun == before.steps@.len()
            &&& after.begun == if good && !again && begun < before.steps@.len() {
                begun + 1
            } else {
                begun as int
            }
            &&& good && again ==> todo == todo_of(last.act, before.tid, after.notes, now)
            &&& good && !again && begun < before.steps@.len() ==> todo == todo_of(
                before.steps@[begun as int].act,
                before.tid,
                after.notes,
                now,
            )
            &&& after.notes == if begun > 0 && good {
                noted(last.look, before.notes, reply)
            } else {
                before.notes
            }
        }),
{
    let begun = before.begun;
    if begun < before.steps@.len() {
        assert(todo_of(before.steps@[begun as int].act, before.tid, after.notes, now) !is Pass);
        assert(todo_of(before.steps@[begun as int].act, before.tid, after.notes, now) !is Fail);
    }
}

} // verus!
