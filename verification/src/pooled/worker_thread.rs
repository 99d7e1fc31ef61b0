//! The life of a worker's thread: it registers, runs the functions it is sent, and waits in
//! between.
//!
//! [`WorkerThread`] decides what comes next; the thread does it and reports what came of it.

use crate::umcg::{lemma_shifted_tid, registration, UmcgCall, UmcgCmd};
use vstd::prelude::*;

verus! {

/// What a worker's thread finds when it looks for a task.
#[derive(Debug, Copy, Clone, PartialEq, Eq, Structural)]
pub enum Inbox {
    /// A function to run.
    Function(u64),
    /// The order to stop.
    Shutdown,
    /// Nothing for now.
    Empty,
    /// Nothing, and nothing more can come.
    Disconnected,
}

/// What came of a chore: the return value of a call or a thread id, and what was found in the
/// inbox.
#[derive(Debug, Copy, Clone, PartialEq, Eq, Structural)]
pub struct Answer {
    pub value: i32,
    pub inbox: Inbox,
}

/// The call that a worker cannot live on without.
#[derive(Debug, Copy, Clone, PartialEq, Eq, Structural)]
pub enum FailedCall {
    Registration,
    Wait,
    Unregistration,
}

/// What a worker's thread does next.
#[derive(Debug, Copy, Clone, PartialEq, Eq, Structural)]
pub enum Chore {
    /// Try to bind the thread to a processor; it does not matter if that fails.
    SetAffinity { cpu_id: usize },
    /// Find out the thread's id.
    AskTid,
    /// Tell the starter of the thread its id.
    Announce { tid: i32 },
    /// Make this system call, without room for events.
    Call(UmcgCall),
    /// Look for a task, without waiting.
    Poll,
    /// Run a function.
    Run { function: u64 },
    /// Stop.
    Finish,
    /// Give up, since a call returned this value.
    Fail { call: FailedCall, ret: i32 },
}

/// How far a worker's thread has come.
#[derive(Debug, Copy, Clone, PartialEq, Eq, Structural)]
pub enum WorkerPhase {
    Fresh,
    SettingAffinity,
    AskingTid,
    Announcing,
    Registering,
    Polling,
    Running,
    Waiting,
    Unregistering,
    Over,
}

/// A worker's thread.
#[derive(Debug, Copy, Clone, PartialEq, Eq, Structural)]
pub struct WorkerThread {
    pub id: usize,
    pub tid: i32,
    pub server_id: usize,
    pub cpu_id: usize,
    pub phase: WorkerPhase,
}

/// A call by which the worker of this server addresses it.
pub open spec fn call_on(server_id: usize, cmd: UmcgCmd) -> UmcgCall {
    UmcgCall { flags: server_id as u64, cmd, next_tid: 0, abs_timeout: 0, event_sz: 0 }
}

/// The thread's next chore, and the thread as it is then.
pub open spec fn next_chore(thread: WorkerThread, answer: Answer) -> (WorkerThread, Chore) {
    match thread.phase {
        WorkerPhase::Fresh => (
            WorkerThread { phase: WorkerPhase::SettingAffinity, ..thread },
            Chore::SetAffinity { cpu_id: thread.cpu_id },
        ),
        WorkerPhase::SettingAffinity => (
            WorkerThread { phase: WorkerPhase::AskingTid, ..thread },
            Chore::AskTid,
        ),
        WorkerPhase::AskingTid => (
            WorkerThread { phase: WorkerPhase::Announcing, tid: answer.value, ..thread },
            Chore::Announce { tid: answer.value },
        ),
        WorkerPhase::Announcing => (
            WorkerThread { phase: WorkerPhase::Registering, ..thread },
            Chore::Call(registration(thread.tid)),
        ),
        WorkerPhase::Registering => polled_if(thread, answer.value, FailedCall::Registration),
        WorkerPhase::Polling => match answer.inbox {
            Inbox::Function(function) => (
                WorkerThread { phase: WorkerPhase::Running, ..thread },
                Chore::Run { function },
            ),
            Inbox::Empty => waiting(thread),
            _ => (
                WorkerThread { phase: WorkerPhase::Unregistering, ..thread },
                Chore::Call(call_on(thread.server_id, UmcgCmd::Unregister)),
            ),
        },
        WorkerPhase::Running => waiting(thread),
        WorkerPhase::Waiting => polled_if(thread, answer.value, FailedCall::Wait),
        WorkerPhase::Unregistering => (
            WorkerThread { phase: WorkerPhase::Over, ..thread },
            if answer.value == 0 {
                Chore::Finish
            } else {
                Chore::Fail { call: FailedCall::Unregistration, ret: answer.value }
            },
        ),
        WorkerPhase::Over => (thread, Chore::Finish),
    }
}

/// After a call that returned `ret` the thread looks for a task, or gives up if the call failed.
pub open spec fn polled_if(thread: WorkerThread, ret: i32, call: FailedCall) -> (
    WorkerThread,
    Chore,
) {
    if ret == 0 {
        (WorkerThread { phase: WorkerPhase::Polling, ..thread }, Chore::Poll)
    } else {
        (WorkerThread { phase: WorkerPhase::Over, ..thread }, Chore::Fail { call, ret })
    }
}

/// The thread lets its server go on.
pub open spec fn waiting(thread: WorkerThread) -> (WorkerThread, Chore) {
    (
        WorkerThread { phase: WorkerPhase::Waiting, ..thread },
        Chore::Call(call_on(thread.server_id, UmcgCmd::Wait)),
    )
}

impl WorkerThread {
    /// A worker's thread that has not begun. Its thread id is not known yet.
    pub fn new(id: usize, server_id: usize, cpu_id: usize) -> (r: WorkerThread)
        ensures
            r == (WorkerThread { id, tid: 0, server_id, cpu_id, phase: WorkerPhase::Fresh }),
    {
        WorkerThread { id, tid: 0, server_id, cpu_id, phase: WorkerPhase::Fresh }
    }

    fn call(&self, cmd: UmcgCmd) -> (r: Chore)
        ensures
            r == Chore::Call(call_on(self.server_id, cmd)),
    {
        Chore::Call(
            UmcgCall {
                flags: self.server_id as u64,
                cmd,
                next_tid: 0,
                abs_timeout: 0,
                event_sz: 0,
            },
        )
    }

    fn poll_if(&mut self, ret: i32, call: FailedCall) -> (r: Chore)
        ensures
            (*final(self), r) == polled_if(*old(self), ret, call),
    {
        if ret == 0 {
            self.phase = WorkerPhase::Polling;
            Chore::Poll
        } else {
            self.phase = WorkerPhase::Over;
            Chore::Fail { call, ret }
        }
    }

    /// Takes in what came of the last chore and says what to do next. The first answer is not
    /// read.
    pub fn step(&mut self, answer: Answer) -> (r: Chore)
        ensures
            (*final(self), r) == next_chore(*old(self), answer),
    {
        match self.phase {
            WorkerPhase::Fresh => {
                self.phase = WorkerPhase::SettingAffinity;
                Chore::SetAffinity { cpu_id: self.cpu_id }
            },
            WorkerPhase::SettingAffinity => {
                self.phase = WorkerPhase::AskingTid;
                Chore::AskTid
            },
            WorkerPhase::AskingTid => {
                self.phase = WorkerPhase::Announcing;
                self.tid = answer.value;
                Chore::Announce { tid: answer.value }
            },
            WorkerPhase::Announcing => {
                self.phase = WorkerPhase::Registering;
                Chore::Call(UmcgCall::registration(self.tid))
            },
            WorkerPhase::Registering => self.poll_if(answer.value, FailedCall::Registration),
            WorkerPhase::Polling => match answer.inbox {
                Inbox::Function(function) => {
                    self.phase = WorkerPhase::Running;
                    Chore::Run { function }
                },
                Inbox::Empty => {
                    self.phase = WorkerPhase::Waiting;
                    self.call(UmcgCmd::Wait)
                },
                _ => {
                    self.phase = WorkerPhase::Unregistering;
                    self.call(UmcgCmd::Unregister)
                },
            },
            WorkerPhase::Running => {
                self.phase = WorkerPhase::Waiting;
                self.call(UmcgCmd::Wait)
            },
            WorkerPhase::Waiting => self.poll_if(answer.value, FailedCall::Wait),
            WorkerPhase::Unregistering => {
                self.phase = WorkerPhase::Over;
                if answer.value == 0 {
                    Chore::Finish
                } else {
                    Chore::Fail { call: FailedCall::Unregistration, ret: answer.value }
                }
            },
            WorkerPhase::Over => Chore::Finish,
        }
    }
}

/// A thread keeps its number, its server and its processor; and its thread id, once it is known.
pub proof fn law_thread_keeps_its_place(thread: WorkerThread, answer: Answer)
    ensures
        next_chore(thread, answer).0.id == thread.id,
        next_chore(thread, answer).0.server_id == thread.server_id,
        next_chore(thread, answer).0.cpu_id == thread.cpu_id,
        thread.phase !is AskingTid ==> next_chore(thread, answer).0.tid == thread.tid,
{
}

/// A thread asks its server to go on after each function that it ran, and before it looks for
/// another one.
pub proof fn law_runs_then_waits(thread: WorkerThread, ran: Answer, waited: Answer)
    requires
        thread.phase is Running,
    ensures
        next_chore(thread, ran).1 == Chore::Call(call_on(thread.server_id, UmcgCmd::Wait)),
        waited.value == 0 ==> next_chore(next_chore(thread, ran).0, waited).1 is Poll,
        waited.value != 0 ==> next_chore(next_chore(thread, ran).0, waited).1 is Fail,
{
}

/// A thread runs a function only if it found it in its inbox.
pub proof fn law_runs_what_it_was_sent(thread: WorkerThread, answer: Answer)
    ensures
        next_chore(thread, answer).1 matches Chore::Run { function } ==> thread.phase is Polling
            && answer.inbox == Inbox::Function(function),
{
}

/// A thread that is told to stop, or can be told nothing more, gives up its registration and runs
/// nothing more.
pub proof fn law_stops_when_told(thread: WorkerThread, told: Answer, then: Answer)
    requires
        thread.phase is Polling,
        told.inbox is Shutdown || told.inbox is Disconnected,
    ensures
        next_chore(thread, told).1 == Chore::Call(call_on(thread.server_id, UmcgCmd::Unregister)),
        next_chore(next_chore(thread, told).0, then).0.phase is Over,
{
}

/// A thread that is over stays so.
pub proof fn law_over_stays_over(thread: WorkerThread, answer: Answer)
    requires
        thread.phase is Over,
    ensures
        next_chore(thread, answer) == (thread, Chore::Finish),
{
}

/// When a thread waits for its server to need it and when it leaves. A thread that looked for a
/// task and found nothing for now makes the wait call of its server, as does one that ran a
/// function, and no other. Only a thread that looked for a task and was told to stop, or found that
/// nothing more can come, gives up its registration.
pub proof fn law_waits_when_idle_leaves_when_told(thread: WorkerThread, answer: Answer)
    ensures
        ({
            let chore = next_chore(thread, answer).1;
            let polled = thread.phase is Polling;
            &&& chore == Chore::Call(
                UmcgCall {
                    flags: thread.server_id as u64,
                    cmd: UmcgCmd::Wait,
                    next_tid: 0,
                    abs_timeout: 0,
                    event_sz: 0,
                },
            ) <==> polled && answer.inbox is Empty || thread.phase is Running
            &&& chore == Chore::Call(
                UmcgCall {
                    flags: thread.server_id as u64,
                    cmd: UmcgCmd::Unregister,
                    next_tid: 0,
                    abs_timeout: 0,
                    event_sz: 0,
                },
            ) <==> polled && (answer.inbox is Shutdown || answer.inbox is Disconnected)
            &&& chore matches Chore::Call(call) ==> {
                ||| call.cmd == UmcgCmd::Wait && call.flags == thread.server_id as u64
                ||| call.cmd == UmcgCmd::Unregister && call.flags == thread.server_id as u64
                ||| call.cmd == UmcgCmd::RegisterWorker && call.flags == 0
            }
        }),
{
}

/// What a thread does before it looks for its first task, and that it looks for a task exactly
/// after it registered or waited with success. A thread registers once, after it told its id, under
/// that very id moved five bits to the left.
pub proof fn law_begins_in_order(thread: WorkerThread, answer: Answer)
    ensures
        ({
            let chore = next_chore(thread, answer).1;
            &&& chore is SetAffinity <==> thread.phase is Fresh
            &&& chore matches Chore::SetAffinity { cpu_id } ==> cpu_id == thread.cpu_id
            &&& chore is AskTid <==> thread.phase is SettingAffinity
            &&& chore is Announce <==> thread.phase is AskingTid
            &&& chore matches Chore::Announce { tid } ==> tid == answer.value && next_chore(
                thread,
                answer,
            ).0.tid == tid
            &&& chore == Chore::Call(
                UmcgCall {
                    flags: 0,
                    cmd: UmcgCmd::RegisterWorker,
                    next_tid: 0,
                    abs_timeout: (thread.tid as u64) << 5,
                    event_sz: 0,
                },
            ) <==> thread.phase is Announcing
            &&& chore is Poll <==> (thread.phase is Registering || thread.phase is Waiting)
                && answer.value == 0
            &&& chore is Run <==> thread.phase is Polling && answer.inbox is Function
            &&& thread.phase is Polling ==> match answer.inbox {
                Inbox::Function(function) => chore == (Chore::Run { function }),
                _ => chore is Call,
            }
        }),
{
    lemma_shifted_tid(thread.tid);
}

/// A thread gives up exactly if its registration, a wait or the end of its registration failed, and
/// says which of them and how; it ends without complaint exactly if the end of its registration
/// succeeded, or if it had ended before.
pub proof fn law_gives_up_on_failed_calls(thread: WorkerThread, answer: Answer)
    ensures
        ({
            let chore = next_chore(thread, answer).1;
            &&& chore == (Chore::Fail { call: FailedCall::Registration, ret: answer.value })
                <==> thread.phase is Registering && answer.value != 0
            &&& chore == (Chore::Fail { call: FailedCall::Wait, ret: answer.value })
                <==> thread.phase is Waiting && answer.value != 0
            &&& chore == (Chore::Fail { call: FailedCall::Unregistration, ret: answer.value })
                <==> thread.phase is Unregistering && answer.value != 0
            &&& chore matches Chore::Fail { ret, .. } ==> ret == answer.value
            &&& chore is Finish <==> thread.phase is Over || thread.phase is Unregistering
                && answer.value == 0
        }),
{
}

/// Where a thread is once it has a chore, so that what comes of the chore is taken for what it is.
pub proof fn law_phase_follows_chore(thread: WorkerThread, answer: Answer)
    ensures
        ({
            let (next, chore) = next_chore(thread, answer);
            match chore {
                Chore::SetAffinity { .. } => next.phase is SettingAffinity,
                Chore::AskTid => next.phase is AskingTid,
                Chore::Announce { .. } => next.phase is Announcing,
                Chore::Call(call) => match call.cmd {
                    UmcgCmd::RegisterWorker => next.phase is Registering,
                    UmcgCmd::Wait => next.phase is Waiting,
                    UmcgCmd::Unregister => next.phase is Unregistering,
                    _ => false,
                },
                Chore::Poll => next.phase is Polling,
                Chore::Run { .. } => next.phase is Running,
                Chore::Finish => next.phase is Over,
                Chore::Fail { .. } => next.phase is Over,
            }
        }),
{
}

} // verus!
