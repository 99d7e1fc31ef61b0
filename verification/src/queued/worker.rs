//! The life of a worker's thread: it makes itself known, registers, runs the tasks it is sent, and
//! waits in between.
//!
//! [`Worker`] decides what comes next; the thread does it and reports what came of it. A call that
//! fails ends the thread's work, but not the program.

use crate::pooled::worker_thread::{Answer, Inbox};
use crate::umcg::{
    lemma_shifted_tid, plain_call, registration, worker_id, worker_id_of, UmcgCall, UmcgCmd,
};
use vstd::prelude::*;

verus! {

/// What a worker's thread does next.
#[derive(Debug, Copy, Clone, PartialEq, Eq, Structural)]
pub enum Chore {
    /// Find out the thread's id.
    AskTid,
    /// Try to bind the thread to a processor; it does not matter if that fails.
    SetAffinity { cpu_id: usize },
    /// Enter the worker into the table of workers.
    Enlist { worker_id: u64 },
    /// Make this system call, without room for events.
    Call(UmcgCall),
    /// Look for a task, without waiting.
    Poll,
    /// Run a task.
    Run { task: u64 },
    /// Stop. If the last call failed, its return value is given.
    Finish { failed: Option<i32> },
}

/// How far a worker's thread has come.
#[derive(Debug, Copy, Clone, PartialEq, Eq, Structural)]
pub enum WorkerPhase {
    Fresh,
    AskingTid,
    SettingAffinity,
    Enlisting,
    Registering,
    Polling,
    Running,
    Waiting,
    Unregistering,
    Over,
}

/// A worker's thread.
#[derive(Debug, Copy, Clone, PartialEq, Eq, Structural)]
pub struct Worker {
    pub id: usize,
    pub cpu_id: usize,
    pub tid: i32,
    pub phase: WorkerPhase,
}

/// The thread in another phase, with its chore.
pub open spec fn goes_to(worker: Worker, phase: WorkerPhase, chore: Chore) -> (Worker, Chore) {
    (Worker { phase, ..worker }, chore)
}

/// What a call that returned `ret` tells the end of the thread.
pub open spec fn failure(ret: i32) -> Option<i32> {
    if ret == 0 {
        None
    } else {
        Some(ret)
    }
}

/// The thread's next chore, and the thread as it is then.
pub open spec fn next_chore(worker: Worker, answer: Answer) -> (Worker, Chore) {
    let wait = Chore::Call(plain_call(UmcgCmd::Wait));
    let leave = Chore::Call(plain_call(UmcgCmd::Unregister));
    match worker.phase {
        WorkerPhase::Fresh => goes_to(worker, WorkerPhase::AskingTid, Chore::AskTid),
        WorkerPhase::AskingTid => goes_to(
            Worker { tid: answer.value, ..worker },
            WorkerPhase::SettingAffinity,
            Chore::SetAffinity { cpu_id: worker.cpu_id },
        ),
        WorkerPhase::SettingAffinity => goes_to(
            worker,
            WorkerPhase::Enlisting,
            Chore::Enlist { worker_id: worker_id_of(worker.tid) },
        ),
        WorkerPhase::Enlisting => goes_to(
            worker,
            WorkerPhase::Registering,
            Chore::Call(registration(worker.tid)),
        ),
        WorkerPhase::Registering => if answer.value == 0 {
            goes_to(worker, WorkerPhase::Polling, Chore::Poll)
        } else {
            goes_to(worker, WorkerPhase::Over, Chore::Finish { failed: Some(answer.value) })
        },
        WorkerPhase::Polling => match answer.inbox {
            Inbox::Function(task) => goes_to(worker, WorkerPhase::Running, Chore::Run { task }),
            Inbox::Empty => goes_to(worker, WorkerPhase::Waiting, wait),
            _ => goes_to(worker, WorkerPhase::Unregistering, leave),
        },
        WorkerPhase::Running => goes_to(worker, WorkerPhase::Waiting, wait),
        WorkerPhase::Waiting => if answer.value == 0 {
            goes_to(worker, WorkerPhase::Polling, Chore::Poll)
        } else {
            goes_to(worker, WorkerPhase::Unregistering, leave)
        },
        WorkerPhase::Unregistering => goes_to(
            worker,
            WorkerPhase::Over,
            Chore::Finish { failed: failure(answer.value) },
        ),
        WorkerPhase::Over => (worker, Chore::Finish { failed: None }),
    }
}

impl Worker {
    /// A worker's thread that has not begun. Its thread id is not known yet.
    pub fn new(id: usize, cpu_id: usize) -> (r: Worker)
        ensures
            r == (Worker { id, cpu_id, tid: 0, phase: WorkerPhase::Fresh }),
    {
        Worker { id, cpu_id, tid: 0, phase: WorkerPhase::Fresh }
    }

    fn go(&mut self, phase: WorkerPhase, chore: Chore) -> (r: Chore)
        ensures
            (*final(self), r) == goes_to(*old(self), phase, chore),
    {
        self.phase = phase;
        chore
    }

    /// Takes in what came of the last chore and says what to do next. The first answer is not
    /// read.
    pub fn step(&mut self, answer: Answer) -> (r: Chore)
        ensures
            (*final(self), r) == next_chore(*old(self), answer),
    {
        let wait = Chore::Call(UmcgCall::plain(UmcgCmd::Wait));
        let leave = Chore::Call(UmcgCall::plain(UmcgCmd::Unregister));
        match self.phase {
            WorkerPhase::Fresh => self.go(WorkerPhase::AskingTid, Chore::AskTid),
            WorkerPhase::AskingTid => {
                self.tid = answer.value;
                let cpu_id = self.cpu_id;
                self.go(WorkerPhase::SettingAffinity, Chore::SetAffinity { cpu_id })
            },
            WorkerPhase::SettingAffinity => {
                let id = worker_id(self.tid);
                self.go(WorkerPhase::Enlisting, Chore::Enlist { worker_id: id })
            },
            WorkerPhase::Enlisting => {
                let call = UmcgCall::registration(self.tid);
                self.go(WorkerPhase::Registering, Chore::Call(call))
            },
            WorkerPhase::Registering => {
                if answer.value == 0 {
                    self.go(WorkerPhase::Polling, Chore::Poll)
                } else {
                    self.go(WorkerPhase::Over, Chore::Finish { failed: Some(answer.value) })
                }
            },
            WorkerPhase::Polling => match answer.inbox {
                Inbox::Function(task) => self.go(WorkerPhase::Running, Chore::Run { task }),
                Inbox::Empty => self.go(WorkerPhase::Waiting, wait),
                _ => self.go(WorkerPhase::Unregistering, leave),
            },
            WorkerPhase::Running => self.go(WorkerPhase::Waiting, wait),
            WorkerPhase::Waiting => {
                if answer.value == 0 {
                    self.go(WorkerPhase::Polling, Chore::Poll)
                } else {
                    self.go(WorkerPhase::Unregistering, leave)
                }
            },
            WorkerPhase::Unregistering => {
                let failed = if answer.value == 0 {
                    None
                } else {
                    Some(answer.value)
                };
                self.go(WorkerPhase::Over, Chore::Finish { failed })
            },
            WorkerPhase::Over => Chore::Finish { failed: None },
        }
    }
}

/// A thread keeps its number and its processor; and its thread id, once it is known.
pub proof fn law_worker_keeps_its_place(worker: Worker, answer: Answer)
    ensures
        next_chore(worker, answer).0.id == worker.id,
        next_chore(worker, answer).0.cpu_id == worker.cpu_id,
        worker.phase !is AskingTid ==> next_chore(worker, answer).0.tid == worker.tid,
{
}

/// A thread runs a task only if it found it in its inbox, and lets its server go on after it.
pub proof fn law_runs_then_waits(worker: Worker, answer: Answer, ran: Answer)
    ensures
        next_chore(worker, answer).1 matches Chore::Run { task } ==> worker.phase is Polling
            && answer.inbox == Inbox::Function(task) && next_chore(
            next_chore(worker, answer).0,
            ran,
        ).1 == Chore::Call(plain_call(UmcgCmd::Wait)),
{
}

/// A thread whose wait failed gives up its registration and stops, whatever is in its inbox; one
/// that could not register stops without giving up what it does not have.
pub proof fn law_failed_calls_stop(worker: Worker, failed: Answer, then: Answer)
    requires
        failed.value != 0,
        worker.phase is Waiting || worker.phase is Registering,
    ensures
        worker.phase is Waiting ==> next_chore(worker, failed).1 == Chore::Call(
            plain_call(UmcgCmd::Unregister),
        ) && next_chore(next_chore(worker, failed).0, then).1 is Finish,
        worker.phase is Registering ==> next_chore(worker, failed).1 is Finish,
{
}

/// When a thread waits for its server to need it and when it leaves. A thread that looked for a
/// task and found nothing for now makes the wait call, as does one that ran a task, and no other. A
/// thread gives up its registration exactly if it looked for a task and was told to stop, or found
/// that nothing more can come, or if its wait failed.
pub proof fn law_waits_when_idle_leaves_when_told(worker: Worker, answer: Answer)
    ensures
        ({
            let chore = next_chore(worker, answer).1;
            let polled = worker.phase is Polling;
            &&& chore == Chore::Call(
                UmcgCall {
                    flags: 0,
                    cmd: UmcgCmd::Wait,
                    next_tid: 0,
                    abs_timeout: 0,
                    event_sz: 0,
                },
            ) <==> polled && answer.inbox is Empty || worker.phase is Running
            &&& chore == Chore::Call(
                UmcgCall {
                    flags: 0,
                    cmd: UmcgCmd::Unregister,
                    next_tid: 0,
                    abs_timeout: 0,
                    event_sz: 0,
                },
            ) <==> polled && (answer.inbox is Shutdown || answer.inbox is Disconnected)
                || worker.phase is Waiting && answer.value != 0
            &&& chore matches Chore::Call(call) ==> {
                ||| call.cmd == UmcgCmd::Wait
                ||| call.cmd == UmcgCmd::Unregister
                ||| call.cmd == UmcgCmd::RegisterWorker
            }
        }),
{
}

/// What a thread does before it looks for its first task, and that it looks for a task exactly
/// after it registered or waited with success. It enters itself into the table of workers, and then
/// registers, under its thread id moved five bits to the left.
pub proof fn law_begins_in_order(worker: Worker, answer: Answer)
    ensures
        ({
            let (next, chore) = next_chore(worker, answer);
            &&& chore is AskTid <==> worker.phase is Fresh
            &&& chore is SetAffinity <==> worker.phase is AskingTid
            &&& chore matches Chore::SetAffinity { cpu_id } ==> cpu_id == worker.cpu_id && next.tid
                == answer.value
            &&& chore is Enlist <==> worker.phase is SettingAffinity
            &&& chore matches Chore::Enlist { worker_id } ==> worker_id == (worker.tid as u64) << 5
            &&& chore == Chore::Call(
                UmcgCall {
                    flags: 0,
                    cmd: UmcgCmd::RegisterWorker,
                    next_tid: 0,
                    abs_timeout: (worker.tid as u64) << 5,
                    event_sz: 0,
                },
            ) <==> worker.phase is Enlisting
            &&& chore is Poll <==> (worker.phase is Registering || worker.phase is Waiting)
                && answer.value == 0
            &&& chore is Run <==> worker.phase is Polling && answer.inbox is Function
            &&& worker.phase is Polling ==> match answer.inbox {
                Inbox::Function(task) => chore == (Chore::Run { task }),
                _ => chore is Call,
            }
        }),
{
    lemma_shifted_tid(worker.tid);
}

/// A thread stops exactly if it could not register, gave up its registration, or had stopped
/// before; and it tells of a call exactly if that call failed.
pub proof fn law_stops_and_tells(worker: Worker, answer: Answer)
    ensures
        ({
            let chore = next_chore(worker, answer).1;
            let last_call = worker.phase is Registering || worker.phase is Unregistering;
            &&& chore is Finish <==> worker.phase is Over || worker.phase is Unregistering
                || worker.phase is Registering && answer.value != 0
            &&& chore matches Chore::Finish { failed } ==> (failed is Some <==> last_call
                && answer.value != 0)
            &&& chore matches Chore::Finish { failed: Some(ret) } ==> ret == answer.value
        }),
{
}

/// Where a thread is once it has a chore, so that what comes of the chore is taken for what it is.
pub proof fn law_phase_follows_chore(worker: Worker, answer: Answer)
    ensures
        ({
            let (next, chore) = next_chore(worker, answer);
            match chore {
                Chore::AskTid => next.phase is AskingTid,
                Chore::SetAffinity { .. } => next.phase is SettingAffinity,
                Chore::Enlist { .. } => next.phase is Enlisting,
                Chore::Call(call) => match call.cmd {
                    UmcgCmd::RegisterWorker => next.phase is Registering,
                    UmcgCmd::Wait => next.phase is Waiting,
                    UmcgCmd::Unregister => next.phase is Unregistering,
                    _ => false,
                },
                Chore::Poll => next.phase is Polling,
                Chore::Run { .. } => next.phase is Running,
                Chore::Finish { .. } => next.phase is Over,
            }
        }),
{
}

} // verus!
