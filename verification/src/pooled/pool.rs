//! The workers of one server.

use crate::pooled::task::{TaskEntry, TaskState};
use crate::status::WorkerStatus;
use std::collections::HashMap;
use vstd::prelude::*;

verus! {

broadcast use vstd::std_specs::hash::group_hash_axioms;

/// A worker thread as its server knows it.
#[derive(Debug, Copy, Clone, PartialEq, Eq, Structural)]
pub struct WorkerState {
    pub tid: i32,
    pub status: WorkerStatus,
    pub current_task: Option<u128>,
}

impl WorkerState {
    /// A worker that is ready for a task and has none.
    pub fn new(tid: i32, server_id: usize) -> (r: WorkerState)
        ensures
            r == (WorkerState { tid, status: WorkerStatus::Waiting, current_task: None }),
    {
        WorkerState { tid, status: WorkerStatus::Waiting, current_task: None }
    }
}

/// A worker in a pool.
#[derive(Debug, Copy, Clone, PartialEq, Eq, Structural)]
pub struct Worker {
    pub id: usize,
    pub tid: i32,
    pub status: WorkerStatus,
    pub current_task: Option<u128>,
    pub server_id: usize,
}

/// A worker whose thread has just started.
pub open spec fn new_worker(id: usize, server_id: usize, tid: i32) -> Worker {
    Worker { id, tid, status: WorkerStatus::Initializing, current_task: None, server_id }
}

/// What becomes of a task that is given to a worker.
#[derive(Debug, Copy, Clone, PartialEq, Eq, Structural)]
pub enum Assignment {
    /// The function goes to the worker; `spent` is the task without it.
    Send { function: u64, spent: TaskEntry },
    /// The worker has the function already.
    Nothing,
}

/// What becomes of `task` when it is given to a worker: only a waiting function is sent, and the
/// task counts as completed from then on.
pub open spec fn assignment(task: TaskEntry) -> Assignment {
    match task.state {
        TaskState::Pending(function) => Assignment::Send {
            function,
            spent: TaskEntry { state: TaskState::Completed, ..task },
        },
        _ => Assignment::Nothing,
    }
}

impl Worker {
    /// A worker whose thread has just started.
    pub fn new(id: usize, server_id: usize, tid: i32) -> (r: Worker)
        ensures
            r == new_worker(id, server_id, tid),
    {
        Worker { id, tid, status: WorkerStatus::Initializing, current_task: None, server_id }
    }

    /// Decides what is sent to this worker so that it does `task`.
    pub fn assign_task(&self, task: TaskEntry) -> (r: Assignment)
        ensures
            r == assignment(task),
    {
        match task.state {
            TaskState::Pending(function) => Assignment::Send {
                function,
                spent: TaskEntry {
                    id: task.id,
                    state: TaskState::Completed,
                    priority: task.priority,
                    enqueue_time: task.enqueue_time,
                },
            },
            _ => Assignment::Nothing,
        }
    }
}

/// The workers of a server, by thread id.
pub struct WorkerPool {
    pub workers: HashMap<i32, Worker>,
    pub total_workers: usize,
}

/// A pool with the status and the task of one worker replaced; a pool that does not know the
/// worker stays as it is.
pub open spec fn with_status(
    pool: Map<i32, Worker>,
    tid: i32,
    status: WorkerStatus,
    task: Option<u128>,
) -> Map<i32, Worker> {
    if pool.contains_key(tid) {
        pool.insert(tid, Worker { status, current_task: task, ..pool[tid] })
    } else {
        pool
    }
}

/// A pool with the status of one worker replaced, its task kept.
pub open spec fn with_status_only(
    pool: Map<i32, Worker>,
    tid: i32,
    status: WorkerStatus,
) -> Map<i32, Worker> {
    with_status(pool, tid, status, pool[tid].current_task)
}

/// The worker `tid` is in the pool and ready for a task.
pub open spec fn is_waiting(pool: Map<i32, Worker>, tid: i32) -> bool {
    pool.contains_key(tid) && pool[tid].status == WorkerStatus::Waiting
}

/// Each worker stands under its own thread id.
pub open spec fn keyed_by_tid(pool: Map<i32, Worker>) -> bool {
    forall|tid: i32| #[trigger] pool.contains_key(tid) ==> pool[tid].tid == tid
}

impl View for WorkerPool {
    type V = Map<i32, Worker>;

    open spec fn view(&self) -> Map<i32, Worker> {
        self.workers@
    }
}

impl WorkerPool {
    /// What holds of every pool.
    pub open spec fn wf(&self) -> bool {
        keyed_by_tid(self@)
    }

    /// A pool that is meant for `size` workers and has none yet.
    pub fn new(size: usize) -> (r: WorkerPool)
        ensures
            r.wf(),
            r@ == Map::<i32, Worker>::empty(),
            r.total_workers == size,
    {
        WorkerPool { workers: HashMap::new(), total_workers: size }
    }

    /// Adds a worker, in place of one with the same thread id.
    pub fn add_worker(&mut self, worker: Worker)
        requires
            old(self).wf(),
        ensures
            final(self).wf(),
            final(self)@ == old(self)@.insert(worker.tid, worker),
            final(self).total_workers == old(self).total_workers,
    {
        self.workers.insert(worker.tid, worker);
    }

    /// How many workers the pool has.
    pub fn len(&self) -> (r: usize)
        ensures
            r == self@.dom().len(),
    {
        self.workers.len()
    }

    /// Some worker that is ready for a task, if there is one.
    pub fn get_available_worker(&self) -> (r: Option<Worker>)
        requires
            self.wf(),
        ensures
            match r {
                Some(worker) => is_waiting(self@, worker.tid) && self@[worker.tid] == worker,
                None => forall|tid: i32| !is_waiting(self@, tid),
            },
    {
        for tid in it: self.workers.keys()
            invariant
                self.wf(),
                forall|i: int|
                    0 <= i < it.index() ==> !is_waiting(self@, *(#[trigger] it.seq()[i])),
        {
            if let Some(worker) = self.workers.get(tid) {
                if worker.status == WorkerStatus::Waiting {
                    return Some(*worker);
                }
            }
        }
        None
    }

    /// Sets the status and the task of a worker that the pool knows.
    pub fn update_worker_status(&mut self, tid: i32, status: WorkerStatus, task: Option<u128>)
        requires
            old(self).wf(),
        ensures
            final(self).wf(),
            final(self)@ == with_status(old(self)@, tid, status, task),
            final(self).total_workers == old(self).total_workers,
    {
        let known: Option<Worker> = match self.workers.get(&tid) {
            Some(worker) => Some(*worker),
            None => None,
        };
        if let Some(worker) = known {
            self.workers.insert(
                tid,
                Worker {
                    id: worker.id,
                    tid: worker.tid,
                    status,
                    current_task: task,
                    server_id: worker.server_id,
                },
            );
        }
    }

    /// Sets the status of a worker that the pool knows and leaves it its task.
    pub fn update_worker_status_keep_task(&mut self, tid: i32, status: WorkerStatus)
        requires
            old(self).wf(),
        ensures
            final(self).wf(),
            final(self)@ == with_status_only(old(self)@, tid, status),
            final(self).total_workers == old(self).total_workers,
    {
        if let Some((_, task)) = self.get_worker_state(tid) {
            self.update_worker_status(tid, status, task);
        }
    }

    /// The status and the task of a worker that the pool knows.
    pub fn get_worker_state(&self, tid: i32) -> (r: Option<(WorkerStatus, Option<u128>)>)
        ensures
            r == (if self@.contains_key(tid) {
                Some((self@[tid].status, self@[tid].current_task))
            } else {
                None
            }),
    {
        match self.workers.get(&tid) {
            Some(worker) => Some((worker.status, worker.current_task)),
            None => None,
        }
    }

    /// The worker with this thread id.
    pub fn get(&self, tid: i32) -> (r: Option<Worker>)
        ensures
            r == (if self@.contains_key(tid) {
                Some(self@[tid])
            } else {
                None
            }),
    {
        match self.workers.get(&tid) {
            Some(worker) => Some(*worker),
            None => None,
        }
    }

    /// The thread ids of all workers, each once, in no particular order.
    pub fn tids(&self) -> (r: Vec<i32>)
        ensures
            r@.no_duplicates(),
            r@.to_set() == self@.dom(),
    {
        let mut tids: Vec<i32> = Vec::new();
        let ghost all = vstd::std_specs::iter::IteratorSpec::remaining(
            &vstd::std_specs::hash::spec_keys_iter(&self.workers),
        ).unref();
        for tid in it: self.workers.keys()
            invariant
                it.seq().unref() == all,
                tids@ == all.take(it.index()),
        {
            tids.push(*tid);
            assert(tids@ =~= all.take(it.index() + 1));
        }
        assert(tids@ =~= all);
        tids
    }
}

/// Putting a worker to another status and task changes just these two, and nothing of any other
/// worker; for a worker that is not in the pool nothing changes at all.
pub proof fn law_status_changes_one_worker(
    pool: Map<i32, Worker>,
    tid: i32,
    other: i32,
    status: WorkerStatus,
    task: Option<u128>,
)
    requires
        other != tid,
    ensures
        ({
            let after = with_status(pool, tid, status, task);
            let kept = with_status_only(pool, tid, status);
            &&& !pool.contains_key(tid) ==> after == pool && kept == pool
            &&& pool.contains_key(tid) ==> {
                &&& after.contains_key(tid)
                &&& after[tid].status == status
                &&& after[tid].current_task == task
                &&& after[tid].id == pool[tid].id
                &&& after[tid].tid == pool[tid].tid
                &&& after[tid].server_id == pool[tid].server_id
                &&& kept.contains_key(tid)
                &&& kept[tid].status == status
                &&& kept[tid].current_task == pool[tid].current_task
                &&& kept[tid].id == pool[tid].id
                &&& kept[tid].tid == pool[tid].tid
                &&& kept[tid].server_id == pool[tid].server_id
            }
            &&& after.contains_key(other) <==> pool.contains_key(other)
            &&& after[other] == pool[other]
            &&& kept.contains_key(other) <==> pool.contains_key(other)
            &&& kept[other] == pool[other]
        }),
{
}

/// Exactly a task whose function waits has it sent, and that very function; what is left of the
/// task is done and has the name, the priority and the time that the task had.
pub proof fn law_waiting_function_is_sent(task: TaskEntry)
    ensures
        assignment(task) is Send <==> task.state is Pending,
        assignment(task) matches Assignment::Send { function, spent } ==> {
            &&& task.state == TaskState::Pending(function)
            &&& spent.state is Completed
            &&& spent.id == task.id
            &&& spent.priority == task.priority
            &&& spent.enqueue_time == task.enqueue_time
        },
{
}

/// A new worker has the numbers that it was made with, has not registered, and has no task.
pub proof fn law_new_worker_is_initializing(id: usize, server_id: usize, tid: i32)
    ensures
        ({
            let worker = new_worker(id, server_id, tid);
            &&& worker.id == id
            &&& worker.server_id == server_id
            &&& worker.tid == tid
            &&& worker.status is Initializing
            &&& worker.current_task is None
        }),
{
}

} // verus!
