//! Tasks and the queue in which a server keeps them.
//!
//! A task's function is known by a number: the program that drives the server keeps the function
//! itself and calls it when a worker receives the number.

use crate::bounded::{oldest, popped, pushed};
use crate::ident::random_id;
use crate::status::WorkerStatus;
use crossbeam_queue::ArrayQueue;
use std::collections::HashMap;
use vstd::prelude::*;

verus! {

broadcast use vstd::std_specs::hash::group_hash_axioms;

/// How far a task has come.
#[derive(Debug, Copy, Clone, PartialEq, Eq, Structural)]
pub enum TaskState {
    /// Its function waits to be called.
    Pending(u64),
    /// A worker has it.
    Running {
        worker_tid: i32,
        start_time: u64,
        preempted: bool,
        blocked: bool,
        state: WorkerStatus,
    },
    /// Its function was given away.
    Completed,
}

/// A task of a server. Times are in nanoseconds since the epoch.
#[derive(Debug, Copy, Clone, PartialEq, Eq, Structural)]
pub struct TaskEntry {
    pub id: u128,
    pub state: TaskState,
    pub priority: u32,
    pub enqueue_time: u64,
}

/// What a server is asked to do.
#[derive(Debug, Copy, Clone, PartialEq, Eq, Structural)]
pub enum Task {
    /// Have a worker call this function.
    Function(u64),
    /// Stop.
    Shutdown,
}

/// A task that has just been handed in.
pub open spec fn new_entry(id: u128, function: u64, now: u64) -> TaskEntry {
    TaskEntry { id, state: TaskState::Pending(function), priority: 0, enqueue_time: now }
}

/// A task that was taken from its worker before it was done.
pub open spec fn resumable(task: TaskEntry) -> bool {
    task.state matches TaskState::Running { preempted, .. } && preempted
}

impl TaskEntry {
    /// A task under a random name.
    pub fn new(function: u64, now: u64) -> (r: TaskEntry)
        ensures
            r == new_entry(r.id, function, now),
            crate::ident::is_random_uuid(r.id),
    {
        TaskEntry::with_id(random_id(), function, now)
    }

    /// A task under a given name.
    pub fn with_id(id: u128, function: u64, now: u64) -> (r: TaskEntry)
        ensures
            r == new_entry(id, function, now),
    {
        TaskEntry { id, state: TaskState::Pending(function), priority: 0, enqueue_time: now }
    }

    /// Whether the task was taken from its worker before it was done.
    pub fn is_resumable(&self) -> (r: bool)
        ensures
            r == resumable(*self),
    {
        match self.state {
            TaskState::Running { preempted, .. } => preempted,
            _ => false,
        }
    }
}

/// How many tasks each of a server's two queues has room for.
pub const TASK_QUEUE_CAPACITY: usize = 1024;

/// What a queue of tasks holds, oldest first.
pub uninterp spec fn task_items(q: ArrayQueue<TaskEntry>) -> Seq<TaskEntry>;

/// How much a queue of tasks has room for.
pub uninterp spec fn task_limit(q: ArrayQueue<TaskEntry>) -> nat;

/// `ArrayQueue::<TaskEntry>::new`: an empty queue with room for `capacity` tasks. The call panics
/// for a capacity of zero and for one whose buffer is too large; the bound keeps clear of both.
#[verifier::external_body]
fn task_queue_new(capacity: usize) -> (q: ArrayQueue<TaskEntry>)
    requires
        0 < capacity <= 65536,
    ensures
        task_items(q) == Seq::<TaskEntry>::empty(),
        task_limit(q) == capacity,
{
    ArrayQueue::new(capacity)
}

/// `ArrayQueue::<TaskEntry>::push`: puts `task` behind the others, or hands it back if the queue
/// is full.
#[verifier::external_body]
fn task_queue_push(q: &mut ArrayQueue<TaskEntry>, task: TaskEntry) -> (r: Result<(), TaskEntry>)
    ensures
        task_limit(*final(q)) == task_limit(*old(q)),
        r == (if task_items(*old(q)).len() < task_limit(*old(q)) {
            Ok(())
        } else {
            Err(task)
        }),
        task_items(*final(q)) == pushed(task_items(*old(q)), task_limit(*old(q)), task),
{
    q.push(task)
}

/// `ArrayQueue::<TaskEntry>::pop`: takes the oldest task out, if there is one.
#[verifier::external_body]
fn task_queue_pop(q: &mut ArrayQueue<TaskEntry>) -> (r: Option<TaskEntry>)
    ensures
        task_limit(*final(q)) == task_limit(*old(q)),
        r == oldest(task_items(*old(q))),
        task_items(*final(q)) == popped(task_items(*old(q))),
{
    q.pop()
}

/// The tasks of one server: those that no worker has had yet, those that were taken from their
/// worker, and those that a worker is known to have.
pub struct TaskQueue {
    pending: ArrayQueue<TaskEntry>,
    preempted: ArrayQueue<TaskEntry>,
    in_progress: HashMap<u128, TaskEntry>,
}

/// The contents of a task queue.
#[verifier::ext_equal]
pub struct TaskQueueView {
    pub pending: Seq<TaskEntry>,
    pub preempted: Seq<TaskEntry>,
    pub in_progress: Map<u128, TaskEntry>,
}

/// A task queue once `task` is put where its state says: behind the waiting tasks, behind the
/// preempted ones, or among those in progress. A full queue loses the task, and a task that is
/// done is not kept.
pub open spec fn enqueued(queue: TaskQueueView, task: TaskEntry) -> TaskQueueView {
    match task.state {
        TaskState::Pending(_) => TaskQueueView {
            pending: pushed(queue.pending, TASK_QUEUE_CAPACITY as nat, task),
            ..queue
        },
        TaskState::Running { preempted, .. } => if preempted {
            TaskQueueView {
                preempted: pushed(queue.preempted, TASK_QUEUE_CAPACITY as nat, task),
                ..queue
            }
        } else {
            TaskQueueView { in_progress: queue.in_progress.insert(task.id, task), ..queue }
        },
        TaskState::Completed => queue,
    }
}

/// The task to hand out next: a preempted one before one that no worker has had.
pub open spec fn next_task(queue: TaskQueueView) -> Option<TaskEntry> {
    if queue.preempted.len() > 0 {
        oldest(queue.preempted)
    } else {
        oldest(queue.pending)
    }
}

/// A task queue without the task to hand out next.
pub open spec fn without_next(queue: TaskQueueView) -> TaskQueueView {
    if queue.preempted.len() > 0 {
        TaskQueueView { preempted: popped(queue.preempted), ..queue }
    } else {
        TaskQueueView { pending: popped(queue.pending), ..queue }
    }
}

/// The state of a task that the worker `tid` began at `now`.
pub open spec fn begun(tid: i32, now: u64) -> TaskState {
    TaskState::Running {
        worker_tid: tid,
        start_time: now,
        preempted: false,
        blocked: false,
        state: WorkerStatus::Running,
    }
}

/// A task queue once `task_id` is noted as begun by the worker `tid`: a task that is listed as in
/// progress with its function still waiting is now running; nothing else changes.
pub open spec fn marked(queue: TaskQueueView, task_id: u128, tid: i32, now: u64) -> TaskQueueView {
    if queue.in_progress.contains_key(task_id)
        && queue.in_progress[task_id].state is Pending {
        TaskQueueView {
            in_progress: queue.in_progress.insert(
                task_id,
                TaskEntry { state: begun(tid, now), ..queue.in_progress[task_id] },
            ),
            ..queue
        }
    } else {
        queue
    }
}

/// A task queue without the task `task_id` in progress.
pub open spec fn finished(queue: TaskQueueView, task_id: u128) -> TaskQueueView {
    TaskQueueView { in_progress: queue.in_progress.remove(task_id), ..queue }
}

/// What holds of every task queue: neither queue is over its capacity, and each task stands where
/// its state says.
pub open spec fn sorted_by_state(queue: TaskQueueView) -> bool {
    &&& queue.pending.len() <= TASK_QUEUE_CAPACITY
    &&& queue.preempted.len() <= TASK_QUEUE_CAPACITY
    &&& forall|i: int|
        0 <= i < queue.pending.len() ==> (#[trigger] queue.pending[i]).state is Pending
    &&& forall|i: int|
        0 <= i < queue.preempted.len() ==> resumable(#[trigger] queue.preempted[i])
    &&& forall|id: u128| #[trigger]
        queue.in_progress.contains_key(id) ==> {
            &&& queue.in_progress[id].id == id
            &&& queue.in_progress[id].state is Running
            &&& !resumable(queue.in_progress[id])
        }
}

impl View for TaskQueue {
    type V = TaskQueueView;

    closed spec fn view(&self) -> TaskQueueView {
        TaskQueueView {
            pending: task_items(self.pending),
            preempted: task_items(self.preempted),
            in_progress: self.in_progress@,
        }
    }
}

impl TaskQueue {
    /// Both queues have the capacity that all task queues have.
    pub closed spec fn has_room(&self) -> bool {
        &&& task_limit(self.pending) == TASK_QUEUE_CAPACITY
        &&& task_limit(self.preempted) == TASK_QUEUE_CAPACITY
    }

    /// What holds of every task queue.
    pub open spec fn wf(&self) -> bool {
        self.has_room() && sorted_by_state(self@)
    }

    /// A queue without tasks.
    pub fn new() -> (r: TaskQueue)
        ensures
            r.wf(),
            r@ == (TaskQueueView {
                pending: Seq::empty(),
                preempted: Seq::empty(),
                in_progress: Map::empty(),
            }),
    {
        TaskQueue {
            pending: task_queue_new(TASK_QUEUE_CAPACITY),
            preempted: task_queue_new(TASK_QUEUE_CAPACITY),
            in_progress: HashMap::new(),
        }
    }

    /// Puts a task where its state says.
    pub fn enqueue(&mut self, task: TaskEntry)
        requires
            old(self).wf(),
        ensures
            final(self).wf(),
            final(self)@ == enqueued(old(self)@, task),
    {
        match task.state {
            TaskState::Pending(_) => {
                let _ = task_queue_push(&mut self.pending, task);
            },
            TaskState::Running { preempted, .. } => {
                if preempted {
                    let _ = task_queue_push(&mut self.preempted, task);
                } else {
                    self.in_progress.insert(task.id, task);
                }
            },
            TaskState::Completed => {},
        }
    }

    /// Takes out the task to hand out next, if there is one.
    pub fn get_next_task(&mut self) -> (r: Option<TaskEntry>)
        requires
            old(self).wf(),
        ensures
            final(self).wf(),
            r == next_task(old(self)@),
            final(self)@ == without_next(old(self)@),
    {
        match task_queue_pop(&mut self.preempted) {
            Some(task) => Some(task),
            None => task_queue_pop(&mut self.pending),
        }
    }

    /// Notes that the worker `worker_tid` began `task_id` at `now`, if that task is listed as in
    /// progress with its function still waiting.
    pub fn mark_in_progress(&mut self, task_id: u128, worker_tid: i32, now: u64)
        ensures
            final(self).has_room() == old(self).has_room(),
            old(self).wf() ==> final(self).wf(),
            final(self)@ == marked(old(self)@, task_id, worker_tid, now),
    {
        let listed: Option<TaskEntry> = match self.in_progress.get(&task_id) {
            Some(task) => Some(*task),
            None => None,
        };
        if let Some(task) = listed {
            if let TaskState::Pending(_) = task.state {
                let state = TaskState::Running {
                    worker_tid,
                    start_time: now,
                    preempted: false,
                    blocked: false,
                    state: WorkerStatus::Running,
                };
                self.in_progress.insert(
                    task_id,
                    TaskEntry {
                        id: task.id,
                        state,
                        priority: task.priority,
                        enqueue_time: task.enqueue_time,
                    },
                );
            }
        }
    }

    /// Drops the task `task_id` from those in progress.
    pub fn remove_finished(&mut self, task_id: u128)
        requires
            old(self).wf(),
        ensures
            final(self).wf(),
            final(self)@ == finished(old(self)@, task_id),
    {
        self.in_progress.remove(&task_id);
    }
}

/// No operation ever puts a task where its state does not say.
pub proof fn law_tasks_stay_sorted(queue: TaskQueueView, task: TaskEntry, tid: i32, now: u64)
    requires
        sorted_by_state(queue),
    ensures
        sorted_by_state(enqueued(queue, task)),
        sorted_by_state(without_next(queue)),
        sorted_by_state(marked(queue, task.id, tid, now)),
        sorted_by_state(finished(queue, task.id)),
{
}

/// A task in progress never has its function still waiting, so noting that it was begun changes
/// nothing.
pub proof fn law_marking_changes_nothing(queue: TaskQueueView, id: u128, tid: i32, now: u64)
    requires
        sorted_by_state(queue),
    ensures
        marked(queue, id, tid, now) == queue,
{
}

/// Preempted tasks go first: as long as there is one, no waiting task is handed out.
pub proof fn law_preempted_first(queue: TaskQueueView)
    requires
        queue.preempted.len() > 0,
    ensures
        next_task(queue) == Some(queue.preempted[0]),
        without_next(queue).pending == queue.pending,
{
}

/// A task queue after `n` tasks were handed out.
pub open spec fn after_handing_out(queue: TaskQueueView, n: nat) -> TaskQueueView
    decreases n,
{
    if n == 0 {
        queue
    } else {
        without_next(after_handing_out(queue, (n - 1) as nat))
    }
}

proof fn lemma_after_handing_out(queue: TaskQueueView, n: nat)
    requires
        n <= queue.preempted.len() + queue.pending.len(),
    ensures
        n <= queue.preempted.len() ==> after_handing_out(queue, n) == (TaskQueueView {
            preempted: queue.preempted.skip(n as int),
            ..queue
        }),
        n > queue.preempted.len() ==> after_handing_out(queue, n) == (TaskQueueView {
            preempted: Seq::empty(),
            pending: queue.pending.skip(n - queue.preempted.len()),
            ..queue
        }),
    decreases n,
{
    if n == 0 {
        assert(queue.preempted.skip(0) =~= queue.preempted);
    } else {
        let k = (n - 1) as nat;
        lemma_after_handing_out(queue, k);
        if n <= queue.preempted.len() {
            assert(queue.preempted.skip(k as int).drop_first() =~= queue.preempted.skip(n as int));
        } else if k == queue.preempted.len() {
            assert(queue.preempted.skip(k as int) =~= Seq::empty());
            assert(queue.pending.drop_first() =~= queue.pending.skip(1));
        } else {
            let m = k - queue.preempted.len();
            assert(queue.pending.skip(m).drop_first() =~= queue.pending.skip(m + 1));
        }
    }
}

/// Tasks leave in the order in which they came: first the preempted ones, then the others, each
/// in the order of arrival.
pub proof fn law_first_in_first_out(queue: TaskQueueView, n: nat)
    requires
        n < queue.preempted.len() + queue.pending.len(),
    ensures
        next_task(after_handing_out(queue, n)) == Some((queue.preempted + queue.pending)[n as int]),
{
    lemma_after_handing_out(queue, n);
}

/// A task that has just been handed in and found room leaves after all tasks that were there.
pub proof fn law_new_task_goes_last(queue: TaskQueueView, id: u128, function: u64, now: u64)
    requires
        queue.pending.len() < TASK_QUEUE_CAPACITY,
    ensures
        next_task(
            after_handing_out(
                enqueued(queue, new_entry(id, function, now)),
                queue.preempted.len() + queue.pending.len(),
            ),
        ) == Some(new_entry(id, function, now)),
{
    law_first_in_first_out(
        enqueued(queue, new_entry(id, function, now)),
        queue.preempted.len() + queue.pending.len(),
    );
}

/// A full queue keeps what it has and loses the task that is handed in.
pub proof fn law_full_queue_drops(queue: TaskQueueView, id: u128, function: u64, now: u64)
    requires
        queue.pending.len() >= TASK_QUEUE_CAPACITY,
    ensures
        enqueued(queue, new_entry(id, function, now)) == queue,
{
}

/// Where a task goes that is put into the queue, and that nothing else moves. A task whose function
/// waits goes behind the waiting ones, one that was preempted behind the preempted ones, as long as
/// there is room; any other that runs is listed as in progress under its name; one that is done
/// goes nowhere.
pub proof fn law_tasks_go_where_they_belong(queue: TaskQueueView, task: TaskEntry)
    ensures
        ({
            let after = enqueued(queue, task);
            let preempted = task.state matches TaskState::Running { preempted: true, .. };
            &&& after.pending == if task.state is Pending && queue.pending.len() < 1024 {
                queue.pending.push(task)
            } else {
                queue.pending
            }
            &&& after.preempted == if preempted && queue.preempted.len() < 1024 {
                queue.preempted.push(task)
            } else {
                queue.preempted
            }
            &&& after.in_progress == if task.state is Running && !preempted {
                queue.in_progress.insert(task.id, task)
            } else {
                queue.in_progress
            }
        }),
{
}

/// What noting a task as begun does to the list of those in progress: only a task that is listed
/// with its function still waiting changes. It is then running on the worker since the time
/// given, neither preempted nor blocked, and keeps its name, its priority and its time.
pub proof fn law_marking(queue: TaskQueueView, id: u128, other: u128, tid: i32, now: u64)
    requires
        other != id,
    ensures
        ({
            let after = marked(queue, id, tid, now);
            let listed = queue.in_progress.contains_key(id) && queue.in_progress[id].state
                is Pending;
            &&& after.pending == queue.pending
            &&& after.preempted == queue.preempted
            &&& !listed ==> after.in_progress == queue.in_progress
            &&& after.in_progress.contains_key(other) <==> queue.in_progress.contains_key(other)
            &&& after.in_progress[other] == queue.in_progress[other]
            &&& listed ==> {
                let task = after.in_progress[id];
                &&& after.in_progress.contains_key(id)
                &&& task.id == queue.in_progress[id].id
                &&& task.priority == queue.in_progress[id].priority
                &&& task.enqueue_time == queue.in_progress[id].enqueue_time
                &&& task.state matches TaskState::Running {
                    worker_tid,
                    start_time,
                    preempted,
                    blocked,
                    state,
                } && worker_tid == tid && start_time == now && !preempted && !blocked
                    && state is Running
            }
        }),
{
}

/// A task that is done leaves those in progress, alone.
pub proof fn law_finishing_removes_one(queue: TaskQueueView, id: u128, other: u128)
    requires
        other != id,
    ensures
        !finished(queue, id).in_progress.contains_key(id),
        finished(queue, id).in_progress.contains_key(other) <==> queue.in_progress.contains_key(
            other,
        ),
        queue.in_progress.contains_key(other) ==> finished(queue, id).in_progress[other]
            == queue.in_progress[other],
        finished(queue, id).pending == queue.pending,
        finished(queue, id).preempted == queue.preempted,
{
}

/// A task that is handed in has its function waiting, the lowest priority and the time at which it
/// came; it was not preempted.
pub proof fn law_new_task_waits(id: u128, function: u64, now: u64)
    ensures
        ({
            let task = new_entry(id, function, now);
            &&& task.id == id
            &&& task.state == TaskState::Pending(function)
            &&& task.priority == 0
            &&& task.enqueue_time == now
            &&& !resumable(task)
        }),
{
}

/// A task was taken from its worker before it was done exactly if it is running and is noted as
/// preempted; one that waits or is done never was.
pub proof fn law_resumable(task: TaskEntry)
    ensures
        resumable(task) <==> (task.state matches TaskState::Running { preempted: true, .. }),
        task.state is Pending || task.state is Completed ==> !resumable(task),
{
}

} // verus!
