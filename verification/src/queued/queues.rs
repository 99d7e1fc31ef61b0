//! What the servers share: the queues of workers, the queue of tasks, and the count of tasks.

use crate::bounded::{
    capacity_ok, items, limit, oldest, popped, pushed, queue_len, queue_new, queue_pop, queue_push,
};
use crate::task_run::{lemma_run_after, next_step, run_after, RunStage, RunStep, TaskRun};
use crossbeam_queue::ArrayQueue;
use vstd::prelude::*;

verus! {

/// The workers that are ready, those that run, and those that were taken off their processor, each
/// in the order in which they came.
pub struct WorkerQueues {
    pub pending: ArrayQueue<u64>,
    pub running: ArrayQueue<u64>,
    pub preempted: ArrayQueue<u64>,
}

/// A bounded queue: what it holds, oldest first, and how much it has room for.
#[verifier::ext_equal]
pub struct Bounded {
    pub held: Seq<u64>,
    pub room: nat,
}

/// The contents of the queues of workers.
#[verifier::ext_equal]
pub struct QueuesView {
    pub pending: Bounded,
    pub running: Bounded,
    pub preempted: Bounded,
}

/// The contents of a queue of numbers.
pub open spec fn bounded(q: ArrayQueue<u64>) -> Bounded {
    Bounded { held: items(q), room: limit(q) }
}

/// A queue that holds nothing.
pub open spec fn empty(room: nat) -> Bounded {
    Bounded { held: Seq::empty(), room }
}

/// There is no room left.
pub open spec fn is_full(q: Bounded) -> bool {
    q.held.len() >= q.room
}

/// The queue with `value` behind the others, if there was room.
pub open spec fn put(q: Bounded, value: u64) -> Bounded {
    Bounded { held: pushed(q.held, q.room, value), room: q.room }
}

/// The queue without its oldest element.
pub open spec fn taken(q: Bounded) -> Bounded {
    Bounded { held: popped(q.held), room: q.room }
}

/// The elements without the one that equals `value` and came last, if there is one; the others stay
/// in order.
pub open spec fn without_last(held: Seq<u64>, value: u64) -> Seq<u64>
    decreases held.len(),
{
    if held.len() == 0 {
        held
    } else if held.last() == value {
        held.drop_last()
    } else {
        without_last(held.drop_last(), value).push(held.last())
    }
}

/// The queue without the element that equals `value` and came last.
pub open spec fn taken_back(q: Bounded, value: u64) -> Bounded {
    Bounded { held: without_last(q.held, value), room: q.room }
}

proof fn lemma_without_last_at(held: Seq<u64>, value: u64, at: int)
    requires
        0 <= at < held.len(),
        held[at] == value,
        forall|i: int| at < i < held.len() ==> held[i] != value,
    ensures
        without_last(held, value) == held.remove(at),
    decreases held.len(),
{
    if at == held.len() - 1 {
        assert(held.remove(at) =~= held.drop_last());
    } else {
        lemma_without_last_at(held.drop_last(), value, at);
        assert(held.remove(at) =~= held.drop_last().remove(at).push(held.last()));
    }
}

proof fn lemma_without_last_absent(held: Seq<u64>, value: u64)
    requires
        forall|i: int| 0 <= i < held.len() ==> held[i] != value,
    ensures
        without_last(held, value) == held,
    decreases held.len(),
{
    if held.len() > 0 {
        lemma_without_last_absent(held.drop_last(), value);
        assert(held.drop_last().push(held.last()) =~= held);
    }
}

impl View for WorkerQueues {
    type V = QueuesView;

    open spec fn view(&self) -> QueuesView {
        QueuesView {
            pending: bounded(self.pending),
            running: bounded(self.running),
            preempted: bounded(self.preempted),
        }
    }
}

impl WorkerQueues {
    /// Three empty queues, each with room for `capacity` workers.
    pub fn new(capacity: usize) -> (r: WorkerQueues)
        requires
            capacity_ok(capacity),
        ensures
            r@ == (QueuesView {
                pending: empty(capacity as nat),
                running: empty(capacity as nat),
                preempted: empty(capacity as nat),
            }),
    {
        WorkerQueues {
            pending: queue_new(capacity),
            running: queue_new(capacity),
            preempted: queue_new(capacity),
        }
    }

    /// Puts a worker behind those that are ready; says whether there was room.
    pub fn push_pending(&mut self, worker_id: u64) -> (r: bool)
        ensures
            r == !is_full(old(self)@.pending),
            final(self)@ == (QueuesView {
                pending: put(old(self)@.pending, worker_id),
                ..old(self)@
            }),
    {
        queue_push(&mut self.pending, worker_id).is_ok()
    }

    /// Takes out the worker that has been ready for longest.
    pub fn pop_pending(&mut self) -> (r: Option<u64>)
        ensures
            r == oldest(old(self)@.pending.held),
            final(self)@ == (QueuesView { pending: taken(old(self)@.pending), ..old(self)@ }),
    {
        queue_pop(&mut self.pending)
    }

    /// Puts a worker behind those that run; says whether there was room.
    pub fn push_running(&mut self, worker_id: u64) -> (r: bool)
        ensures
            r == !is_full(old(self)@.running),
            final(self)@ == (QueuesView {
                running: put(old(self)@.running, worker_id),
                ..old(self)@
            }),
    {
        queue_push(&mut self.running, worker_id).is_ok()
    }

    /// Takes out the worker that has been running for longest.
    pub fn pop_running(&mut self) -> (r: Option<u64>)
        ensures
            r == oldest(old(self)@.running.held),
            final(self)@ == (QueuesView { running: taken(old(self)@.running), ..old(self)@ }),
    {
        queue_pop(&mut self.running)
    }

    /// Takes a worker back that was put behind those that run: of its places among them, the last
    /// one. The others keep their order.
    pub fn take_back_running(&mut self, worker_id: u64)
        ensures
            final(self)@ == (QueuesView {
                running: taken_back(old(self)@.running, worker_id),
                ..old(self)@
            }),
    {
        let count = queue_len(&self.running);
        let ghost held = self@.running.held;
        let mut all: Vec<u64> = Vec::new();
        let mut found: Option<usize> = None;
        let mut index: usize = 0;
        while index < count
            invariant
                index <= count == held.len(),
                all@ == held.take(index as int),
                self@ == (QueuesView {
                    running: Bounded {
                        held: held.skip(index as int),
                        room: old(self)@.running.room,
                    },
                    ..old(self)@
                }),
                match found {
                    Some(at) => at < index && held[at as int] == worker_id && forall|i: int|
                        at < i < index ==> held[i] != worker_id,
                    None => forall|i: int| 0 <= i < index ==> held[i] != worker_id,
                },
            decreases count - index,
        {
            match queue_pop(&mut self.running) {
                Some(id) => {
                    if id == worker_id {
                        found = Some(index);
                    }
                    all.push(id);
                },
                None => {},
            }
            assert(all@ =~= held.take(index + 1));
            assert(self@.running.held =~= held.skip(index + 1));
            index = index + 1;
        }
        assert(all@ =~= held);
        let ghost rest = without_last(held, worker_id);
        if let Some(at) = found {
            proof {
                lemma_without_last_at(held, worker_id, at as int);
            }
            all.remove(at);
        } else {
            proof {
                lemma_without_last_absent(held, worker_id);
            }
        }
        assert(all@ =~= rest);
        let mut next: usize = 0;
        while next < all.len()
            invariant
                next <= all@.len() <= held.len() <= old(self)@.running.room,
                all@ == rest,
                self@ == (QueuesView {
                    running: Bounded {
                        held: rest.take(next as int),
                        room: old(self)@.running.room,
                    },
                    ..old(self)@
                }),
            decreases all@.len() - next,
        {
            let _ = queue_push(&mut self.running, all[next]);
            assert(self@.running.held =~= rest.take(next + 1));
            next = next + 1;
        }
        assert(rest.take(next as int) =~= rest);
    }

    /// How many workers are ready, and how many run.
    pub fn lengths(&self) -> (r: (usize, usize))
        ensures
            r.0 == self@.pending.held.len(),
            r.0 <= self@.pending.room,
            r.1 == self@.running.held.len(),
            r.1 <= self@.running.room,
    {
        (queue_len(&self.pending), queue_len(&self.running))
    }
}

/// The tasks that wait for a worker, in the order in which they came.
pub struct TaskQueue {
    pub queue: ArrayQueue<u64>,
}

impl View for TaskQueue {
    type V = Bounded;

    open spec fn view(&self) -> Bounded {
        bounded(self.queue)
    }
}

impl TaskQueue {
    /// An empty queue with room for `capacity` tasks.
    pub fn new(capacity: usize) -> (r: TaskQueue)
        requires
            capacity_ok(capacity),
        ensures
            r@ == empty(capacity as nat),
    {
        TaskQueue { queue: queue_new(capacity) }
    }

    /// Puts a task behind the others, or hands it back if there is no room.
    pub fn add_task(&mut self, task: u64) -> (r: Result<(), u64>)
        ensures
            r == (if is_full(old(self)@) {
                Err::<(), u64>(task)
            } else {
                Ok(())
            }),
            final(self)@ == put(old(self)@, task),
    {
        queue_push(&mut self.queue, task)
    }

    /// Takes out the task that came first, if there is one.
    pub fn remove_task(&mut self) -> (r: Option<u64>)
        ensures
            r == oldest(old(self)@.held),
            final(self)@ == taken(old(self)@),
    {
        queue_pop(&mut self.queue)
    }

    /// Whether a task is waiting.
    pub fn has_pending_tasks(&self) -> (r: bool)
        ensures
            r == (self@.held.len() > 0),
    {
        queue_len(&self.queue) > 0
    }
}

/// How many tasks were handed in, and how many are done.
#[derive(Debug, Copy, Clone, PartialEq, Eq, Structural)]
pub struct TaskStats {
    pub total_tasks: usize,
    pub completed_tasks: usize,
}

/// A task is done, all are.
pub open spec fn all_done(stats: TaskStats) -> bool {
    stats.completed_tasks > 0 && stats.completed_tasks == stats.total_tasks
}

impl TaskStats {
    /// No task so far.
    pub fn new() -> (r: TaskStats)
        ensures
            r == (TaskStats { total_tasks: 0, completed_tasks: 0 }),
    {
        TaskStats { total_tasks: 0, completed_tasks: 0 }
    }

    /// Counts a task that was handed in.
    pub fn register_task(&mut self)
        ensures
            *final(self) == (TaskStats {
                total_tasks: vstd::wrapping::usize_specs::wrapping_add(old(self).total_tasks, 1),
                ..*old(self)
            }),
    {
        self.total_tasks = self.total_tasks.wrapping_add(1);
    }

    /// Counts a task that is done.
    pub fn mark_completed(&mut self)
        ensures
            *final(self) == (TaskStats {
                completed_tasks: vstd::wrapping::usize_specs::wrapping_add(
                    old(self).completed_tasks,
                    1,
                ),
                ..*old(self)
            }),
    {
        self.completed_tasks = self.completed_tasks.wrapping_add(1);
    }

    /// Whether some task is done and as many are done as were handed in.
    pub fn all_tasks_completed(&self) -> (r: bool)
        ensures
            r == all_done(*self),
    {
        self.completed_tasks > 0 && self.completed_tasks == self.total_tasks
    }

    /// How many tasks are done, and how many were handed in.
    pub fn get_completion_stats(&self) -> (r: (usize, usize))
        ensures
            r == (self.completed_tasks, self.total_tasks),
    {
        (self.completed_tasks, self.total_tasks)
    }
}

/// What a task is handed in by: the queue of tasks and their count.
pub struct TaskHandle {
    pub task_queue: TaskQueue,
    pub task_stats: TaskStats,
}

impl TaskHandle {
    /// Hands in a task. It counts as handed in even if there is no room for it, in which case it
    /// is handed back and will never run.
    pub fn submit(&mut self, task: u64) -> (r: Option<u64>)
        ensures
            final(self).task_queue@ == put(old(self).task_queue@, task),
            final(self).task_stats == (TaskStats {
                total_tasks: vstd::wrapping::usize_specs::wrapping_add(
                    old(self).task_stats.total_tasks,
                    1,
                ),
                ..old(self).task_stats
            }),
            r == (if is_full(old(self).task_queue@) {
                Some(task)
            } else {
                None::<u64>
            }),
    {
        self.task_stats.register_task();
        match self.task_queue.add_task(task) {
            Ok(_) => None,
            Err(task) => Some(task),
        }
    }
}

/// The counts after the next step in the run of a task: only the step that marks it changes them.
pub open spec fn stats_after(stats: TaskStats, run: TaskRun) -> TaskStats {
    if next_step(run).1 is Mark {
        TaskStats {
            completed_tasks: vstd::wrapping::usize_specs::wrapping_add(stats.completed_tasks, 1),
            ..stats
        }
    } else {
        stats
    }
}

impl TaskHandle {
    /// Takes the run of a task further: hands out its function once, to be called, and counts the
    /// task as done when that came back. Returns nothing once the task is over.
    pub fn advance(&mut self, run: &mut TaskRun) -> (r: Option<u64>)
        ensures
            final(self).task_queue@ == old(self).task_queue@,
            final(self).task_stats == stats_after(old(self).task_stats, *old(run)),
            *final(run) == next_step(*old(run)).0,
            r == (match next_step(*old(run)).1 {
                RunStep::Call { function } => Some(function),
                _ => None,
            }),
    {
        match run.step() {
            RunStep::Call { function } => Some(function),
            RunStep::Mark => {
                self.task_stats.mark_completed();
                None
            },
            RunStep::Stop => None,
        }
    }
}

/// However often the run of a task is taken further, and whatever the counts are by then: its
/// function is handed out exactly once, in the first step, which leaves the counts as they are; the
/// second step, after the function came back, counts exactly one more task as done; and no later
/// step does anything.
pub proof fn law_task_is_run_once_and_then_counted(function: u64, steps: nat, stats: TaskStats)
    requires
        steps == 1 ==> stats.completed_tasks < usize::MAX,
    ensures
        ({
            let run = run_after(TaskRun { function, stage: RunStage::Waiting }, steps);
            let next = stats_after(stats, run);
            &&& next_step(run).1 == (RunStep::Call { function }) <==> steps == 0
            &&& next_step(run).1 is Call ==> steps == 0
            &&& next == (TaskStats {
                completed_tasks: (stats.completed_tasks + if steps == 1 {
                    1int
                } else {
                    0
                }) as usize,
                ..stats
            })
        }),
{
    lemma_run_after(function, steps);
}

/// A queue with room gives its elements back in the order in which they came: what was put in last
/// comes out after all that was there.
pub proof fn law_first_in_first_out(q: Bounded, value: u64)
    requires
        !is_full(q),
    ensures
        q.held.len() == 0 ==> oldest(put(q, value).held) == Some(value) && taken(put(q, value))
            == q,
        q.held.len() > 0 ==> oldest(put(q, value).held) == oldest(q.held) && taken(put(q, value))
            == put(taken(q), value),
{
    if q.held.len() > 0 {
        assert(q.held.push(value).drop_first() =~= q.held.drop_first().push(value));
    } else {
        assert(q.held.push(value).drop_first() =~= q.held);
    }
}

/// A worker that was put behind those that run and is taken back leaves them as they were.
pub proof fn law_taken_back_is_undone(q: Bounded, value: u64)
    requires
        !is_full(q),
    ensures
        taken_back(put(q, value), value) == q,
{
    assert(q.held.push(value).drop_last() =~= q.held);
}

/// A queue never holds more than it has room for.
pub proof fn law_bound_is_kept(q: Bounded, value: u64)
    requires
        q.held.len() <= q.room,
    ensures
        put(q, value).held.len() <= q.room,
        put(q, value).room == q.room,
        taken(q).held.len() <= q.room,
        taken(q).room == q.room,
        taken_back(q, value).held.len() <= q.room,
        taken_back(q, value).room == q.room,
{
    lemma_without_last_len(q.held, value);
}

proof fn lemma_without_last_len(held: Seq<u64>, value: u64)
    ensures
        without_last(held, value).len() <= held.len(),
    decreases held.len(),
{
    if held.len() > 0 {
        lemma_without_last_len(held.drop_last(), value);
    }
}

/// A queue that has no room stays as it is, and a task that is put there is handed back.
pub proof fn law_full_queue_refuses(q: Bounded, value: u64)
    requires
        is_full(q),
    ensures
        put(q, value) == q,
{
}

/// What is taken back is one occurrence only, the one that came last; if there is none the queue
/// stays as it is.
pub proof fn law_last_occurrence_is_taken_back(q: Bounded, value: u64, at: int)
    ensures
        0 <= at < q.held.len() && q.held[at] == value && (forall|i: int|
            at < i < q.held.len() ==> q.held[i] != value) ==> taken_back(q, value).held
            == q.held.remove(at),
        !q.held.contains(value) ==> taken_back(q, value) == q,
        taken_back(q, value).room == q.room,
{
    if 0 <= at < q.held.len() && q.held[at] == value && (forall|i: int|
        at < i < q.held.len() ==> q.held[i] != value) {
        lemma_without_last_at(q.held, value, at);
    }
    if !q.held.contains(value) {
        assert forall|i: int| 0 <= i < q.held.len() implies q.held[i] != value by {
            if q.held[i] == value {
                assert(q.held.contains(value));
            }
        }
        lemma_without_last_absent(q.held, value);
    }
}

/// What is put into a queue with room is its last element and nothing before it moves; taking out
/// of a queue takes its first element and nothing else; an empty queue stays empty.
pub proof fn law_put_and_taken(q: Bounded, value: u64)
    ensures
        put(q, value).room == q.room,
        taken(q).room == q.room,
        q.held.len() < q.room ==> put(q, value).held == q.held.push(value),
        q.held.len() >= q.room ==> put(q, value).held == q.held,
        q.held.len() > 0 ==> taken(q).held == q.held.subrange(1, q.held.len() as int),
        q.held.len() == 0 ==> taken(q).held == q.held,
{
    if q.held.len() > 0 {
        assert(q.held.drop_first() =~= q.held.subrange(1, q.held.len() as int));
    }
}

/// All tasks count as done exactly if there was one and as many are done as were handed in.
pub proof fn law_all_done(handed_in: usize, done: usize)
    ensures
        all_done(TaskStats { total_tasks: handed_in, completed_tasks: done }) <==> handed_in == done
            && handed_in > 0,
{
}

} // verus!
