//! Which tasks were handed in, and which of them are done.

use std::collections::HashMap;
use vstd::prelude::*;

verus! {

broadcast use vstd::std_specs::hash::group_hash_axioms;

/// For every registered task whether it is done, with the number of registrations and the number
/// of completions.
pub struct TaskStats {
    pub completed_tasks: HashMap<u128, bool>,
    pub total_tasks: usize,
    pub completed_count: usize,
}

/// The contents of the statistics.
#[verifier::ext_equal]
pub struct StatsView {
    pub tasks: Map<u128, bool>,
    pub total: usize,
    pub completed: usize,
}

/// The registered tasks that are not done.
pub open spec fn open_tasks(tasks: Map<u128, bool>) -> Set<u128> {
    tasks.dom().filter(|id: u128| !tasks[id])
}

/// The statistics once `task_id` is registered. A task that was registered before counts again and
/// is open again.
pub open spec fn registered(stats: StatsView, task_id: u128) -> StatsView {
    StatsView {
        tasks: stats.tasks.insert(task_id, false),
        total: vstd::wrapping::usize_specs::wrapping_add(stats.total, 1),
        completed: stats.completed,
    }
}

/// The statistics once `task_id` is reported as done: nothing changes for a task that is unknown
/// or done already.
pub open spec fn completed(stats: StatsView, task_id: u128) -> StatsView {
    if stats.tasks.contains_key(task_id) && !stats.tasks[task_id] {
        StatsView {
            tasks: stats.tasks.insert(task_id, true),
            total: stats.total,
            completed: vstd::wrapping::usize_specs::wrapping_add(stats.completed, 1),
        }
    } else {
        stats
    }
}

/// Every registration is accounted for by a completion or by an open task, or its task was
/// registered again since.
pub open spec fn accounted(stats: StatsView) -> bool {
    &&& stats.tasks.dom().finite()
    &&& stats.completed + open_tasks(stats.tasks).len() <= stats.total
}

/// Every registration is accounted for by exactly one completion or open task.
pub open spec fn balanced(stats: StatsView) -> bool {
    &&& stats.tasks.dom().finite()
    &&& stats.completed + open_tasks(stats.tasks).len() == stats.total
}

/// There was at least one registration, and as many completions.
pub open spec fn all_completed(stats: StatsView) -> bool {
    stats.completed == stats.total && stats.total > 0
}

impl View for TaskStats {
    type V = StatsView;

    open spec fn view(&self) -> StatsView {
        StatsView {
            tasks: self.completed_tasks@,
            total: self.total_tasks,
            completed: self.completed_count,
        }
    }
}

impl TaskStats {
    /// No tasks yet.
    pub fn new() -> (r: TaskStats)
        ensures
            r@ == (StatsView { tasks: Map::empty(), total: 0, completed: 0 }),
            balanced(r@),
    {
        let r = TaskStats { completed_tasks: HashMap::new(), total_tasks: 0, completed_count: 0 };
        assert(open_tasks(r@.tasks) =~= Set::empty());
        r
    }

    /// Notes that a task was handed in.
    pub fn register_task(&mut self, task_id: u128)
        ensures
            final(self)@ == registered(old(self)@, task_id),
    {
        self.completed_tasks.insert(task_id, false);
        self.total_tasks = self.total_tasks.wrapping_add(1);
    }

    /// Notes that a task is done. A second report of the same task changes nothing.
    pub fn mark_completed(&mut self, task_id: u128)
        ensures
            final(self)@ == completed(old(self)@, task_id),
    {
        let open = match self.completed_tasks.get(&task_id) {
            Some(done) => !*done,
            None => false,
        };
        if open {
            self.completed_tasks.insert(task_id, true);
            self.completed_count = self.completed_count.wrapping_add(1);
        }
    }

    /// Whether tasks were handed in and all of them are done.
    pub fn all_tasks_completed(&self) -> (r: bool)
        ensures
            r == all_completed(self@),
    {
        self.completed_count == self.total_tasks && self.total_tasks > 0
    }

    /// The numbers of completions and of registrations.
    pub fn get_completion_stats(&self) -> (r: (usize, usize))
        ensures
            r == (self@.completed, self@.total),
    {
        (self.completed_count, self.total_tasks)
    }
}

proof fn lemma_open_after_false(tasks: Map<u128, bool>, id: u128)
    requires
        tasks.dom().finite(),
    ensures
        open_tasks(tasks.insert(id, false)) == open_tasks(tasks).insert(id),
        open_tasks(tasks).finite(),
{
    assert(open_tasks(tasks.insert(id, false)) =~= open_tasks(tasks).insert(id));
}

proof fn lemma_open_after_true(tasks: Map<u128, bool>, id: u128)
    requires
        tasks.dom().finite(),
    ensures
        open_tasks(tasks.insert(id, true)) == open_tasks(tasks).remove(id),
        open_tasks(tasks).finite(),
{
    assert(open_tasks(tasks.insert(id, true)) =~= open_tasks(tasks).remove(id));
}

/// No registration and no report of a completion ever makes the books wrong: completions and open
/// tasks together never exceed the registrations. (The count of registrations has an end; the law
/// speaks of what comes before it.)
pub proof fn law_stats_stay_accounted(stats: StatsView, task_id: u128)
    requires
        accounted(stats),
        stats.total < usize::MAX,
    ensures
        accounted(registered(stats, task_id)),
        accounted(completed(stats, task_id)),
        completed(stats, task_id).completed >= stats.completed,
{
    lemma_open_after_false(stats.tasks, task_id);
    lemma_open_after_true(stats.tasks, task_id);
}

/// While each task is registered once, completions and open tasks make up the registrations
/// exactly.
pub proof fn law_stats_stay_balanced(stats: StatsView, task_id: u128)
    requires
        balanced(stats),
        stats.total < usize::MAX,
    ensures
        !stats.tasks.contains_key(task_id) ==> balanced(registered(stats, task_id)),
        balanced(completed(stats, task_id)),
{
    lemma_open_after_false(stats.tasks, task_id);
    lemma_open_after_true(stats.tasks, task_id);
}

/// When all tasks count as completed, none of them is open.
pub proof fn law_all_completed_leaves_none_open(stats: StatsView)
    requires
        accounted(stats),
        all_completed(stats),
    ensures
        forall|id: u128| #[trigger] stats.tasks.contains_key(id) ==> stats.tasks[id],
{
    lemma_open_after_false(stats.tasks, 0);
    assert forall|id: u128| #[trigger] stats.tasks.contains_key(id) implies stats.tasks[id] by {
        if !stats.tasks[id] {
            assert(open_tasks(stats.tasks).contains(id));
        }
    }
}

/// While each task is registered once, all tasks count as completed exactly when there is one and
/// none is open.
pub proof fn law_all_completed_iff_none_open(stats: StatsView)
    requires
        balanced(stats),
    ensures
        all_completed(stats) <==> stats.total > 0 && forall|id: u128| #[trigger]
            stats.tasks.contains_key(id) ==> stats.tasks[id],
{
    if all_completed(stats) {
        law_all_completed_leaves_none_open(stats);
    }
    if forall|id: u128| #[trigger] stats.tasks.contains_key(id) ==> stats.tasks[id] {
        assert(open_tasks(stats.tasks) =~= Set::empty());
    }
}

/// Reporting a task a second time changes nothing.
pub proof fn law_completing_twice_is_once(stats: StatsView, task_id: u128)
    ensures
        completed(completed(stats, task_id), task_id) == completed(stats, task_id),
{
}

/// A registration leaves its task open, whether or not it was known or done before, counts one more
/// task, and changes neither any other task nor the number of completions.
pub proof fn law_registered_task_is_open(stats: StatsView, task_id: u128, other: u128)
    requires
        other != task_id,
    ensures
        ({
            let after = registered(stats, task_id);
            &&& after.tasks.contains_key(task_id) && !after.tasks[task_id]
            &&& after.tasks.contains_key(other) <==> stats.tasks.contains_key(other)
            &&& stats.tasks.contains_key(other) ==> after.tasks[other] == stats.tasks[other]
            &&& after.total == if stats.total == usize::MAX {
                0
            } else {
                stats.total + 1
            }
            &&& after.completed == stats.completed
        }),
{
}

/// A report of completion counts exactly if its task is registered and open; the task is then done.
/// It registers nothing, and changes neither any other task nor the number of registrations.
pub proof fn law_open_task_is_completed_once(stats: StatsView, task_id: u128, other: u128)
    requires
        other != task_id,
    ensures
        ({
            let after = completed(stats, task_id);
            let open = stats.tasks.contains_key(task_id) && !stats.tasks[task_id];
            &&& after.completed == if !open {
                stats.completed as int
            } else if stats.completed == usize::MAX {
                0
            } else {
                stats.completed + 1
            }
            &&& after.total == stats.total
            &&& after.tasks.contains_key(task_id) <==> stats.tasks.contains_key(task_id)
            &&& after.tasks.contains_key(task_id) ==> after.tasks[task_id]
            &&& after.tasks.contains_key(other) <==> stats.tasks.contains_key(other)
            &&& stats.tasks.contains_key(other) ==> after.tasks[other] == stats.tasks[other]
        }),
{
}

/// Where the books are right, tasks that were handed in never all count as completed right after a
/// further one was.
pub proof fn law_registration_reopens(stats: StatsView, task_id: u128)
    requires
        accounted(stats),
        stats.total < usize::MAX,
    ensures
        !all_completed(registered(stats, task_id)),
{
}

} // verus!
