//! An executor: it spreads tasks over its servers in turn and keeps count of those that are done.

use crate::ident::{is_random_uuid, random_id};
use crate::pooled::server::{added, Server};
use crate::pooled::task::{
    new_entry, Task, TaskEntry, TaskQueueView, TaskState, TASK_QUEUE_CAPACITY,
};
use crate::task_run::{lemma_run_after, next_step, run_after, RunStage, RunStep, TaskRun};
use crate::task_stats::{accounted, all_completed, completed, registered, StatsView, TaskStats};
use vstd::prelude::*;

verus! {

/// How many servers an executor has, how many workers each of them has, and the processor of the
/// first server; the others follow it.
#[derive(Debug, Copy, Clone, PartialEq, Eq, Structural)]
pub struct ExecutorConfig {
    pub server_count: usize,
    pub worker_count: usize,
    pub start_cpu: usize,
}

impl Default for ExecutorConfig {
    /// One server with three workers, on the first processor.
    fn default() -> (r: ExecutorConfig)
        ensures
            r == (ExecutorConfig { server_count: 1, worker_count: 3, start_cpu: 0 }),
    {
        ExecutorConfig { server_count: 1, worker_count: 3, start_cpu: 0 }
    }
}

/// An executor.
pub struct Executor {
    pub servers: Vec<Server>,
    pub next_server: usize,
    pub config: ExecutorConfig,
    pub task_stats: TaskStats,
}

/// A server that was just made: the one with number `index` of an executor.
pub open spec fn fresh_server(server: &Server, index: int, config: ExecutorConfig) -> bool {
    &&& server.wf()
    &&& server.id == index
    &&& server.cpu_id == config.start_cpu + index
    &&& server.worker_pool.total_workers == config.worker_count
    &&& server@.core.pool == Map::<i32, crate::pooled::pool::Worker>::empty()
    &&& server@.core.queue == (TaskQueueView {
        pending: Seq::empty(),
        preempted: Seq::empty(),
        in_progress: Map::empty(),
    })
    &&& !server@.done
    &&& server@.calls.len() == 0
}

/// Nothing but the servers' contents changed.
pub open spec fn same_executor(before: &Executor, after: &Executor) -> bool {
    &&& after.wf()
    &&& after.config == before.config
    &&& after.servers@.len() == before.servers@.len()
}

/// The server whose turn it is.
pub open spec fn turn_of(next_server: usize, server_count: usize) -> int {
    (next_server % server_count) as int
}

/// A function was handed in: it is registered as `task_id`, and the server whose turn it was has
/// it under the name `entry_id`.
pub open spec fn submitted(
    before: &Executor,
    after: &Executor,
    function: u64,
    task_id: u128,
    entry_id: u128,
    now: u64,
) -> bool {
    let turn = turn_of(before.next_server, before.config.server_count);
    &&& same_executor(before, after)
    &&& after.next_server == vstd::wrapping::usize_specs::wrapping_add(before.next_server, 1)
    &&& after.task_stats@ == registered(before.task_stats@, task_id)
    &&& added(
        &before.servers@[turn],
        &after.servers@[turn],
        Task::Function(function),
        entry_id,
        now,
    )
    &&& forall|i: int|
        0 <= i < before.servers@.len() && i != turn ==> #[trigger] after.servers@[i]
            == before.servers@[i]
}

/// The statistics after the next step in the run of a task: only the step that marks it changes
/// them.
pub open spec fn stats_after(stats: StatsView, run: TaskRun, task_id: u128) -> StatsView {
    if next_step(run).1 is Mark {
        completed(stats, task_id)
    } else {
        stats
    }
}

impl Executor {
    /// What holds of every executor.
    pub open spec fn wf(&self) -> bool {
        &&& self.servers@.len() == self.config.server_count
        &&& forall|i: int| 0 <= i < self.servers@.len() ==> (#[trigger] self.servers@[i]).wf()
    }

    /// An executor with fresh servers and no tasks.
    pub fn new(config: ExecutorConfig) -> (r: Executor)
        requires
            config.start_cpu + config.server_count <= usize::MAX + 1,
        ensures
            r.wf(),
            r.config == config,
            r.next_server == 0,
            r.task_stats@ == (StatsView { tasks: Map::empty(), total: 0, completed: 0 }),
            forall|i: int|
                0 <= i < config.server_count ==> fresh_server(
                    &#[trigger] r.servers@[i],
                    i,
                    config,
                ),
    {
        let mut servers: Vec<Server> = Vec::new();
        let mut index: usize = 0;
        while index < config.server_count
            invariant
                index <= config.server_count,
                config.start_cpu + config.server_count <= usize::MAX + 1,
                servers@.len() == index,
                forall|i: int|
                    0 <= i < index ==> fresh_server(&#[trigger] servers@[i], i, config),
            decreases config.server_count - index,
        {
            servers.push(Server::new(index, config.start_cpu + index, config.worker_count));
            index = index + 1;
        }
        Executor { servers, next_server: 0, config, task_stats: TaskStats::new() }
    }

    /// Hands in a function under random names, and returns the one to report when it is done.
    pub fn submit(&mut self, function: u64, now: u64) -> (task_id: u128)
        requires
            old(self).wf(),
            old(self).config.server_count > 0,
        ensures
            is_random_uuid(task_id),
            exists|entry_id: u128| #[trigger]
                submitted(old(self), final(self), function, task_id, entry_id, now)
                    && is_random_uuid(entry_id),
    {
        let task_id = random_id();
        let entry_id = random_id();
        self.submit_as(function, task_id, entry_id, now);
        task_id
    }

    /// Hands in a function: it is registered as `task_id`, and the server whose turn it is gets it
    /// under the name `entry_id`.
    pub fn submit_as(&mut self, function: u64, task_id: u128, entry_id: u128, now: u64)
        requires
            old(self).wf(),
            old(self).config.server_count > 0,
        ensures
            submitted(old(self), final(self), function, task_id, entry_id, now),
    {
        self.task_stats.register_task(task_id);
        let turn: usize = self.next_server % self.config.server_count;
        self.next_server = self.next_server.wrapping_add(1);
        self.servers[turn].add_task_as(Task::Function(function), entry_id, now);
    }

    /// Takes the run of the task `task_id` further: hands out its function once, to be called, and
    /// counts the task as done when that came back. Returns nothing once the task is over.
    pub fn advance(&mut self, run: &mut TaskRun, task_id: u128) -> (r: Option<u64>)
        requires
            old(self).wf(),
        ensures
            same_executor(old(self), final(self)),
            final(self).servers@ == old(self).servers@,
            final(self).next_server == old(self).next_server,
            *final(run) == next_step(*old(run)).0,
            final(self).task_stats@ == stats_after(old(self).task_stats@, *old(run), task_id),
            r == (match next_step(*old(run)).1 {
                RunStep::Call { function } => Some(function),
                _ => None,
            }),
    {
        match run.step() {
            RunStep::Call { function } => Some(function),
            RunStep::Mark => {
                self.task_stats.mark_completed(task_id);
                None
            },
            RunStep::Stop => None,
        }
    }

    /// Whether there was a task and all are done.
    pub fn all_tasks_completed(&self) -> (r: bool)
        ensures
            r == all_completed(self.task_stats@),
    {
        self.task_stats.all_tasks_completed()
    }

    /// How many tasks are done, and how many were handed in.
    pub fn get_completion_stats(&self) -> (r: (usize, usize))
        ensures
            r == (self.task_stats@.completed, self.task_stats@.total),
    {
        self.task_stats.get_completion_stats()
    }

    /// Tells every server to stop.
    pub fn shutdown(&mut self)
        requires
            old(self).wf(),
        ensures
            same_executor(old(self), final(self)),
            final(self).next_server == old(self).next_server,
            final(self).task_stats@ == old(self).task_stats@,
            forall|i: int|
                0 <= i < old(self).servers@.len() ==> added(
                    &old(self).servers@[i],
                    &#[trigger] final(self).servers@[i],
                    Task::Shutdown,
                    0,
                    0,
                ),
    {
        let mut index: usize = 0;
        while index < self.servers.len()
            invariant
                index <= self.servers@.len(),
                self.wf(),
                same_executor(old(self), self),
                self.next_server == old(self).next_server,
                self.task_stats@ == old(self).task_stats@,
                forall|i: int|
                    0 <= i < index ==> added(
                        &old(self).servers@[i],
                        &#[trigger] self.servers@[i],
                        Task::Shutdown,
                        0,
                        0,
                    ),
                forall|i: int|
                    index <= i < self.servers@.len() ==> #[trigger] self.servers@[i] == old(
                        self,
                    ).servers@[i],
            decreases self.servers@.len() - index,
        {
            self.servers[index].add_task_as(Task::Shutdown, 0, 0);
            index = index + 1;
        }
    }
}

/// The turn after `count` more submissions.
pub open spec fn next_after(next_server: usize, count: nat) -> usize
    decreases count,
{
    if count == 0 {
        next_server
    } else {
        vstd::wrapping::usize_specs::wrapping_add(
            next_after(next_server, (count - 1) as nat),
            1,
        )
    }
}

/// As long as the counter of submissions does not run over, the one after `count` others goes
/// `count` servers further, and begins again at the first after the last.
pub proof fn law_submissions_take_turns(next_server: usize, count: nat, server_count: usize)
    requires
        server_count > 0,
        next_server + count <= usize::MAX,
    ensures
        turn_of(next_after(next_server, count), server_count) == (turn_of(
            next_server,
            server_count,
        ) + count) % (server_count as int),
{
    lemma_next_after(next_server, count);
    vstd::arithmetic::div_mod::lemma_add_mod_noop_right(
        count as int,
        next_server as int,
        server_count as int,
    );
}

proof fn lemma_next_after(next_server: usize, count: nat)
    requires
        next_server + count <= usize::MAX,
    ensures
        next_after(next_server, count) == next_server + count,
    decreases count,
{
    if count > 0 {
        lemma_next_after(next_server, (count - 1) as nat);
    }
}

/// As many submissions in a row as there are servers go to different servers, as long as the
/// counter of submissions does not run over.
pub proof fn law_round_reaches_every_server(
    next_server: usize,
    first: nat,
    second: nat,
    server_count: usize,
)
    requires
        first < second < server_count,
        next_server + second <= usize::MAX,
    ensures
        turn_of(next_after(next_server, first), server_count) != turn_of(
            next_after(next_server, second),
            server_count,
        ),
{
    lemma_next_after(next_server, first);
    lemma_next_after(next_server, second);
    let a = next_server + first;
    let b = next_server + second;
    let c = server_count as int;
    if a % c == b % c {
        vstd::arithmetic::div_mod::lemma_fundamental_div_mod(a, c);
        vstd::arithmetic::div_mod::lemma_fundamental_div_mod(b, c);
        let steps = b / c - a / c;
        assert(b - a == c * steps) by (nonlinear_arith)
            requires
                a == c * (a / c) + a % c,
                b == c * (b / c) + b % c,
                a % c == b % c,
                steps == b / c - a / c,
        ;
        assert(false) by (nonlinear_arith)
            requires
                b - a == c * steps,
                0 < b - a < c,
        ;
    }
}

/// A function that was handed in, with the names under which it was registered and queued, and the
/// time.
pub struct Submission {
    pub function: u64,
    pub task_id: u128,
    pub entry_id: u128,
    pub now: u64,
}

/// An executor that was just made.
pub open spec fn fresh_executor(executor: &Executor, config: ExecutorConfig) -> bool {
    &&& executor.wf()
    &&& executor.config == config
    &&& executor.next_server == 0
    &&& executor.task_stats@ == (StatsView { tasks: Map::empty(), total: 0, completed: 0 })
    &&& forall|i: int|
        0 <= i < config.server_count ==> fresh_server(&#[trigger] executor.servers@[i], i, config)
}

/// The executor went through these states as these functions were handed in one after the other,
/// and nothing else happened to it.
pub open spec fn handed_in(states: Seq<Executor>, submissions: Seq<Submission>) -> bool {
    &&& states.len() == submissions.len() + 1
    &&& forall|i: int|
        0 <= i < submissions.len() ==> {
            let s = #[trigger] submissions[i];
            submitted(&states[i], &states[i + 1], s.function, s.task_id, s.entry_id, s.now)
        }
}

/// How many of `count` tasks the server with this number gets, of `servers` that take turns.
pub open spec fn share(count: nat, server: int, servers: int) -> int {
    count as int / servers + if server < count as int % servers {
        1int
    } else {
        0
    }
}

/// The tasks that the server with this number gets of the first `count` submissions, in order:
/// those whose number, divided by the number of servers, leaves the server's own.
pub open spec fn portion(
    submissions: Seq<Submission>,
    count: nat,
    server: int,
    servers: int,
) -> Seq<TaskEntry> {
    Seq::new(
        share(count, server, servers) as nat,
        |m: int|
            {
                let s = submissions[m * servers + server];
                new_entry(s.entry_id, s.function, s.now)
            },
    )
}

/// As many tasks as all queues of a fresh executor have room for can be handed in without losing
/// one: each server has its share of them, the first ones one more where they cannot be shared
/// equally, in the order in which they were handed in; and all of them count, and none as done.
pub proof fn law_tasks_are_spread(
    states: Seq<Executor>,
    submissions: Seq<Submission>,
    config: ExecutorConfig,
)
    requires
        config.server_count > 0,
        submissions.len() <= TASK_QUEUE_CAPACITY * config.server_count,
        submissions.len() <= usize::MAX,
        handed_in(states, submissions),
        fresh_executor(&states[0], config),
    ensures
        ({
            let count = submissions.len();
            let last = states.last();
            let servers = config.server_count as int;
            &&& last.servers@.len() == servers
            &&& forall|j: int|
                0 <= j < servers ==> {
                    let pending = (#[trigger] last.servers@[j])@.core.queue.pending;
                    &&& pending == portion(submissions, count, j, servers)
                    &&& pending.len() == count as int / servers + if j < count as int % servers {
                        1int
                    } else {
                        0
                    }
                }
            &&& last.task_stats@.completed == 0
            &&& last.task_stats@.total == count
        }),
{
    let count = submissions.len();
    let servers = config.server_count as int;
    lemma_spread(states, submissions, config, count);
    assert(count as int / servers >= 0) by (nonlinear_arith)
        requires
            servers > 0,
            count >= 0,
    ;
}

proof fn lemma_spread(
    states: Seq<Executor>,
    submissions: Seq<Submission>,
    config: ExecutorConfig,
    count: nat,
)
    requires
        config.server_count > 0,
        count <= submissions.len(),
        submissions.len() <= TASK_QUEUE_CAPACITY * config.server_count,
        submissions.len() <= usize::MAX,
        handed_in(states, submissions),
        fresh_executor(&states[0], config),
    ensures
        ({
            let after = states[count as int];
            let servers = config.server_count as int;
            &&& after.wf()
            &&& after.config == config
            &&& after.next_server == count
            &&& after.task_stats@.completed == 0
            &&& after.task_stats@.total == count
            &&& forall|j: int|
                0 <= j < servers ==> (#[trigger] after.servers@[j])@.core.queue.pending
                    == portion(submissions, count, j, servers)
        }),
    decreases count,
{
    let servers = config.server_count as int;
    if count == 0 {
        assert forall|j: int| 0 <= j < servers implies (
        #[trigger] states[0].servers@[j])@.core.queue.pending == portion(
            submissions,
            0,
            j,
            servers,
        ) by {
            assert(fresh_server(&states[0].servers@[j], j, config));
            assert(0int / servers == 0 && 0int % servers == 0) by (nonlinear_arith)
                requires
                    servers > 0,
            ;
            assert(portion(submissions, 0, j, servers) =~= Seq::empty());
        }
    } else {
        let less = (count - 1) as nat;
        lemma_spread(states, submissions, config, less);
        let before = states[less as int];
        let after = states[count as int];
        let s = submissions[less as int];
        let turn = turn_of(before.next_server, config.server_count);
        assert(submitted(&before, &after, s.function, s.task_id, s.entry_id, s.now));
        assert forall|j: int| 0 <= j < servers implies (
        #[trigger] after.servers@[j])@.core.queue.pending == portion(
            submissions,
            count,
            j,
            servers,
        ) by {
            lemma_share(less, j, servers);
            let had = portion(submissions, less, j, servers);
            assert(before.servers@[j]@.core.queue.pending == had);
            if j == turn {
                assert(portion(submissions, count, j, servers) =~= had.push(
                    new_entry(s.entry_id, s.function, s.now),
                ));
            } else {
                assert(portion(submissions, count, j, servers) =~= had);
            }
        }
    }
}

proof fn lemma_share(count: nat, server: int, servers: int)
    requires
        0 <= server < servers,
    ensures
        share(count, server, servers) >= 0,
        server != count as int % servers ==> share(count + 1, server, servers) == share(
            count,
            server,
            servers,
        ),
        server == count as int % servers ==> {
            let m = share(count, server, servers);
            &&& share(count + 1, server, servers) == m + 1
            &&& m * servers + server == count
            &&& count < TASK_QUEUE_CAPACITY * servers ==> m < TASK_QUEUE_CAPACITY
        },
{
    let n = count as int;
    let q = n / servers;
    let r = n % servers;
    vstd::arithmetic::div_mod::lemma_fundamental_div_mod(n, servers);
    assert(q * servers == servers * q) by (nonlinear_arith);
    assert(q >= 0) by (nonlinear_arith)
        requires
            servers > 0,
            n >= 0,
            q == n / servers,
    ;
    if r + 1 < servers {
        vstd::arithmetic::div_mod::lemma_fundamental_div_mod_converse(n + 1, servers, q, r + 1);
    } else {
        assert(n + 1 == (q + 1) * servers + 0) by (nonlinear_arith)
            requires
                n == servers * q + r,
                r + 1 == servers,
        ;
        vstd::arithmetic::div_mod::lemma_fundamental_div_mod_converse(n + 1, servers, q + 1, 0);
    }
    if n < TASK_QUEUE_CAPACITY * servers {
        assert(q < TASK_QUEUE_CAPACITY) by (nonlinear_arith)
            requires
                n < TASK_QUEUE_CAPACITY * servers,
                n == servers * q + r,
                r >= 0,
                servers > 0,
        ;
    }
}

/// A task that was handed in is not run by that, and does not count as done. However often its run
/// is then taken further, and whatever happens to the statistics in between, as long as the task
/// stays open until it is marked: its function is handed out exactly once, in the first step, which
/// leaves the statistics as they are; the second step, after the function came back, counts exactly
/// one more task as done; and no later step does anything.
pub proof fn law_task_is_run_once_and_then_counted(
    before: &Executor,
    after: &Executor,
    function: u64,
    task_id: u128,
    entry_id: u128,
    now: u64,
    steps: nat,
    stats: StatsView,
)
    requires
        submitted(before, after, function, task_id, entry_id, now),
        steps == 1 ==> stats.tasks.contains_key(task_id) && !stats.tasks[task_id]
            && stats.completed < usize::MAX,
    ensures
        ({
            let run = run_after(TaskRun { function, stage: RunStage::Waiting }, steps);
            let next = stats_after(stats, run, task_id);
            &&& after.task_stats@.completed == before.task_stats@.completed
            &&& after.task_stats@.tasks.contains_key(task_id) && !after.task_stats@.tasks[task_id]
            &&& next_step(run).1 == (RunStep::Call { function }) <==> steps == 0
            &&& next_step(run).1 is Call ==> steps == 0
            &&& steps == 1 ==> next.completed == stats.completed + 1 && next.tasks[task_id]
                && next.total == stats.total
            &&& steps != 1 ==> next == stats
        }),
{
    lemma_run_after(function, steps);
}

/// Right after a task was handed in not all tasks are done.
pub proof fn law_submitted_task_is_open(
    before: &Executor,
    after: &Executor,
    function: u64,
    task_id: u128,
    entry_id: u128,
    now: u64,
)
    requires
        submitted(before, after, function, task_id, entry_id, now),
        accounted(before.task_stats@),
        before.task_stats@.total < usize::MAX,
    ensures
        !all_completed(after.task_stats@),
{
}

/// What handing in a function does: the server whose number is what the count of submissions leaves
/// when it is divided by the number of servers has one more waiting task, behind the others, if it
/// has room; no other server, no worker and no operation under way is touched; the next submission
/// is the next one's turn; and one more task counts, which is open.
pub proof fn law_submission(
    before: &Executor,
    after: &Executor,
    function: u64,
    task_id: u128,
    entry_id: u128,
    now: u64,
)
    requires
        before.wf(),
        before.config.server_count > 0,
        submitted(before, after, function, task_id, entry_id, now),
    ensures
        ({
            let turn = before.next_server as int % before.config.server_count as int;
            let had = before.servers@[turn]@;
            let has = after.servers@[turn]@;
            &&& 0 <= turn < before.servers@.len()
            &&& has.core.queue.pending == if had.core.queue.pending.len() < 1024 {
                had.core.queue.pending.push(
                    TaskEntry {
                        id: entry_id,
                        state: TaskState::Pending(function),
                        priority: 0,
                        enqueue_time: now,
                    },
                )
            } else {
                had.core.queue.pending
            }
            &&& has.core.pool == had.core.pool
            &&& has.calls == had.calls
            &&& has.done == had.done
            &&& after.servers@.len() == before.servers@.len()
            &&& forall|i: int|
                0 <= i < before.servers@.len() && i != turn ==> #[trigger] after.servers@[i]
                    == before.servers@[i]
            &&& after.next_server == if before.next_server == usize::MAX {
                0
            } else {
                before.next_server + 1
            }
            &&& after.task_stats@.total == if before.task_stats@.total == usize::MAX {
                0
            } else {
                before.task_stats@.total + 1
            }
            &&& after.task_stats@.completed == before.task_stats@.completed
            &&& after.task_stats@.tasks == before.task_stats@.tasks.insert(task_id, false)
        }),
{
}

/// A new executor has the servers that were asked for: numbered from zero, each on the processor
/// after the one before, with the workers that it is to have, and without tasks. It is the first
/// server's turn, and no task counts.
pub proof fn law_new_executor(config: ExecutorConfig, made: Executor, index: int)
    requires
        config.start_cpu + config.server_count <= usize::MAX + 1,
        0 <= index < config.server_count,
        call_ensures(Executor::new, (config,), made),
    ensures
        made.servers@.len() == config.server_count,
        made.next_server == 0,
        made.task_stats@.total == 0,
        made.task_stats@.completed == 0,
        ({
            let server = made.servers@[index];
            &&& server.id == index
            &&& server.cpu_id == config.start_cpu + index
            &&& server.worker_pool.total_workers == config.worker_count
            &&& server@.core.queue.pending.len() == 0
            &&& server@.core.queue.preempted.len() == 0
            &&& server@.core.pool.dom() == Set::<i32>::empty()
            &&& !server@.done
        }),
{
    assert(fresh_server(&made.servers@[index], index, config));
    assert(made.servers@[index]@.core.pool.dom() =~= Set::<i32>::empty());
}

} // verus!
