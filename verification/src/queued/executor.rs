//! Setting up servers that share their queues.

use crate::queued::metrics::{ContextSwitchMetrics, DEFAULT_TIMEOUT_NS};
use crate::queued::server::Server;
use crate::status::WorkerStatus;
use std::collections::{HashMap, HashSet};
use vstd::prelude::*;

verus! {

/// How many workers each server has, and how many servers there are.
#[derive(Debug, Copy, Clone, PartialEq, Eq, Structural)]
pub struct ExecutorConfig {
    pub worker_count: usize,
    pub server_count: usize,
}

impl Default for ExecutorConfig {
    /// One server with three workers.
    fn default() -> (r: ExecutorConfig)
        ensures
            r == (ExecutorConfig { worker_count: 3, server_count: 1 }),
    {
        ExecutorConfig { worker_count: 3, server_count: 1 }
    }
}

/// A worker that is to be started: its number, and the processor of its thread.
#[derive(Debug, Copy, Clone, PartialEq, Eq, Structural)]
pub struct WorkerOrder {
    pub id: usize,
    pub cpu_id: usize,
}

/// Who sets up servers: with what it was configured, and the workers that it had started so far.
#[derive(Debug)]
pub struct Executor {
    pub config: ExecutorConfig,
    pub started: Vec<WorkerOrder>,
}

/// The workers of a server on this processor: numbered from zero, all on the same processor.
pub open spec fn orders(cpu_id: usize, worker_count: usize) -> Seq<WorkerOrder> {
    Seq::new(worker_count as nat, |i: int| WorkerOrder { id: i as usize, cpu_id })
}

impl Executor {
    /// No worker was started so far.
    pub fn new(config: ExecutorConfig) -> (r: Executor)
        ensures
            r.config == config,
            r.started@ == Seq::<WorkerOrder>::empty(),
    {
        Executor { config, started: Vec::new() }
    }

    /// Says which workers are to be started for a server, and notes them.
    pub fn initialize_workers(&mut self, cpu_id: usize, worker_count: usize) -> (r: Vec<
        WorkerOrder,
    >)
        ensures
            r@ == orders(cpu_id, worker_count),
            final(self).config == old(self).config,
            final(self).started@ == old(self).started@ + orders(cpu_id, worker_count),
    {
        let mut list: Vec<WorkerOrder> = Vec::new();
        let mut id: usize = 0;
        while id < worker_count
            invariant
                id <= worker_count,
                list@ == orders(cpu_id, id),
                self.config == old(self).config,
                self.started@ == old(self).started@ + orders(cpu_id, id),
            decreases worker_count - id,
        {
            list.push(WorkerOrder { id, cpu_id });
            self.started.push(WorkerOrder { id, cpu_id });
            id = id + 1;
            assert(list@ =~= orders(cpu_id, id));
            assert(self.started@ =~= old(self).started@ + orders(cpu_id, id));
        }
        list
    }

    /// Makes the server with this number, for the workers that were started for it.
    pub fn initialize_server_and_setup_workers(
        &self,
        server_id: usize,
        states: HashMap<u64, WorkerStatus>,
        channels: HashSet<u64>,
        done: bool,
    ) -> (r: Server)
        ensures
            r.id == server_id,
            r.states@ == states@,
            r.failures@.len() == 0,
            r.channels@ == channels@,
            r.metrics == (ContextSwitchMetrics {
                success_count: 0,
                timeout_count: 0,
                total_time: 0,
                last_timeout: DEFAULT_TIMEOUT_NS,
            }),
            r.done == done,
            r.calls@.len() == 0,
    {
        Server::new(server_id, states, channels, done)
    }
}

/// As many workers are started for a server as it is to have, all on its processor, numbered from
/// zero without a gap.
pub proof fn law_workers_are_numbered(cpu_id: usize, worker_count: usize, number: usize)
    ensures
        orders(cpu_id, worker_count).len() == worker_count,
        number < worker_count ==> orders(cpu_id, worker_count)[number as int].id == number
            && orders(cpu_id, worker_count)[number as int].cpu_id == cpu_id,
{
}

} // verus!
