//! The decisions of a small HTTP server, and its statistics.

use vstd::prelude::*;

verus! {

/// What a server has seen so far: connections, and the microseconds that were spent waiting for
/// them, waiting for a worker, and working for them.
#[derive(Debug, Copy, Clone, PartialEq, Eq, Structural)]
pub struct ServerStats {
    pub accept_count: u64,
    pub accept_wait_time: u64,
    pub processing_time: u64,
    pub queue_wait_time: u64,
    pub completed_requests: u64,
    pub current_connections: u64,
}

/// The sum, or what is left of it where the counter runs over.
pub open spec fn plus(a: u64, b: u64) -> u64 {
    vstd::wrapping::u64_specs::wrapping_add(a, b)
}

/// The statistics once a connection came in after `waited` microseconds.
pub open spec fn with_accepted(stats: ServerStats, waited: u64) -> ServerStats {
    ServerStats {
        accept_wait_time: plus(stats.accept_wait_time, waited),
        accept_count: plus(stats.accept_count, 1),
        current_connections: plus(stats.current_connections, 1),
        ..stats
    }
}

/// The statistics once a worker took up a connection after `waited` microseconds.
pub open spec fn with_taken_up(stats: ServerStats, waited: u64) -> ServerStats {
    ServerStats { queue_wait_time: plus(stats.queue_wait_time, waited), ..stats }
}

/// The statistics once a worker was done with a connection after `worked` microseconds.
pub open spec fn with_finished(stats: ServerStats, worked: u64) -> ServerStats {
    ServerStats {
        processing_time: plus(stats.processing_time, worked),
        completed_requests: plus(stats.completed_requests, 1),
        current_connections: vstd::wrapping::u64_specs::wrapping_sub(
            stats.current_connections,
            1,
        ),
        ..stats
    }
}

/// The statistics of a server as they are shown, with the averages over all connections.
#[derive(Debug, Copy, Clone, PartialEq, Eq, Structural)]
pub struct StatsReport {
    pub accepts: u64,
    pub current_connections: u64,
    pub completed_requests: u64,
    pub average_accept_wait: u64,
    pub average_processing_time: u64,
    pub average_queue_wait: u64,
}

impl ServerStats {
    /// Nothing so far.
    pub fn new() -> (r: ServerStats)
        ensures
            r == (ServerStats {
                accept_count: 0,
                accept_wait_time: 0,
                processing_time: 0,
                queue_wait_time: 0,
                completed_requests: 0,
                current_connections: 0,
            }),
    {
        ServerStats {
            accept_count: 0,
            accept_wait_time: 0,
            processing_time: 0,
            queue_wait_time: 0,
            completed_requests: 0,
            current_connections: 0,
        }
    }

    /// A connection came in after `waited` microseconds.
    pub fn accepted(&mut self, waited: u64)
        ensures
            *final(self) == with_accepted(*old(self), waited),
    {
        self.accept_wait_time = self.accept_wait_time.wrapping_add(waited);
        self.accept_count = self.accept_count.wrapping_add(1);
        self.current_connections = self.current_connections.wrapping_add(1);
    }

    /// A worker took up a connection after `waited` microseconds.
    pub fn taken_up(&mut self, waited: u64)
        ensures
            *final(self) == with_taken_up(*old(self), waited),
    {
        self.queue_wait_time = self.queue_wait_time.wrapping_add(waited);
    }

    /// A worker was done with a connection after `worked` microseconds.
    pub fn finished(&mut self, worked: u64)
        ensures
            *final(self) == with_finished(*old(self), worked),
    {
        self.processing_time = self.processing_time.wrapping_add(worked);
        self.completed_requests = self.completed_requests.wrapping_add(1);
        self.current_connections = self.current_connections.wrapping_sub(1);
    }

    /// The statistics as they are shown; nothing before the first connection.
    pub fn report(&self) -> (r: Option<StatsReport>)
        ensures
            r == (if self.accept_count == 0 {
                None::<StatsReport>
            } else {
                Some(
                    StatsReport {
                        accepts: self.accept_count,
                        current_connections: self.current_connections,
                        completed_requests: self.completed_requests,
                        average_accept_wait: self.accept_wait_time / self.accept_count,
                        average_processing_time: self.processing_time / self.accept_count,
                        average_queue_wait: self.queue_wait_time / self.accept_count,
                    },
                )
            }),
    {
        if self.accept_count == 0 {
            return None;
        }
        Some(
            StatsReport {
                accepts: self.accept_count,
                current_connections: self.current_connections,
                completed_requests: self.completed_requests,
                average_accept_wait: self.accept_wait_time / self.accept_count,
                average_processing_time: self.processing_time / self.accept_count,
                average_queue_wait: self.queue_wait_time / self.accept_count,
            },
        )
    }
}

/// The answer to every request.
pub open spec fn response_text() -> Seq<char> {
    "HTTP/1.1 200 OK\r\nContent-Type: text/plain\r\nContent-Length: 13\r\nConnection: close\r\n\r\nHello, World!\n"@
}

/// The answer to every request.
pub fn response() -> (r: &'static str)
    ensures
        r@ == response_text(),
{
    "HTTP/1.1 200 OK\r\nContent-Type: text/plain\r\nContent-Length: 13\r\nConnection: close\r\n\r\nHello, World!\n"
}

/// What came of an attempt to read from a connection, or to take one in.
#[derive(Debug, Copy, Clone, PartialEq, Eq, Structural)]
pub enum Attempt {
    /// It succeeded; so many bytes were read.
    Got(usize),
    /// There is nothing yet.
    WouldBlock,
    /// It failed.
    Failed,
}

/// How a connection goes on.
#[derive(Debug, Copy, Clone, PartialEq, Eq, Structural)]
pub enum ConnectionStep {
    /// Send the answer, and close whether or not that succeeds.
    Respond,
    /// Try again after so many microseconds.
    Retry { micros: u64 },
    /// Close.
    Close,
}

/// How a connection goes on after an attempt to read from it: the first bytes are answered, and the
/// end of the input or an error closes the connection.
pub fn handle_connection(read: Attempt) -> (r: ConnectionStep)
    ensures
        r == (match read {
            Attempt::Got(count) => if count == 0 {
                ConnectionStep::Close
            } else {
                ConnectionStep::Respond
            },
            Attempt::WouldBlock => ConnectionStep::Retry { micros: 100 },
            Attempt::Failed => ConnectionStep::Close,
        }),
{
    match read {
        Attempt::Got(count) => {
            if count == 0 {
                ConnectionStep::Close
            } else {
                ConnectionStep::Respond
            }
        },
        Attempt::WouldBlock => ConnectionStep::Retry { micros: 100 },
        Attempt::Failed => ConnectionStep::Close,
    }
}

/// How the acceptance of connections goes on.
#[derive(Debug, Copy, Clone, PartialEq, Eq, Structural)]
pub enum AcceptStep {
    /// Hand the connection to a worker.
    Serve,
    /// Try again after so many milliseconds.
    Retry { millis: u64 },
    /// Stop.
    Stop,
}

/// How the acceptance goes on after an attempt to take a connection in.
pub fn next_accept(attempt: Attempt) -> (r: AcceptStep)
    ensures
        r == (match attempt {
            Attempt::Got(_) => AcceptStep::Serve,
            Attempt::WouldBlock => AcceptStep::Retry { millis: 1 },
            Attempt::Failed => AcceptStep::Stop,
        }),
{
    match attempt {
        Attempt::Got(_) => AcceptStep::Serve,
        Attempt::WouldBlock => AcceptStep::Retry { millis: 1 },
        Attempt::Failed => AcceptStep::Stop,
    }
}

/// As many connections as came in are either done or still there.
pub open spec fn connections_add_up(stats: ServerStats) -> bool {
    stats.current_connections + stats.completed_requests == stats.accept_count
}

/// Taking in a connection keeps the numbers of connections in agreement, as does being done with
/// one that is there.
pub proof fn law_connections_add_up(stats: ServerStats, micros: u64)
    requires
        connections_add_up(stats),
        stats.accept_count < u64::MAX,
    ensures
        connections_add_up(with_accepted(stats, micros)),
        connections_add_up(with_taken_up(stats, micros)),
        stats.current_connections > 0 ==> connections_add_up(with_finished(stats, micros)),
{
}

/// What each happening adds to the statistics, in counters of 64 bits that begin again at zero: a
/// connection that came in its wait and two counts, a worker that took it up its wait, and a worker
/// that was done its work, one more request and one connection less.
pub proof fn law_counts(stats: ServerStats, micros: u64)
    ensures
        ({
            let after = with_accepted(stats, micros);
            &&& after.accept_count == (stats.accept_count + 1) % 0x1_0000_0000_0000_0000
            &&& after.accept_wait_time == (stats.accept_wait_time + micros)
                % 0x1_0000_0000_0000_0000
            &&& after.current_connections == (stats.current_connections + 1)
                % 0x1_0000_0000_0000_0000
            &&& after.processing_time == stats.processing_time
            &&& after.queue_wait_time == stats.queue_wait_time
            &&& after.completed_requests == stats.completed_requests
        }),
        ({
            let after = with_taken_up(stats, micros);
            &&& after.queue_wait_time == (stats.queue_wait_time + micros)
                % 0x1_0000_0000_0000_0000
            &&& after.accept_count == stats.accept_count
            &&& after.accept_wait_time == stats.accept_wait_time
            &&& after.current_connections == stats.current_connections
            &&& after.processing_time == stats.processing_time
            &&& after.completed_requests == stats.completed_requests
        }),
        ({
            let after = with_finished(stats, micros);
            &&& after.processing_time == (stats.processing_time + micros)
                % 0x1_0000_0000_0000_0000
            &&& after.completed_requests == (stats.completed_requests + 1)
                % 0x1_0000_0000_0000_0000
            &&& after.current_connections == (stats.current_connections - 1)
                % 0x1_0000_0000_0000_0000
            &&& after.accept_count == stats.accept_count
            &&& after.accept_wait_time == stats.accept_wait_time
            &&& after.queue_wait_time == stats.queue_wait_time
        }),
{
}

/// A report exists exactly once there was a connection. Its counts are those of the statistics, and
/// each of its averages is the greatest number that, taken for every connection, stays within the
/// time that was spent.
pub proof fn law_report_averages(stats: ServerStats, report: Option<StatsReport>)
    requires
        call_ensures(ServerStats::report, (&stats,), report),
    ensures
        report is Some <==> stats.accept_count > 0,
        report matches Some(shown) ==> {
            let n = stats.accept_count as int;
            &&& shown.accepts == n
            &&& shown.current_connections == stats.current_connections
            &&& shown.completed_requests == stats.completed_requests
            &&& shown.average_accept_wait * n <= stats.accept_wait_time
                < shown.average_accept_wait * n + n
            &&& shown.average_processing_time * n <= stats.processing_time
                < shown.average_processing_time * n + n
            &&& shown.average_queue_wait * n <= stats.queue_wait_time < shown.average_queue_wait * n
                + n
        },
{
    if stats.accept_count > 0 {
        let n = stats.accept_count as int;
        lemma_average(stats.accept_wait_time as int, n);
        lemma_average(stats.processing_time as int, n);
        lemma_average(stats.queue_wait_time as int, n);
    }
}

proof fn lemma_average(total: int, n: int)
    requires
        n > 0,
    ensures
        (total / n) * n <= total < (total / n) * n + n,
{
    vstd::arithmetic::div_mod::lemma_fundamental_div_mod(total, n);
    assert((total / n) * n == n * (total / n)) by (nonlinear_arith);
}

/// A connection is answered exactly if something was read from it, is tried again exactly if there
/// is nothing yet, and is closed otherwise. A connection that was taken in is always served, one
/// that is not there yet is tried for again, and only a failure stops the acceptance.
pub proof fn law_connections_go_on(attempt: Attempt, step: ConnectionStep, accept: AcceptStep)
    requires
        call_ensures(handle_connection, (attempt,), step),
        call_ensures(next_accept, (attempt,), accept),
    ensures
        step is Respond <==> (attempt matches Attempt::Got(count) && count > 0),
        step is Retry <==> attempt is WouldBlock,
        step matches ConnectionStep::Retry { micros } ==> micros == 100,
        accept is Serve <==> attempt is Got,
        accept is Retry <==> attempt is WouldBlock,
        accept matches AcceptStep::Retry { millis } ==> millis == 1,
        accept is Stop <==> attempt is Failed,
{
}

} // verus!
