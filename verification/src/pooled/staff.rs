//! How a server comes by its workers: what holds when it enters its loop.

use crate::pooled::pool::{new_worker, Worker};
use crate::pooled::run::{run_step, Job, JobReply, Phase};
use crate::pooled::server::Server;
use crate::status::WorkerStatus;
use vstd::prelude::*;

verus! {

/// One step of a server's life, with what it began from and what it came to.
pub struct Moment {
    pub phase: Phase,
    pub before: Server,
    pub reply: JobReply,
    pub now: u64,
    pub epoch: u64,
    pub next: Phase,
    pub after: Server,
    pub job: Job,
}

/// The server has not entered its loop.
pub open spec fn starting(phase: Phase) -> bool {
    phase is Fresh || phase is SettingAffinity || phase is Registering || phase is StartingWorker
        || phase is AwaitingWorker
}

/// This is the beginning of a server's life: it starts without workers, each step follows from the
/// one before, and no two workers that are started have the same thread id. In between tasks may
/// come in, but nothing else touches the workers.
pub open spec fn is_beginning(moments: Seq<Moment>) -> bool {
    &&& moments.len() > 0
    &&& moments[0].phase is Fresh
    &&& moments[0].before@.core.pool == Map::<i32, Worker>::empty()
    &&& forall|i: int|
        0 <= i < moments.len() ==> {
            let m = #[trigger] moments[i];
            &&& run_step(m.phase, &m.before, m.reply, m.now, m.epoch, m.next, &m.after, m.job)
            &&& m.phase is StartingWorker ==> !m.before@.core.pool.contains_key(m.reply.ret)
            &&& m.before.id == moments[0].before.id
            &&& m.before.worker_pool.total_workers == moments[0].before.worker_pool.total_workers
            &&& i > 0 ==> m.phase == moments[i - 1].next && m.before@.core.pool
                == moments[i - 1].after@.core.pool
        }
}

/// The workers are exactly those with these thread ids, in the order in which they were started:
/// each has the number that its place gives it, is ready and has no task.
pub open spec fn staffed(
    pool: Map<i32, Worker>,
    server_id: usize,
    total: usize,
    tids: Seq<i32>,
) -> bool {
    &&& tids.no_duplicates()
    &&& pool.dom() == tids.to_set()
    &&& forall|i: int|
        0 <= i < tids.len() ==> pool[#[trigger] tids[i]] == (Worker {
            status: WorkerStatus::Waiting,
            ..new_worker((server_id * total + i) as usize, server_id, tids[i])
        })
}

/// What holds of the workers in a phase before the loop, where these are the ones that have
/// reported.
spec fn staffed_so_far(
    phase: Phase,
    pool: Map<i32, Worker>,
    server_id: usize,
    total: usize,
    tids: Seq<i32>,
) -> bool {
    match phase {
        Phase::StartingWorker { index } => tids.len() == index && index < total && staffed(
            pool,
            server_id,
            total,
            tids,
        ),
        Phase::AwaitingWorker { index, tid, .. } => {
            &&& tids.len() == index
            &&& index < total
            &&& staffed(pool.remove(tid), server_id, total, tids)
            &&& pool.contains_key(tid)
            &&& pool[tid] == (Worker {
                status: WorkerStatus::Registering,
                ..new_worker((server_id * total + index) as usize, server_id, tid)
            })
        },
        Phase::AtHead => tids.len() == total && staffed(pool, server_id, total, tids),
        _ => tids.len() == 0 && staffed(pool, server_id, total, tids),
    }
}

/// When a server enters its loop it has exactly the workers that it was made for, with the numbers
/// that follow one another from its own, each ready and without a task.
pub proof fn law_loop_begins_fully_staffed(moments: Seq<Moment>)
    requires
        is_beginning(moments),
        starting(moments.last().phase),
        moments.last().next is AtHead,
        moments[0].before.id * moments[0].before.worker_pool.total_workers
            + moments[0].before.worker_pool.total_workers <= usize::MAX + 1,
    ensures
        ({
            let server = moments[0].before;
            let total = server.worker_pool.total_workers;
            exists|tids: Seq<i32>|
                tids.len() == total && #[trigger] staffed(
                    moments.last().after@.core.pool,
                    server.id,
                    total,
                    tids,
                )
        }),
{
    let server = moments[0].before;
    let total = server.worker_pool.total_workers;
    let m = moments[moments.len() - 1];
    let tids = lemma_before(moments, moments.len() - 1);
    let more = lemma_step(m, server.id, total, tids);
    assert(staffed(moments.last().after@.core.pool, server.id, total, more));
}

/// When a worker of a server does not come to report, the server's life ends with all workers that
/// were started: those before it are ready and without a task, and it is itself still registering.
/// A worker that is started as the one with number `index` has so many before it.
pub proof fn law_failed_registration_keeps_the_started(
    moments: Seq<Moment>,
    index: usize,
    tid: i32,
)
    requires
        is_beginning(moments),
        moments.last().phase matches Phase::AwaitingWorker { index: i, tid: t, .. } && i == index
            && t == tid,
        moments.last().next is Over,
        moments[0].before.id * moments[0].before.worker_pool.total_workers
            + moments[0].before.worker_pool.total_workers <= usize::MAX + 1,
    ensures
        ({
            let server = moments[0].before;
            let total = server.worker_pool.total_workers;
            let pool = moments.last().after@.core.pool;
            &&& moments.last().job matches Job::Finish(Err(_))
            &&& index < total
            &&& pool.dom().finite() && pool.dom().len() == index + 1
            &&& pool.contains_key(tid) && pool[tid] == (Worker {
                status: WorkerStatus::Registering,
                ..new_worker((server.id * total + index) as usize, server.id, tid)
            })
            &&& exists|tids: Seq<i32>|
                tids.len() == index && #[trigger] staffed(
                    pool.remove(tid),
                    server.id,
                    total,
                    tids,
                )
        }),
{
    let server = moments[0].before;
    let total = server.worker_pool.total_workers;
    let at = moments.len() - 1;
    let pool = moments[at].after@.core.pool;
    let tids = lemma_before(moments, at);
    assert(pool == moments[at].before@.core.pool);
    assert(staffed(pool.remove(tid), server.id, total, tids));
    tids.unique_seq_to_set();
    assert(pool.dom() =~= pool.remove(tid).dom().insert(tid));
}

proof fn lemma_before(moments: Seq<Moment>, at: int) -> (tids: Seq<i32>)
    requires
        is_beginning(moments),
        0 <= at < moments.len(),
        starting(moments[at].phase),
        moments[0].before.id * moments[0].before.worker_pool.total_workers
            + moments[0].before.worker_pool.total_workers <= usize::MAX + 1,
    ensures
        staffed_so_far(
            moments[at].phase,
            moments[at].before@.core.pool,
            moments[0].before.id,
            moments[0].before.worker_pool.total_workers,
            tids,
        ),
    decreases at,
{
    let server = moments[0].before;
    let m = moments[at];
    if at == 0 {
        let none = Seq::<i32>::empty();
        assert(none.to_set() =~= Set::<i32>::empty());
        assert(m.before@.core.pool.dom() =~= none.to_set());
        none
    } else {
        let last = moments[at - 1];
        assert(m.phase == last.next);
        assert(starting(last.phase));
        let tids = lemma_before(moments, at - 1);
        lemma_step(last, server.id, server.worker_pool.total_workers, tids)
    }
}

proof fn lemma_step(m: Moment, id: usize, total: usize, tids: Seq<i32>) -> (more: Seq<i32>)
    requires
        run_step(m.phase, &m.before, m.reply, m.now, m.epoch, m.next, &m.after, m.job),
        m.phase is StartingWorker ==> !m.before@.core.pool.contains_key(m.reply.ret),
        starting(m.phase),
        starting(m.next) || m.next is AtHead,
        m.before.id == id,
        m.before.worker_pool.total_workers == total,
        id * total + total <= usize::MAX + 1,
        staffed_so_far(m.phase, m.before@.core.pool, id, total, tids),
    ensures
        staffed_so_far(m.next, m.after@.core.pool, id, total, more),
{
    let pool = m.before@.core.pool;
    match m.phase {
        Phase::StartingWorker { index } => {
            let tid = m.reply.ret;
            assert(m.after@.core.pool.remove(tid) =~= pool);
            tids
        },
        Phase::AwaitingWorker { index, tid, .. } => {
            if m.next is AwaitingWorker {
                tids
            } else {
                let more = tids.push(tid);
                let rest = pool.remove(tid);
                let grown = m.after@.core.pool;
                assert(!tids.contains(tid)) by {
                    assert(!rest.dom().contains(tid));
                    if tids.contains(tid) {
                        assert(tids.to_set().contains(tid));
                    }
                }
                assert(grown.dom() =~= more.to_set()) by {
                    assert forall|t: i32| grown.dom().contains(t) implies more.to_set().contains(
                        t,
                    ) by {
                        if t == tid {
                            assert(more[tids.len() as int] == t);
                        } else {
                            assert(rest.dom().contains(t));
                            assert(tids.contains(t));
                            let i = choose|i: int| 0 <= i < tids.len() && tids[i] == t;
                            assert(more[i] == t);
                        }
                    }
                    assert forall|t: i32| more.to_set().contains(t) implies grown.dom().contains(
                        t,
                    ) by {
                        let i = choose|i: int| 0 <= i < more.len() && more[i] == t;
                        if i < tids.len() {
                            assert(tids.contains(tids[i]));
                            assert(rest.dom().contains(t));
                        }
                    }
                }
                assert forall|i: int| 0 <= i < more.len() implies grown[#[trigger] more[i]] == (
                Worker {
                    status: WorkerStatus::Waiting,
                    ..new_worker((id * total + i) as usize, id, more[i])
                }) by {
                    if i < tids.len() {
                        assert(tids.contains(tids[i]));
                        assert(rest[tids[i]] == pool[tids[i]]);
                    }
                }
                more
            }
        },
        _ => tids,
    }
}

} // verus!
