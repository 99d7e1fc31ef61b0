//! How the workers of a server come to be ready: what holds when it is let go.

use crate::queued::run::{run_step, Job, Phase, ServerRun, World};
use crate::queued::server::Reply;
use crate::status::WorkerStatus;
use crate::umcg::worker_id_of;
use vstd::prelude::*;

verus! {

/// One step of a server's life, with what it began from and what it came to.
pub struct Moment {
    pub run: ServerRun,
    pub before: World,
    pub reply: Reply,
    pub next: ServerRun,
    pub after: World,
    pub job: Job,
}

/// The server has not been let go.
pub open spec fn gathering(phase: Phase) -> bool {
    phase is Fresh || phase is SettingAffinity || phase is Registering || phase is AwaitingWorker
        || phase is SwitchingTo || phase is Holding
}

/// This is the beginning of a server's life: each step follows from the one before, and in between
/// nothing touches its workers' statuses or the line of those that are ready.
pub open spec fn is_beginning(moments: Seq<Moment>) -> bool {
    &&& moments.len() > 0
    &&& moments[0].run.phase is Fresh
    &&& moments[0].run.registered@ == Set::<u64>::empty()
    &&& moments[0].before.server.states@.dom().finite()
    &&& forall|i: int|
        0 <= i < moments.len() ==> {
            let m = #[trigger] moments[i];
            &&& run_step(m.run, m.before, m.reply, m.next, m.after, m.job)
            &&& i > 0 ==> {
                let last = moments[i - 1];
                &&& m.run == last.next
                &&& m.before.server.states@ == last.after.server.states@
                &&& m.before.queues@.pending == last.after.queues@.pending
            }
        }
}

/// There was room in the line for all workers of the server, behind those that were in it.
pub open spec fn room_for_all(first: World) -> bool {
    first.queues@.pending.held.len() + first.server.states@.dom().len()
        <= first.queues@.pending.room
}

/// A worker that is being switched to was not lined up.
spec fn new_arrival(run: ServerRun) -> bool {
    run.phase matches Phase::SwitchingTo { tid } ==> !run.registered@.contains(worker_id_of(tid))
}

/// These workers of the server, in this order, are ready and were lined up once each, if there was
/// room.
pub open spec fn lined_up(first: World, now: World, order: Seq<u64>) -> bool {
    &&& now.server.states@.dom() == first.server.states@.dom()
    &&& order.no_duplicates()
    &&& order.to_set().subset_of(first.server.states@.dom())
    &&& forall|id: u64| #[trigger]
        order.to_set().contains(id) ==> now.server.states@[id] == WorkerStatus::Waiting
    &&& room_for_all(first) ==> now.queues@.pending.held == first.queues@.pending.held + order
    &&& now.queues@.pending.room == first.queues@.pending.room
}

/// When a server waits to be let go, every worker that it knows is ready, and each was lined up
/// exactly once, behind those that were in line before, if there was room for all.
pub proof fn law_all_workers_line_up_once(moments: Seq<Moment>)
    requires
        is_beginning(moments),
        moments.last().next.phase is Holding,
    ensures
        ({
            let first = moments[0].before;
            let last = moments.last().after;
            &&& exists|order: Seq<u64>| #[trigger]
                lined_up(first, last, order) && order.to_set() == first.server.states@.dom()
            &&& forall|id: u64| #[trigger]
                last.server.states@.contains_key(id) ==> last.server.states@[id]
                    == WorkerStatus::Waiting
        }),
{
    let first = moments[0].before;
    let at = moments.len() - 1;
    let m = moments[at];
    assert(gathering(m.run.phase));
    let so_far = lemma_before(moments, at);
    let order = lemma_step(first, m, so_far);
    let dom = first.server.states@.dom();
    assert(lined_up(first, m.after, order));
    vstd::set_lib::lemma_len_subset(order.to_set(), dom);
    vstd::set_lib::lemma_subset_equality(order.to_set(), dom);
    assert(order.to_set() == dom);
    assert forall|id: u64| #[trigger] m.after.server.states@.contains_key(
        id,
    ) implies m.after.server.states@[id] == WorkerStatus::Waiting by {
        assert(order.to_set().contains(id));
    }
}

proof fn lemma_before(moments: Seq<Moment>, at: int) -> (order: Seq<u64>)
    requires
        is_beginning(moments),
        0 <= at < moments.len(),
        gathering(moments[at].run.phase),
    ensures
        lined_up(moments[0].before, moments[at].before, order),
        order.to_set() == moments[at].run.registered@,
        new_arrival(moments[at].run),
    decreases at,
{
    let first = moments[0].before;
    let m = moments[at];
    if at == 0 {
        let none = Seq::<u64>::empty();
        assert(none.to_set() =~= Set::<u64>::empty());
        assert(first.queues@.pending.held + none =~= first.queues@.pending.held);
        none
    } else {
        let last = moments[at - 1];
        assert(m.run == last.next);
        assert(gathering(last.run.phase));
        let so_far = lemma_before(moments, at - 1);
        lemma_step(first, last, so_far)
    }
}

proof fn lemma_step(first: World, m: Moment, order: Seq<u64>) -> (more: Seq<u64>)
    requires
        first.server.states@.dom().finite(),
        run_step(m.run, m.before, m.reply, m.next, m.after, m.job),
        gathering(m.run.phase),
        gathering(m.next.phase),
        lined_up(first, m.before, order),
        order.to_set() == m.run.registered@,
        new_arrival(m.run),
    ensures
        lined_up(first, m.after, more),
        more.to_set() == m.next.registered@,
        new_arrival(m.next),
{
    let states = m.before.server.states@;
    if let Phase::SwitchingTo { tid } = m.run.phase {
        let id = worker_id_of(tid);
        if m.reply.ret == 0 && states.contains_key(id) {
            let dom = first.server.states@.dom();
            assert(!order.contains(id)) by {
                if order.contains(id) {
                    assert(order.to_set().contains(id));
                }
            }
            let more = order.push(id);
            assert(more.to_set() =~= order.to_set().insert(id)) by {
                assert forall|x: u64| more.to_set().contains(x) implies order.to_set().insert(
                    id,
                ).contains(x) by {
                    let i = choose|i: int| 0 <= i < more.len() && more[i] == x;
                    if i < order.len() {
                        assert(order[i] == x);
                    }
                }
                assert forall|x: u64| order.to_set().insert(id).contains(
                    x,
                ) implies more.to_set().contains(x) by {
                    if x == id {
                        assert(more[order.len() as int] == x);
                    } else {
                        let i = choose|i: int| 0 <= i < order.len() && order[i] == x;
                        assert(more[i] == x);
                    }
                }
            }
            more.unique_seq_to_set();
            vstd::set_lib::lemma_len_subset(more.to_set(), dom);
            assert(m.after.server.states@.dom() =~= dom);
            let held = first.queues@.pending.held;
            assert((held + order).push(id) =~= held + more);
            more
        } else {
            order
        }
    } else {
        order
    }
}

} // verus!
