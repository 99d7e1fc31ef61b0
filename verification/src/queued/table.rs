//! The workers of one server: their statuses, and those that can be sent a task.

use crate::status::WorkerStatus;
use std::collections::{HashMap, HashSet};
use vstd::prelude::*;

verus! {

broadcast use vstd::std_specs::hash::group_hash_axioms;

/// The workers that have been started so far.
pub struct WorkerTable {
    pub states: HashMap<u64, WorkerStatus>,
    pub channels: HashSet<u64>,
}

impl WorkerTable {
    /// No worker.
    pub fn new() -> (r: WorkerTable)
        ensures
            r.states@ == Map::<u64, WorkerStatus>::empty(),
            r.channels@ == Set::<u64>::empty(),
    {
        WorkerTable { states: HashMap::new(), channels: HashSet::new() }
    }

    /// Takes in a worker that was just started. It can be sent a task.
    pub fn enlist(&mut self, worker_id: u64)
        ensures
            final(self).states@ == old(self).states@.insert(worker_id, WorkerStatus::Initializing),
            final(self).channels@ == old(self).channels@.insert(worker_id),
    {
        self.states.insert(worker_id, WorkerStatus::Initializing);
        self.channels.insert(worker_id);
    }

    /// A copy of the table as it is now.
    pub fn snapshot(&self) -> (r: (HashMap<u64, WorkerStatus>, HashSet<u64>))
        ensures
            r.0@ == self.states@,
            r.1@ == self.channels@,
    {
        let ids = ids_of(&self.states);
        let mut states: HashMap<u64, WorkerStatus> = HashMap::new();
        let mut index: usize = 0;
        while index < ids.len()
            invariant
                index <= ids@.len(),
                ids@.to_set() == self.states@.dom(),
                states@.dom() == ids@.take(index as int).to_set(),
                forall|id: u64|
                    #![trigger states@[id]]
                    states@.contains_key(id) ==> self.states@.contains_key(id) && states@[id]
                        == self.states@[id],
            decreases ids@.len() - index,
        {
            let id = ids[index];
            assert(ids@.to_set().contains(id));
            if let Some(status) = self.states.get(&id) {
                states.insert(id, *status);
            }
            proof {
                lemma_take_one_more(ids@, index as int);
            }
            index = index + 1;
        }
        assert(ids@.take(index as int) =~= ids@);
        let members = members_of(&self.channels);
        let mut channels: HashSet<u64> = HashSet::new();
        let mut next: usize = 0;
        while next < members.len()
            invariant
                next <= members@.len(),
                channels@ == members@.take(next as int).to_set(),
            decreases members@.len() - next,
        {
            channels.insert(members[next]);
            proof {
                lemma_take_one_more(members@, next as int);
            }
            next = next + 1;
        }
        assert(members@.take(next as int) =~= members@);
        assert(states@ =~= self.states@);
        (states, channels)
    }
}

proof fn lemma_take_one_more(s: Seq<u64>, index: int)
    requires
        0 <= index < s.len(),
    ensures
        s.take(index + 1).to_set() == s.take(index).to_set().insert(s[index]),
{
    let more = s.take(index + 1);
    let less = s.take(index);
    assert forall|id: u64| more.to_set().contains(id) implies less.to_set().insert(
        s[index],
    ).contains(id) by {
        let i = choose|i: int| 0 <= i < more.len() && more[i] == id;
        if i < index {
            assert(less[i] == id);
        }
    }
    assert forall|id: u64|
        less.to_set().insert(s[index]).contains(id) implies more.to_set().contains(id) by {
        if id == s[index] {
            assert(more[index] == id);
        } else {
            let i = choose|i: int| 0 <= i < less.len() && less[i] == id;
            assert(more[i] == id);
        }
    }
    assert(more.to_set() =~= less.to_set().insert(s[index]));
}

/// The workers of a table, each once, in no particular order.
pub fn ids_of(states: &HashMap<u64, WorkerStatus>) -> (r: Vec<u64>)
    ensures
        r@.no_duplicates(),
        r@.to_set() == states@.dom(),
{
    let mut ids: Vec<u64> = Vec::new();
    let ghost all = vstd::std_specs::iter::IteratorSpec::remaining(
        &vstd::std_specs::hash::spec_keys_iter(states),
    ).unref();
    for id in it: states.keys()
        invariant
            it.seq().unref() == all,
            ids@ == all.take(it.index()),
    {
        ids.push(*id);
        assert(ids@ =~= all.take(it.index() + 1));
    }
    assert(ids@ =~= all);
    ids
}

/// The members of a set, each once, in no particular order.
pub fn members_of(set: &HashSet<u64>) -> (r: Vec<u64>)
    ensures
        r@.no_duplicates(),
        r@.to_set() == set@,
{
    let mut members: Vec<u64> = Vec::new();
    let ghost all = vstd::std_specs::iter::IteratorSpec::remaining(
        &vstd::std_specs::hash::spec_hash_keys_iter(set),
    ).unref();
    for member in it: set.iter()
        invariant
            it.seq().unref() == all,
            members@ == all.take(it.index()),
    {
        members.push(*member);
        assert(members@ =~= all.take(it.index() + 1));
    }
    assert(members@ =~= all);
    members
}

/// The workers that are ready.
pub open spec fn ready_workers(states: Map<u64, WorkerStatus>) -> Set<u64> {
    states.dom().filter(|id: u64| states[id] == WorkerStatus::Waiting)
}

/// How many workers are ready.
pub fn ready_count(states: &HashMap<u64, WorkerStatus>) -> (r: usize)
    ensures
        r == ready_workers(states@).len(),
{
    let ids = ids_of(states);
    let ghost ready = |id: u64| states@[id] == WorkerStatus::Waiting;
    let mut count: usize = 0;
    let mut index: usize = 0;
    assert(ids@.take(0).to_set().filter(ready) =~= Set::<u64>::empty());
    while index < ids.len()
        invariant
            count <= index <= ids@.len(),
            ids@.no_duplicates(),
            ids@.to_set() == states@.dom(),
            ready == (|id: u64| states@[id] == WorkerStatus::Waiting),
            ids@.take(index as int).to_set().filter(ready).finite(),
            count == ids@.take(index as int).to_set().filter(ready).len(),
        decreases ids@.len() - index,
    {
        let id = ids[index];
        let ghost less = ids@.take(index as int).to_set();
        proof {
            lemma_take_one_more(ids@, index as int);
            assert(ids@.to_set().contains(id));
            assert(!less.contains(id));
        }
        if let Some(status) = states.get(&id) {
            if *status == WorkerStatus::Waiting {
                assert(less.insert(id).filter(ready) =~= less.filter(ready).insert(id));
                count = count + 1;
            } else {
                assert(less.insert(id).filter(ready) =~= less.filter(ready));
            }
        }
        index = index + 1;
    }
    assert(ids@.take(index as int) =~= ids@);
    assert(states@.dom().filter(ready) =~= ready_workers(states@));
    count
}

/// A worker is among those that are ready exactly if it is known and its status says so; and making
/// a known worker ready, or no longer ready, changes nothing for any other.
pub proof fn law_ready_workers(states: Map<u64, WorkerStatus>, id: u64, status: WorkerStatus)
    requires
        states.contains_key(id),
    ensures
        forall|other: u64| #[trigger]
            ready_workers(states).contains(other) <==> states.contains_key(other) && states[other]
                is Waiting,
        status is Waiting ==> ready_workers(states.insert(id, status)) == ready_workers(
            states,
        ).insert(id),
        status !is Waiting ==> ready_workers(states.insert(id, status)) == ready_workers(
            states,
        ).remove(id),
{
    let after = states.insert(id, status);
    assert(status is Waiting ==> ready_workers(after) =~= ready_workers(states).insert(id));
    assert(status !is Waiting ==> ready_workers(after) =~= ready_workers(states).remove(id));
}

} // verus!
