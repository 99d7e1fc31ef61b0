//! Bounded first-in first-out queues of numbers.
//!
//! The queue is `crossbeam_queue::ArrayQueue`. A caller that holds it exclusively sees a plain
//! bounded sequence, which is what the functions here state of it.

use crossbeam_queue::ArrayQueue;
use vstd::prelude::*;

verus! {

/// `crossbeam_queue::ArrayQueue`, whose inside is not looked at.
#[verifier::external_type_specification]
#[verifier::external_body]
#[verifier::reject_recursive_types(T)]
pub struct ExArrayQueue<T>(ArrayQueue<T>);

/// What a queue of numbers holds, oldest first.
pub uninterp spec fn items(q: ArrayQueue<u64>) -> Seq<u64>;

/// How much a queue of numbers has room for.
pub uninterp spec fn limit(q: ArrayQueue<u64>) -> nat;

/// A buffer of `capacity` slots of 16 bytes exists only if it is not empty and its size in bytes
/// fits in `isize`.
pub open spec fn capacity_ok(capacity: usize) -> bool {
    0 < capacity && capacity * 16 <= isize::MAX
}

/// `ArrayQueue::<u64>::new`: an empty queue with room for `capacity` numbers. The call panics for
/// a capacity of zero and for one whose buffer is too large.
#[verifier::external_body]
pub(crate) fn queue_new(capacity: usize) -> (q: ArrayQueue<u64>)
    requires
        capacity_ok(capacity),
    ensures
        items(q) == Seq::<u64>::empty(),
        limit(q) == capacity,
{
    ArrayQueue::new(capacity)
}

/// `ArrayQueue::<u64>::push`: puts `value` behind the others, or hands it back if the queue is
/// full.
#[verifier::external_body]
pub(crate) fn queue_push(q: &mut ArrayQueue<u64>, value: u64) -> (r: Result<(), u64>)
    ensures
        limit(*final(q)) == limit(*old(q)),
        r == (if items(*old(q)).len() < limit(*old(q)) {
            Ok(())
        } else {
            Err(value)
        }),
        items(*final(q)) == pushed(items(*old(q)), limit(*old(q)), value),
{
    q.push(value)
}

/// `ArrayQueue::<u64>::pop`: takes the oldest number out, if there is one.
#[verifier::external_body]
pub(crate) fn queue_pop(q: &mut ArrayQueue<u64>) -> (r: Option<u64>)
    ensures
        limit(*final(q)) == limit(*old(q)),
        r == oldest(items(*old(q))),
        items(*final(q)) == popped(items(*old(q))),
{
    q.pop()
}

/// `ArrayQueue::<u64>::len`: how many numbers the queue holds, which are never more than it has
/// room for.
#[verifier::external_body]
pub(crate) fn queue_len(q: &ArrayQueue<u64>) -> (r: usize)
    ensures
        r == items(*q).len(),
        r <= limit(*q),
{
    q.len()
}

/// A bounded queue after an attempt to add `value`: unchanged if it was full.
pub open spec fn pushed<T>(queue: Seq<T>, limit: nat, value: T) -> Seq<T> {
    if queue.len() < limit {
        queue.push(value)
    } else {
        queue
    }
}

/// The element that leaves a queue next.
pub open spec fn oldest<T>(queue: Seq<T>) -> Option<T> {
    if queue.len() > 0 {
        Some(queue[0])
    } else {
        None
    }
}

/// A queue without the element that leaves it next.
pub open spec fn popped<T>(queue: Seq<T>) -> Seq<T> {
    if queue.len() > 0 {
        queue.drop_first()
    } else {
        queue
    }
}

} // verus!
