//! What a control call came back with, held against what is wanted of it.

use crate::umcg::{
    event_code, event_kind, event_word, event_worker, kind_of, law_words_by_bits, worker_id_of,
    worker_of, UmcgEventType,
};
use vstd::prelude::*;

verus! {

/// The number of the control call that the checks make.
pub const SYS_UMCG_CTL: i64 = 450;

/// The error number of a call with arguments that make no sense.
pub open spec fn invalid_errno() -> i32 {
    22
}

/// The error number of a call that names a thread which does not exist.
pub open spec fn no_thread_errno() -> i32 {
    3
}

/// `libc::EINVAL`, which is 22 on x86-64 Linux.
#[verifier::external_body]
pub(crate) fn einval() -> (r: i32)
    ensures
        r == invalid_errno(),
{
    libc::EINVAL
}

/// `libc::ESRCH`, which is 3 on x86-64 Linux.
#[verifier::external_body]
pub(crate) fn esrch() -> (r: i32)
    ensures
        r == no_thread_errno(),
{
    libc::ESRCH
}

/// What a call came back with: its return value, the error number, and up to two events, with zero
/// for none.
#[derive(Debug, Copy, Clone, PartialEq, Eq, Structural)]
pub struct CallReply {
    pub ret: i32,
    pub errno: i32,
    pub first: u64,
    pub second: u64,
}

/// What a call has to return.
#[derive(Debug, Copy, Clone, PartialEq, Eq, Structural)]
pub enum Want {
    /// Zero.
    Zero,
    /// A negative number, with this error number.
    Negative { errno: i32 },
    /// Minus one, with this error number.
    MinusOne { errno: i32 },
    /// Zero, or a negative number with this error number.
    ZeroOrNegative { errno: i32 },
}

/// The call returned what is wanted.
pub open spec fn is_met(want: Want, reply: CallReply) -> bool {
    match want {
        Want::Zero => reply.ret == 0,
        Want::Negative { errno } => reply.ret < 0 && reply.errno == errno,
        Want::MinusOne { errno } => reply.ret == -1 && reply.errno == errno,
        Want::ZeroOrNegative { errno } => reply.ret == 0 || reply.ret < 0 && reply.errno == errno,
    }
}

/// The event is of this kind and about this worker.
pub open spec fn is_event(event: u64, worker_id: u64, kind: UmcgEventType) -> bool {
    kind_of(event) == event_code(kind) && worker_of(event) == worker_id
}

impl Want {
    /// Whether the call returned what is wanted.
    pub fn met(&self, reply: &CallReply) -> (r: bool)
        ensures
            r == is_met(*self, *reply),
    {
        match *self {
            Want::Zero => reply.ret == 0,
            Want::Negative { errno } => reply.ret < 0 && reply.errno == errno,
            Want::MinusOne { errno } => reply.ret == -1 && reply.errno == errno,
            Want::ZeroOrNegative { errno } => reply.ret == 0 || reply.ret < 0 && reply.errno
                == errno,
        }
    }
}

/// Whether an event is of this kind and about this worker.
pub fn umcg_assert_worker_event(event: u64, worker_id: u64, event_type: UmcgEventType) -> (r: bool)
    ensures
        r == is_event(event, worker_id, event_type),
{
    event_kind(event) == event_type.code() && event_worker(event) == worker_id
}

/// The worker that a wait for any worker reported, if the wait succeeded and reported one event, of
/// this kind.
pub fn umcg_wait_any_worker(reply: &CallReply, expected_event: UmcgEventType) -> (r: Option<u64>)
    ensures
        r == (if reply.ret == 0 && kind_of(reply.first) == event_code(expected_event)
            && reply.second == 0 {
            Some(worker_of(reply.first))
        } else {
            None::<u64>
        }),
{
    if reply.ret == 0 && event_kind(reply.first) == expected_event.code() && reply.second == 0 {
        Some(event_worker(reply.first))
    } else {
        None
    }
}

/// Whether a switch succeeded and reported one event, of this kind and about this worker.
pub fn umcg_ctxsw_assert_worker_event(
    reply: &CallReply,
    worker_id: u64,
    event_type: UmcgEventType,
) -> (r: bool)
    ensures
        r == (reply.ret == 0 && is_event(reply.first, worker_id, event_type) && reply.second == 0),
{
    reply.ret == 0 && umcg_assert_worker_event(reply.first, worker_id, event_type) && reply.second
        == 0
}

/// A wait by which a worker lets its server go on has to return zero.
pub fn umcg_yield(ret: i32) -> (r: bool)
    ensures
        r == (ret == 0),
{
    ret == 0
}

/// The event that a kernel makes up of a worker and a kind is recognised as such, and as no other
/// kind.
pub proof fn law_event_is_recognised(tid: i32, kind: UmcgEventType, other: UmcgEventType)
    ensures
        is_event(
            event_word(tid, kind),
            worker_id_of(tid),
            kind,
        ),
        is_event(
            event_word(tid, kind),
            worker_id_of(tid),
            other,
        ) ==> other == kind,
{
    crate::umcg::law_event_round_trip(tid, kind);
    crate::umcg::law_event_codes_differ(kind, other);
}

/// Which return values meet what is wanted. Success meets exactly those wants that allow it; a
/// failure meets none without the right error number, and a want of minus one no other number.
pub proof fn law_wants(reply: CallReply, errno: i32)
    ensures
        is_met(Want::Zero, reply) <==> reply.ret == 0,
        is_met(Want::Negative { errno }, reply) <==> reply.ret < 0 && reply.errno == errno,
        is_met(Want::MinusOne { errno }, reply) <==> reply.ret == -1 && is_met(
            Want::Negative { errno },
            reply,
        ),
        is_met(Want::ZeroOrNegative { errno }, reply) <==> is_met(Want::Zero, reply) || is_met(
            Want::Negative { errno },
            reply,
        ),
        !(is_met(Want::Zero, reply) && is_met(Want::Negative { errno }, reply)),
{
}

/// An event is recognised exactly if it is the word that is made up of the worker and the kind.
pub proof fn law_only_its_own_event(tid: i32, kind: UmcgEventType, event: u64)
    ensures
        is_event(event, worker_id_of(tid), kind) <==> event == event_word(tid, kind),
{
    law_event_is_recognised(tid, kind, kind);
    law_words_by_bits(event, tid);
    law_words_by_bits(event_word(tid, kind), tid);
}

/// A wait for any worker tells who reported exactly if it succeeded with one event, of the kind
/// that is wanted, and then it tells the worker of that event. A switch is as wanted exactly if it
/// would have told that very worker.
pub proof fn law_one_event(
    reply: CallReply,
    tid: i32,
    kind: UmcgEventType,
    found: Option<u64>,
    same: bool,
)
    requires
        call_ensures(umcg_wait_any_worker, (&reply, kind), found),
        call_ensures(umcg_ctxsw_assert_worker_event, (&reply, worker_id_of(tid), kind), same),
    ensures
        found == Some(worker_id_of(tid)) <==> reply.ret == 0 && reply.first == event_word(tid, kind)
            && reply.second == 0,
        found is Some ==> reply.ret == 0 && reply.second == 0,
        same <==> found == Some(worker_id_of(tid)),
{
    law_only_its_own_event(tid, kind, reply.first);
    if found == Some(worker_id_of(tid)) {
        assert(is_event(reply.first, worker_id_of(tid), kind));
    }
}

} // verus!
