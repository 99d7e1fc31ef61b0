//! Waiting for worker events: retrying a wait that a signal cut short, and reading the outcome of
//! one that came back.

use crate::umcg::{
    event_tid, law_event_round_trip, worker_id_of, UmcgCall, UmcgCmd, UmcgEventType,
    UMCG_WAIT_FLAG_INTERRUPTED,
};
use vstd::prelude::*;

verus! {

/// The error number of a call that a signal interrupted.
pub open spec fn interrupted_errno() -> i32 {
    4
}

/// The error number of a call that should be tried again later.
pub open spec fn busy_errno() -> i32 {
    11
}

/// The error number of a call whose time ran out.
pub open spec fn timed_out_errno() -> i32 {
    110
}

/// `libc::EINTR`, which is 4 on x86-64 Linux.
#[verifier::external_body]
pub(crate) fn eintr() -> (r: i32)
    ensures
        r == interrupted_errno(),
{
    libc::EINTR
}

/// `libc::EAGAIN`, which is 11 on x86-64 Linux.
#[verifier::external_body]
pub(crate) fn eagain() -> (r: i32)
    ensures
        r == busy_errno(),
{
    libc::EAGAIN
}

/// `libc::ETIMEDOUT`, which is 110 on x86-64 Linux.
#[verifier::external_body]
pub(crate) fn etimedout() -> (r: i32)
    ensures
        r == timed_out_errno(),
{
    libc::ETIMEDOUT
}

/// A call that came back with `ret` and left `errno` was cut short by a signal.
pub open spec fn was_interrupted(ret: i32, errno: i32) -> bool {
    ret == -1 && errno == interrupted_errno()
}

/// A wait that is entered again for as long as signals interrupt it.
#[derive(Debug, Copy, Clone, PartialEq, Eq, Structural)]
pub struct WaitRetry {
    pub worker_id: u64,
    pub event_sz: i32,
    pub flags: u64,
}

/// The wait for `worker_id` (zero for any worker) before its first attempt.
pub open spec fn fresh_wait(worker_id: u64, event_sz: i32) -> WaitRetry {
    WaitRetry { worker_id, event_sz, flags: 0 }
}

/// The call that a wait makes for its next attempt.
pub open spec fn wait_call(wait: WaitRetry) -> UmcgCall {
    UmcgCall {
        flags: wait.flags,
        cmd: UmcgCmd::Wait,
        next_tid: crate::umcg::tid_of(wait.worker_id),
        abs_timeout: 0,
        event_sz: wait.event_sz,
    }
}

/// What an attempt that came back with `ret` and `errno` leads to: the wait as it goes on, and the
/// result if it is over.
pub open spec fn wait_step(wait: WaitRetry, ret: i32, errno: i32) -> (WaitRetry, Option<i32>) {
    if was_interrupted(ret, errno) {
        (WaitRetry { flags: UMCG_WAIT_FLAG_INTERRUPTED, ..wait }, None)
    } else {
        (wait, Some(ret))
    }
}

impl WaitRetry {
    /// A wait for `worker_id`, or for any worker where that is zero, with room for `event_sz`
    /// events.
    pub fn new(worker_id: u64, event_sz: i32) -> (r: WaitRetry)
        ensures
            r == fresh_wait(worker_id, event_sz),
    {
        WaitRetry { worker_id, event_sz, flags: 0 }
    }

    /// The call to make now.
    pub fn call(&self) -> (r: UmcgCall)
        ensures
            r == wait_call(*self),
    {
        UmcgCall {
            flags: self.flags,
            cmd: UmcgCmd::Wait,
            next_tid: event_tid(self.worker_id),
            abs_timeout: 0,
            event_sz: self.event_sz,
        }
    }

    /// Takes in what the call returned. The wait is over with that result unless a signal
    /// interrupted it; then the next attempt says so in its flags.
    pub fn step(&mut self, ret: i32, errno: i32) -> (r: Option<i32>)
        ensures
            (*final(self), r) == wait_step(*old(self), ret, errno),
    {
        if ret != -1 || errno != eintr() {
            return Some(ret);
        }
        self.flags = UMCG_WAIT_FLAG_INTERRUPTED;
        None
    }
}

/// The wait after a row of attempts, each given by its return value and error number.
pub open spec fn wait_after(wait: WaitRetry, attempts: Seq<(i32, i32)>) -> WaitRetry
    decreases attempts.len(),
{
    if attempts.len() == 0 {
        wait
    } else {
        let before = wait_after(wait, attempts.drop_last());
        wait_step(before, attempts.last().0, attempts.last().1).0
    }
}

/// However many signals interrupt a wait, it keeps waiting for the same worker with the same room
/// for events; its first call has no flags, and each later one says that it was interrupted.
pub proof fn law_interrupted_wait_goes_on(
    worker_id: u64,
    event_sz: i32,
    attempts: Seq<(i32, i32)>,
)
    requires
        forall|i: int|
            0 <= i < attempts.len() ==> was_interrupted(
                (#[trigger] attempts[i]).0,
                attempts[i].1,
            ),
    ensures
        wait_after(fresh_wait(worker_id, event_sz), attempts) == (WaitRetry {
            worker_id,
            event_sz,
            flags: if attempts.len() == 0 {
                0
            } else {
                UMCG_WAIT_FLAG_INTERRUPTED
            },
        }),
    decreases attempts.len(),
{
    if attempts.len() > 0 {
        law_interrupted_wait_goes_on(worker_id, event_sz, attempts.drop_last());
        assert(was_interrupted(attempts.last().0, attempts.last().1));
    }
}

/// The outcome of a wait without a time limit.
#[derive(Debug, Copy, Clone, PartialEq, Eq, Structural)]
pub enum WaitNoTimeoutResult {
    /// Events came in; the call's return value.
    Events(i32),
    /// The wait was interrupted: look for forwarded events.
    ProcessForwarded,
    /// The kernel asks to back off.
    ResourceBusy,
}

/// The outcome of a wait with a time limit.
#[derive(Debug, Copy, Clone, PartialEq, Eq, Structural)]
pub enum WaitResult {
    /// Events came in; the call's return value.
    Events(i32),
    /// The wait was interrupted: look for forwarded events.
    ProcessForwarded,
    /// The time ran out.
    Timeout,
    /// The kernel asks to back off.
    ResourceBusy,
}

/// Reads the outcome of a wait without a time limit.
pub fn classify_wait(ret: i32, errno: i32) -> (r: WaitNoTimeoutResult)
    ensures
        r == (if ret != 0 && errno == busy_errno() {
            WaitNoTimeoutResult::ResourceBusy
        } else if ret != 0 && errno == interrupted_errno() {
            WaitNoTimeoutResult::ProcessForwarded
        } else {
            WaitNoTimeoutResult::Events(ret)
        }),
{
    if ret == 0 {
        return WaitNoTimeoutResult::Events(ret);
    }
    if errno == eagain() {
        WaitNoTimeoutResult::ResourceBusy
    } else if errno == eintr() {
        WaitNoTimeoutResult::ProcessForwarded
    } else {
        WaitNoTimeoutResult::Events(ret)
    }
}

/// Reads the outcome of a wait with a time limit.
pub fn classify_timed_wait(ret: i32, errno: i32) -> (r: WaitResult)
    ensures
        r == (if ret != 0 && errno == timed_out_errno() {
            WaitResult::Timeout
        } else if ret != 0 && errno == busy_errno() {
            WaitResult::ResourceBusy
        } else if ret != 0 && errno == interrupted_errno() {
            WaitResult::ProcessForwarded
        } else {
            WaitResult::Events(ret)
        }),
{
    if ret == 0 {
        return WaitResult::Events(ret);
    }
    if errno == etimedout() {
        WaitResult::Timeout
    } else if errno == eagain() {
        WaitResult::ResourceBusy
    } else if errno == eintr() {
        WaitResult::ProcessForwarded
    } else {
        WaitResult::Events(ret)
    }
}

/// The moment at which a wait that begins `now_ns` nanoseconds after the epoch and may last
/// `timeout_ns` ends. The kernel counts in 64 bits, so the clock's reading is cut to them.
pub fn deadline(now_ns: u128, timeout_ns: u64) -> (r: u64)
    requires
        now_ns % 0x1_0000_0000_0000_0000 + timeout_ns <= u64::MAX,
    ensures
        r == now_ns % 0x1_0000_0000_0000_0000 + timeout_ns,
{
    assert((now_ns as u64) == now_ns % 0x1_0000_0000_0000_0000) by (bit_vector);
    #[verifier::truncate]
    let now: u64 = now_ns as u64;
    now + timeout_ns
}

/// The call of a single wait attempt for `worker_id` that ends at `abs_timeout` (zero for no
/// limit).
pub fn single_wait(worker_id: u64, abs_timeout: u64, event_sz: i32) -> (r: UmcgCall)
    ensures
        r == (UmcgCall { abs_timeout, ..wait_call(fresh_wait(worker_id, event_sz)) }),
{
    UmcgCall {
        flags: 0,
        cmd: UmcgCmd::Wait,
        next_tid: event_tid(worker_id),
        abs_timeout,
        event_sz,
    }
}

/// A wait is over exactly if its attempt was not cut short by a signal, and then its result is what
/// the attempt returned and the wait is as it was. Otherwise there is no result, and the wait goes
/// on for the same worker and as many events, with the flag that says it was interrupted.
pub proof fn law_only_signals_prolong_a_wait(wait: WaitRetry, ret: i32, errno: i32)
    ensures
        ({
            let (next, result) = wait_step(wait, ret, errno);
            let signal = ret == -1 && errno == 4;
            &&& result is None <==> signal
            &&& result is Some ==> result == Some(ret) && next == wait
            &&& next.worker_id == wait.worker_id
            &&& next.event_sz == wait.event_sz
            &&& signal ==> next.flags == 1
        }),
{
}

/// A wait for the worker under which a thread registered is a wait for that thread, and a wait for
/// worker zero is one for any thread. Its call names no time limit and has the room for events and
/// the flags that the wait has.
pub proof fn law_wait_names_the_thread(tid: i32, event_sz: i32, flags: u64)
    ensures
        wait_call(WaitRetry { worker_id: worker_id_of(tid), event_sz, flags }) == (UmcgCall {
            flags,
            cmd: UmcgCmd::Wait,
            next_tid: tid,
            abs_timeout: 0,
            event_sz,
        }),
        wait_call(WaitRetry { worker_id: 0, event_sz, flags }).next_tid == 0,
        fresh_wait(worker_id_of(tid), event_sz).flags == 0,
        fresh_wait(worker_id_of(tid), event_sz).event_sz == event_sz,
        fresh_wait(worker_id_of(tid), event_sz).worker_id == worker_id_of(tid),
{
    law_event_round_trip(tid, UmcgEventType::Block);
}

/// A single attempt for the worker under which a thread registered is the first call of a wait for
/// that thread, but for the moment at which it ends.
pub proof fn law_single_wait_is_a_first_attempt(
    tid: i32,
    abs_timeout: u64,
    event_sz: i32,
    call: UmcgCall,
)
    requires
        call_ensures(single_wait, (worker_id_of(tid), abs_timeout, event_sz), call),
    ensures
        call == (UmcgCall { flags: 0, cmd: UmcgCmd::Wait, next_tid: tid, abs_timeout, event_sz }),
{
    law_event_round_trip(tid, UmcgEventType::Block);
}

/// How the outcome of a wait is read. A call that returned zero brought events whatever the error
/// number says; a call that failed did so unless the number is one of those for a signal, a busy
/// kernel or, in a wait with a time limit, the end of the time. Apart from the time limit both
/// kinds of wait are read alike.
pub proof fn law_outcomes_of_waits(
    ret: i32,
    errno: i32,
    untimed: WaitNoTimeoutResult,
    timed: WaitResult,
)
    requires
        call_ensures(classify_wait, (ret, errno), untimed),
        call_ensures(classify_timed_wait, (ret, errno), timed),
    ensures
        untimed is ResourceBusy <==> ret != 0 && errno == 11,
        untimed is ProcessForwarded <==> ret != 0 && errno == 4,
        untimed is Events ==> untimed == WaitNoTimeoutResult::Events(ret),
        timed is Timeout <==> ret != 0 && errno == 110,
        timed is ResourceBusy <==> untimed is ResourceBusy,
        timed is ProcessForwarded <==> untimed is ProcessForwarded,
        timed is Events ==> timed == WaitResult::Events(ret),
{
}

/// A wait ends as long after it began as it may last, and one that begins later ends later by as
/// much.
pub proof fn law_deadlines(now: u64, later: u64, timeout_ns: u64, first: u64, second: u64)
    requires
        now <= later,
        later + timeout_ns <= u64::MAX,
        call_ensures(deadline, (now as u128, timeout_ns), first),
        call_ensures(deadline, (later as u128, timeout_ns), second),
    ensures
        first - now == timeout_ns,
        second - first == later - now,
{
}

} // verus!
