//! The scripts: what a kernel's control call is tried with.

use crate::conformance::check::{
    einval, esrch, invalid_errno, is_met, no_thread_errno, CallReply, Want,
};
use crate::conformance::script::{Act, Helper, Limit, Look, Step, Target};
use crate::umcg::{UmcgCmd, UmcgEventType, UMCG_WORKER_EVENT_MASK};
use crate::wait::{busy_errno, eagain, etimedout, timed_out_errno};
use vstd::prelude::*;

verus! {

/// A step that just has to succeed.
#[verifier::allow_in_spec]
pub fn done(act: Act) -> Step
    returns
        (Step { act, want: Want::Zero, look: Look::Nothing, patient: false }),
{
    Step { act, want: Want::Zero, look: Look::Nothing, patient: false }
}

/// A call without events and without anything else.
#[verifier::allow_in_spec]
pub fn bare(cmd: UmcgCmd) -> Step
    returns
        done(
            Act::Call {
                cmd,
                target: Target::Nobody,
                limit: Limit::Number(0),
                buffer: false,
                event_sz: 0,
            },
        ),
{
    done(
        Act::Call {
            cmd,
            target: Target::Nobody,
            limit: Limit::Number(0),
            buffer: false,
            event_sz: 0,
        },
    )
}

/// The registration of a worker under `limit`.
#[verifier::allow_in_spec]
pub fn register_as(limit: Limit) -> Act
    returns
        (Act::Call {
            cmd: UmcgCmd::RegisterWorker,
            target: Target::Nobody,
            limit,
            buffer: false,
            event_sz: 0,
        }),
{
    Act::Call {
        cmd: UmcgCmd::RegisterWorker,
        target: Target::Nobody,
        limit,
        buffer: false,
        event_sz: 0,
    }
}

/// The registration of the thread itself as a worker.
#[verifier::allow_in_spec]
pub fn enroll() -> Step
    returns
        done(register_as(Limit::OwnWorkerId)),
{
    done(register_as(Limit::OwnWorkerId))
}

/// A wait for any worker, with one event that is looked at.
#[verifier::allow_in_spec]
pub fn any(look: Look) -> Step
    returns
        (Step {
            act: Act::WaitRetry { target: Target::Nobody, buffer: true },
            want: Want::Zero,
            look,
            patient: false,
        }),
{
    Step {
        act: Act::WaitRetry { target: Target::Nobody, buffer: true },
        want: Want::Zero,
        look,
        patient: false,
    }
}

/// A switch to a worker, with the events that it reports.
#[verifier::allow_in_spec]
pub fn switch(target: Target, look: Look) -> Step
    returns
        (Step {
            act: Act::Call {
                cmd: UmcgCmd::CtxSwitch,
                target,
                limit: Limit::Number(0),
                buffer: true,
                event_sz: 2,
            },
            want: Want::Zero,
            look,
            patient: false,
        }),
{
    Step {
        act: Act::Call {
            cmd: UmcgCmd::CtxSwitch,
            target,
            limit: Limit::Number(0),
            buffer: true,
            event_sz: 2,
        },
        want: Want::Zero,
        look,
        patient: false,
    }
}

/// A step that has to fail, or may, as `want` says.
#[verifier::allow_in_spec]
pub fn expect(act: Act, want: Want) -> Step
    returns
        (Step { act, want, look: Look::Nothing, patient: false }),
{
    Step { act, want, look: Look::Nothing, patient: false }
}

/// A call of this kind with these arguments.
#[verifier::allow_in_spec]
pub fn call(cmd: UmcgCmd, target: Target, limit: Limit, buffer: bool, event_sz: i32) -> Act
    returns
        (Act::Call { cmd, target, limit, buffer, event_sz }),
{
    Act::Call { cmd, target, limit, buffer, event_sz }
}

/// A worker that sleeps comes back with the event that it blocked; once it is waited for it wakes
/// up, and then it exits.
pub open spec fn blocking_part() -> Seq<Step> {
    seq![
        done(Act::Start(Helper::BlockingWorker)),
        any(Look::NoteFirst(UmcgEventType::Wake)),
        switch(Target::FirstWorker, Look::First(UmcgEventType::Block)),
        done(Act::WaitRetry { target: Target::FirstWorker, buffer: false }),
        any(Look::First(UmcgEventType::Wake)),
        switch(Target::FirstWorker, Look::First(UmcgEventType::Exit)),
        done(Act::Join),
    ]
}

/// A worker that waits with a time limit that is over comes back with the event that it waits, and
/// then with the one that its time ran out.
pub open spec fn wait_timeout_part() -> Seq<Step> {
    seq![
        done(Act::Start(Helper::WaitTimeoutWorker)),
        any(Look::NoteFirst(UmcgEventType::Wake)),
        switch(Target::FirstWorker, Look::First(UmcgEventType::Wait)),
        any(Look::First(UmcgEventType::Timeout)),
        switch(Target::FirstWorker, Look::First(UmcgEventType::Exit)),
        done(Act::Join),
    ]
}

/// A worker that switches to another one lets that one run to its end; it then waits, and its time
/// may have run out.
pub open spec fn switch_timeout_part() -> Seq<Step> {
    seq![
        done(Act::Start(Helper::DummyWorker)),
        any(Look::NoteFirst(UmcgEventType::Wake)),
        done(Act::Start(Helper::SwitchTimeoutWorker)),
        any(Look::NoteSecond(UmcgEventType::Wake)),
        switch(Target::SecondWorker, Look::First(UmcgEventType::Exit)),
        any(Look::SecondAndPerhaps(UmcgEventType::Wait, UmcgEventType::Timeout)),
        switch(Target::SecondWorker, Look::Second(UmcgEventType::Exit)),
        done(Act::Join),
        done(Act::Join),
    ]
}

/// A worker that never gives up its processor is taken off it; once it is let go it exits.
pub open spec fn preempted_part() -> Seq<Step> {
    seq![
        done(Act::Start(Helper::PreemptedWorker)),
        any(Look::NoteFirst(UmcgEventType::Wake)),
        switch(Target::FirstWorker, Look::First(UmcgEventType::Preempt)),
        done(Act::Release),
        switch(Target::FirstWorker, Look::First(UmcgEventType::Exit)),
        done(Act::Join),
    ]
}

/// A worker whose thread ends exits, though it did not give up its registration.
pub open spec fn exiting_part() -> Seq<Step> {
    seq![
        done(Act::Start(Helper::ExitingWorker)),
        any(Look::NoteFirst(UmcgEventType::Wake)),
        switch(Target::FirstWorker, Look::First(UmcgEventType::Exit)),
        done(Act::Join),
    ]
}

/// The checks of what becomes of workers, one after the other.
pub open spec fn basic_steps() -> Seq<Step> {
    seq![bare(UmcgCmd::RegisterServer)] + blocking_part() + wait_timeout_part()
        + switch_timeout_part() + preempted_part() + exiting_part() + seq![
        bare(UmcgCmd::Unregister),
    ]
}

fn extend(list: &mut Vec<Step>, part: Vec<Step>)
    ensures
        final(list)@ == old(list)@ + part@,
{
    let mut index: usize = 0;
    while index < part.len()
        invariant
            index <= part@.len(),
            list@ == old(list)@ + part@.take(index as int),
        decreases part@.len() - index,
    {
        list.push(part[index]);
        index = index + 1;
        assert(list@ =~= old(list)@ + part@.take(index as int));
    }
    assert(part@.take(index as int) =~= part@);
}

/// The script of the checks of what becomes of workers.
pub fn umcg_test_basic() -> (r: Vec<Step>)
    ensures
        r@ == basic_steps(),
{
    let mut steps = vec![bare(UmcgCmd::RegisterServer)];
    extend(
        &mut steps,
        vec![
            done(Act::Start(Helper::BlockingWorker)),
            any(Look::NoteFirst(UmcgEventType::Wake)),
            switch(Target::FirstWorker, Look::First(UmcgEventType::Block)),
            done(Act::WaitRetry { target: Target::FirstWorker, buffer: false }),
            any(Look::First(UmcgEventType::Wake)),
            switch(Target::FirstWorker, Look::First(UmcgEventType::Exit)),
            done(Act::Join),
        ],
    );
    assert(steps@ =~= seq![bare(UmcgCmd::RegisterServer)] + blocking_part());
    extend(
        &mut steps,
        vec![
            done(Act::Start(Helper::WaitTimeoutWorker)),
            any(Look::NoteFirst(UmcgEventType::Wake)),
            switch(Target::FirstWorker, Look::First(UmcgEventType::Wait)),
            any(Look::First(UmcgEventType::Timeout)),
            switch(Target::FirstWorker, Look::First(UmcgEventType::Exit)),
            done(Act::Join),
        ],
    );
    assert(steps@ =~= seq![bare(UmcgCmd::RegisterServer)] + blocking_part() + wait_timeout_part());
    let ghost half = steps@;
    extend(
        &mut steps,
        vec![
            done(Act::Start(Helper::DummyWorker)),
            any(Look::NoteFirst(UmcgEventType::Wake)),
            done(Act::Start(Helper::SwitchTimeoutWorker)),
            any(Look::NoteSecond(UmcgEventType::Wake)),
            switch(Target::SecondWorker, Look::First(UmcgEventType::Exit)),
            any(Look::SecondAndPerhaps(UmcgEventType::Wait, UmcgEventType::Timeout)),
            switch(Target::SecondWorker, Look::Second(UmcgEventType::Exit)),
            done(Act::Join),
            done(Act::Join),
        ],
    );
    assert(steps@ =~= half + switch_timeout_part());
    extend(
        &mut steps,
        vec![
            done(Act::Start(Helper::PreemptedWorker)),
            any(Look::NoteFirst(UmcgEventType::Wake)),
            switch(Target::FirstWorker, Look::First(UmcgEventType::Preempt)),
            done(Act::Release),
            switch(Target::FirstWorker, Look::First(UmcgEventType::Exit)),
            done(Act::Join),
        ],
    );
    assert(steps@ =~= half + switch_timeout_part() + preempted_part());
    extend(
        &mut steps,
        vec![
            done(Act::Start(Helper::ExitingWorker)),
            any(Look::NoteFirst(UmcgEventType::Wake)),
            switch(Target::FirstWorker, Look::First(UmcgEventType::Exit)),
            done(Act::Join),
        ],
    );
    assert(steps@ =~= half + switch_timeout_part() + preempted_part() + exiting_part());
    extend(&mut steps, vec![bare(UmcgCmd::Unregister)]);
    assert(steps@ =~= basic_steps());
    steps
}

/// The checks that a server can be registered, that a worker id with bits of the kind field is
/// refused, and that a server cannot switch to itself.
pub open spec fn server_steps() -> Seq<Step> {
    seq![
        bare(UmcgCmd::RegisterServer),
        expect(
            register_as(Limit::Number(UMCG_WORKER_EVENT_MASK)),
            Want::Negative { errno: invalid_errno() },
        ),
        expect(
            call(UmcgCmd::CtxSwitch, Target::Own, Limit::Number(0), true, 2),
            Want::MinusOne { errno: invalid_errno() },
        ),
        bare(UmcgCmd::Unregister),
    ]
}

/// The script of the checks of a server's registration.
pub fn run_basic_tests() -> (r: Vec<Step>)
    ensures
        r@ == server_steps(),
{
    let r = vec![
        bare(UmcgCmd::RegisterServer),
        expect(
            register_as(Limit::Number(UMCG_WORKER_EVENT_MASK)),
            Want::Negative { errno: einval() },
        ),
        expect(
            call(UmcgCmd::CtxSwitch, Target::Own, Limit::Number(0), true, 2),
            Want::MinusOne { errno: einval() },
        ),
        bare(UmcgCmd::Unregister),
    ];
    assert(r@ =~= server_steps());
    r
}

/// The check that one server can wake another one that waits for workers that do not exist: the
/// call is made again for as long as no server waits.
pub open spec fn waking_steps() -> Seq<Step> {
    seq![
        bare(UmcgCmd::RegisterServer),
        done(Act::Start(Helper::IdleServer)),
        Step {
            act: call(UmcgCmd::Wake, Target::Nobody, Limit::Number(0), false, 0),
            want: Want::ZeroOrNegative { errno: busy_errno() },
            look: Look::Nothing,
            patient: true,
        },
        done(Act::Join),
        bare(UmcgCmd::Unregister),
    ]
}

/// The script of the check that one server can wake another one.
pub fn umcg_test_server2server() -> (r: Vec<Step>)
    ensures
        r@ == waking_steps(),
{
    let r = vec![
        bare(UmcgCmd::RegisterServer),
        done(Act::Start(Helper::IdleServer)),
        Step {
            act: call(UmcgCmd::Wake, Target::Nobody, Limit::Number(0), false, 0),
            want: Want::ZeroOrNegative { errno: eagain() },
            look: Look::Nothing,
            patient: true,
        },
        done(Act::Join),
        bare(UmcgCmd::Unregister),
    ];
    assert(r@ =~= waking_steps());
    r
}

/// The checks that a server's mistakes are refused, each with the right error number: a bad worker
/// id, a switch to itself, too small a buffer, time limits that are over, a worker to wait for
/// without a buffer that fits, switches to threads that do not exist, and a wake-up call that
/// nobody waits for.
pub open spec fn error_steps() -> Seq<Step> {
    let invalid = Want::MinusOne { errno: invalid_errno() };
    let late = Want::MinusOne { errno: timed_out_errno() };
    let missing = Want::MinusOne { errno: no_thread_errno() };
    seq![
        expect(
            register_as(Limit::Number(UMCG_WORKER_EVENT_MASK)),
            Want::Negative { errno: invalid_errno() },
        ),
        bare(UmcgCmd::RegisterServer),
        expect(call(UmcgCmd::CtxSwitch, Target::Own, Limit::Number(0), true, 2), invalid),
        expect(call(UmcgCmd::Wait, Target::Nobody, Limit::Number(0), true, 1), invalid),
        expect(call(UmcgCmd::Wait, Target::Nobody, Limit::Now, true, 2), late),
        expect(call(UmcgCmd::Wait, Target::Nobody, Limit::Number(1), true, 2), late),
        expect(call(UmcgCmd::Wait, Target::Thread(1), Limit::Number(0), true, 0), invalid),
        expect(call(UmcgCmd::Wait, Target::Thread(1), Limit::Number(0), false, 2), invalid),
        expect(call(UmcgCmd::CtxSwitch, Target::Thread(1), Limit::Number(1), true, 2), missing),
        expect(
            call(UmcgCmd::CtxSwitch, Target::Thread(999999), Limit::Number(0), true, 2),
            missing,
        ),
        expect(
            call(UmcgCmd::Wake, Target::Nobody, Limit::Number(0), false, 0),
            Want::MinusOne { errno: busy_errno() },
        ),
        bare(UmcgCmd::Unregister),
    ]
}

/// The script of the checks that a server's mistakes are refused.
pub fn umcg_test_errors() -> (r: Vec<Step>)
    ensures
        r@ == error_steps(),
{
    let invalid = Want::MinusOne { errno: einval() };
    let late = Want::MinusOne { errno: etimedout() };
    let missing = Want::MinusOne { errno: esrch() };
    let r = vec![
        expect(
            register_as(Limit::Number(UMCG_WORKER_EVENT_MASK)),
            Want::Negative { errno: einval() },
        ),
        bare(UmcgCmd::RegisterServer),
        expect(call(UmcgCmd::CtxSwitch, Target::Own, Limit::Number(0), true, 2), invalid),
        expect(call(UmcgCmd::Wait, Target::Nobody, Limit::Number(0), true, 1), invalid),
        expect(call(UmcgCmd::Wait, Target::Nobody, Limit::Now, true, 2), late),
        expect(call(UmcgCmd::Wait, Target::Nobody, Limit::Number(1), true, 2), late),
        expect(call(UmcgCmd::Wait, Target::Thread(1), Limit::Number(0), true, 0), invalid),
        expect(call(UmcgCmd::Wait, Target::Thread(1), Limit::Number(0), false, 2), invalid),
        expect(call(UmcgCmd::CtxSwitch, Target::Thread(1), Limit::Number(1), true, 2), missing),
        expect(
            call(UmcgCmd::CtxSwitch, Target::Thread(999999), Limit::Number(0), true, 2),
            missing,
        ),
        expect(
            call(UmcgCmd::Wake, Target::Nobody, Limit::Number(0), false, 0),
            Want::MinusOne { errno: eagain() },
        ),
        bare(UmcgCmd::Unregister),
    ];
    assert(r@ =~= error_steps());
    r
}

/// What a thread that a script started goes through. Every worker registers, and gives up its
/// registration at the end but for the one that is to exit without.
pub open spec fn helper_steps(helper: Helper) -> Seq<Step> {
    let invalid = Want::Negative { errno: invalid_errno() };
    let strictly = Want::MinusOne { errno: invalid_errno() };
    match helper {
        Helper::BlockingWorker => seq![
            enroll(),
            done(Act::Sleep { micros: 16384 }),
            bare(UmcgCmd::Unregister),
        ],
        Helper::WaitTimeoutWorker => seq![
            enroll(),
            expect(
                call(UmcgCmd::Wait, Target::Nobody, Limit::Now, false, 0),
                Want::MinusOne { errno: timed_out_errno() },
            ),
            bare(UmcgCmd::Unregister),
        ],
        Helper::DummyWorker => seq![enroll(), bare(UmcgCmd::Unregister)],
        Helper::SwitchTimeoutWorker => seq![
            enroll(),
            expect(
                call(UmcgCmd::CtxSwitch, Target::FirstWorker, Limit::Now, false, 0),
                Want::ZeroOrNegative { errno: timed_out_errno() },
            ),
            bare(UmcgCmd::Unregister),
        ],
        Helper::PreemptedWorker => seq![enroll(), done(Act::Spin), bare(UmcgCmd::Unregister)],
        Helper::ExitingWorker => seq![
            enroll(),
            expect(register_as(Limit::OwnWorkerId), invalid),
            expect(call(UmcgCmd::CtxSwitch, Target::Own, Limit::Number(0), false, 0), strictly),
            expect(call(UmcgCmd::Wait, Target::Own, Limit::Number(0), false, 0), invalid),
            expect(call(UmcgCmd::Wait, Target::Nobody, Limit::Number(0), true, 0), invalid),
            expect(call(UmcgCmd::Wait, Target::Nobody, Limit::Number(0), false, 2), strictly),
        ],
        Helper::IdleServer => seq![
            bare(UmcgCmd::RegisterServer),
            any(Look::Silence),
            bare(UmcgCmd::Unregister),
        ],
    }
}

/// The script of a thread that a script started.
pub fn helper_script(helper: Helper) -> (r: Vec<Step>)
    ensures
        r@ == helper_steps(helper),
{
    let invalid = Want::Negative { errno: einval() };
    let strictly = Want::MinusOne { errno: einval() };
    let r = match helper {
        Helper::BlockingWorker => vec![
            enroll(),
            done(Act::Sleep { micros: 16384 }),
            bare(UmcgCmd::Unregister),
        ],
        Helper::WaitTimeoutWorker => vec![
            enroll(),
            expect(
                call(UmcgCmd::Wait, Target::Nobody, Limit::Now, false, 0),
                Want::MinusOne { errno: etimedout() },
            ),
            bare(UmcgCmd::Unregister),
        ],
        Helper::DummyWorker => vec![enroll(), bare(UmcgCmd::Unregister)],
        Helper::SwitchTimeoutWorker => vec![
            enroll(),
            expect(
                call(UmcgCmd::CtxSwitch, Target::FirstWorker, Limit::Now, false, 0),
                Want::ZeroOrNegative { errno: etimedout() },
            ),
            bare(UmcgCmd::Unregister),
        ],
        Helper::PreemptedWorker => vec![enroll(), done(Act::Spin), bare(UmcgCmd::Unregister)],
        Helper::ExitingWorker => vec![
            enroll(),
            expect(register_as(Limit::OwnWorkerId), invalid),
            expect(call(UmcgCmd::CtxSwitch, Target::Own, Limit::Number(0), false, 0), strictly),
            expect(call(UmcgCmd::Wait, Target::Own, Limit::Number(0), false, 0), invalid),
            expect(call(UmcgCmd::Wait, Target::Nobody, Limit::Number(0), true, 0), invalid),
            expect(call(UmcgCmd::Wait, Target::Nobody, Limit::Number(0), false, 2), strictly),
        ],
        Helper::IdleServer => vec![
            bare(UmcgCmd::RegisterServer),
            any(Look::Silence),
            bare(UmcgCmd::Unregister),
        ],
    };
    assert(r@ =~= helper_steps(helper));
    r
}

/// How many threads more there are after a step than before it.
pub open spec fn threads_of(step: Step) -> int {
    match step.act {
        Act::Start(_) => 1,
        Act::Join => -1,
        _ => 0,
    }
}

/// How many of the threads that the first `count` steps start they do not wait for.
pub open spec fn threads_left(steps: Seq<Step>, count: nat) -> int
    decreases count,
{
    if count == 0 {
        0
    } else {
        threads_left(steps, (count - 1) as nat) + threads_of(steps[count - 1])
    }
}

/// Every thread that a script starts is waited for before the script ends.
pub proof fn law_scripts_leave_no_thread()
    ensures
        threads_left(basic_steps(), basic_steps().len()) == 0,
        threads_left(server_steps(), server_steps().len()) == 0,
        threads_left(waking_steps(), waking_steps().len()) == 0,
        threads_left(error_steps(), error_steps().len()) == 0,
{
    assert(threads_left(server_steps(), 4) == 0) by {
        reveal_with_fuel(threads_left, 5);
    }
    assert(threads_left(waking_steps(), 5) == 0) by {
        reveal_with_fuel(threads_left, 6);
    }
    assert(threads_left(error_steps(), 12) == 0) by {
        reveal_with_fuel(threads_left, 13);
    }
    assert(threads_left(blocking_part(), 7) == 0) by {
        reveal_with_fuel(threads_left, 8);
    }
    assert(threads_left(wait_timeout_part(), 6) == 0) by {
        reveal_with_fuel(threads_left, 7);
    }
    assert(threads_left(switch_timeout_part(), 9) == 0) by {
        reveal_with_fuel(threads_left, 10);
    }
    assert(threads_left(preempted_part(), 6) == 0) by {
        reveal_with_fuel(threads_left, 7);
    }
    assert(threads_left(exiting_part(), 4) == 0) by {
        reveal_with_fuel(threads_left, 5);
    }
    let begin = seq![bare(UmcgCmd::RegisterServer)];
    let end = seq![bare(UmcgCmd::Unregister)];
    assert(threads_left(begin, 1) == 0 && threads_left(end, 1) == 0) by {
        reveal_with_fuel(threads_left, 2);
    }
    lemma_threads_add(begin, blocking_part(), 7);
    let one = begin + blocking_part();
    lemma_threads_add(one, wait_timeout_part(), 6);
    let two = one + wait_timeout_part();
    lemma_threads_add(two, switch_timeout_part(), 9);
    let three = two + switch_timeout_part();
    lemma_threads_add(three, preempted_part(), 6);
    let four = three + preempted_part();
    lemma_threads_add(four, exiting_part(), 4);
    lemma_threads_add(four + exiting_part(), end, 1);
}

proof fn lemma_threads_add(front: Seq<Step>, back: Seq<Step>, count: nat)
    requires
        count <= back.len(),
    ensures
        threads_left(front + back, front.len() + count) == threads_left(front, front.len())
            + threads_left(back, count),
    decreases count,
{
    if count > 0 {
        lemma_threads_add(front, back, (count - 1) as nat);
    } else {
        lemma_threads_front(front, back, front.len());
    }
}

proof fn lemma_threads_front(front: Seq<Step>, back: Seq<Step>, count: nat)
    requires
        count <= front.len(),
    ensures
        threads_left(front + back, count) == threads_left(front, count),
    decreases count,
{
    if count > 0 {
        lemma_threads_front(front, back, (count - 1) as nat);
    }
}

/// The thread registers as a server, and this has to succeed.
pub open spec fn registers(step: Step) -> bool {
    &&& step.act matches Act::Call { cmd: UmcgCmd::RegisterServer, .. }
    &&& step.want is Zero
}

/// The thread gives up its registration, and this has to succeed.
pub open spec fn leaves(step: Step) -> bool {
    &&& step.act matches Act::Call { cmd: UmcgCmd::Unregister, .. }
    &&& step.want is Zero
}

/// Every script registers a server first, but for one that first tries to register a worker badly,
/// and gives up the registration last.
pub proof fn law_scripts_register_and_leave()
    ensures
        registers(basic_steps()[0]) && leaves(basic_steps().last()),
        registers(server_steps()[0]) && leaves(server_steps().last()),
        registers(waking_steps()[0]) && leaves(waking_steps().last()),
        registers(error_steps()[1]) && leaves(error_steps().last()),
{
    assert(basic_steps().last() == bare(UmcgCmd::Unregister));
}

proof fn lemma_part_has_to_succeed()
    ensures
        forall|i: int| 0 <= i < 7 ==> (#[trigger] blocking_part()[i]).want is Zero,
        forall|i: int| 0 <= i < 6 ==> (#[trigger] wait_timeout_part()[i]).want is Zero,
        forall|i: int| 0 <= i < 9 ==> (#[trigger] switch_timeout_part()[i]).want is Zero,
        forall|i: int| 0 <= i < 6 ==> (#[trigger] preempted_part()[i]).want is Zero,
        forall|i: int| 0 <= i < 4 ==> (#[trigger] exiting_part()[i]).want is Zero,
{
}

/// In the checks of what becomes of workers every step has to succeed.
pub proof fn law_basic_steps_have_to_succeed(i: int, reply: CallReply)
    requires
        0 <= i < basic_steps().len(),
        is_met(basic_steps()[i].want, reply),
    ensures
        reply.ret == 0,
{
    lemma_part_has_to_succeed();
    if i < 1 {
        assert(basic_steps()[i] == bare(UmcgCmd::RegisterServer));
    } else if i < 8 {
        assert(basic_steps()[i] == blocking_part()[i - 1]);
    } else if i < 14 {
        assert(basic_steps()[i] == wait_timeout_part()[i - 8]);
    } else if i < 23 {
        assert(basic_steps()[i] == switch_timeout_part()[i - 14]);
    } else if i < 29 {
        assert(basic_steps()[i] == preempted_part()[i - 23]);
    } else if i < 33 {
        assert(basic_steps()[i] == exiting_part()[i - 29]);
    } else {
        assert(basic_steps()[i] == seq![bare(UmcgCmd::Unregister)][i - 33]);
    }
}

/// In the checks of mistakes every call but the registration and its end has to be refused: none of
/// them may succeed.
pub proof fn law_mistakes_have_to_be_refused(i: int, reply: CallReply)
    ensures
        0 <= i < 12 && i != 1 && i != 11 && is_met(error_steps()[i].want, reply) ==> reply.ret < 0,
        1 <= i <= 2 && is_met(server_steps()[i].want, reply) ==> reply.ret < 0,
        error_steps().len() == 12,
        server_steps().len() == 4,
{
}

/// The call that wakes another server is made again for as long as nobody waits, and whatever else
/// than that keeps it from succeeding fails the check.
pub proof fn law_waking_is_patient(reply: CallReply)
    ensures
        waking_steps()[2].patient,
        is_met(waking_steps()[2].want, reply) && reply.ret != 0 ==> reply.errno == 11,
        reply.ret == 0 ==> is_met(waking_steps()[2].want, reply),
        waking_steps()[2].act matches Act::Call { cmd: UmcgCmd::Wake, .. },
{
}

/// Every worker that a script starts registers under its own worker id first, and gives up its
/// registration last, but for the one that is to exit without; the server that is started does
/// neither as a worker, but registers and leaves as a server.
pub proof fn law_helpers_register_and_leave(helper: Helper)
    ensures
        ({
            let steps = helper_steps(helper);
            &&& steps.len() >= 2
            &&& helper is IdleServer <==> registers(steps[0])
            &&& helper !is IdleServer ==> {
                &&& steps[0].act matches Act::Call {
                    cmd: UmcgCmd::RegisterWorker,
                    limit: Limit::OwnWorkerId,
                    ..
                }
                &&& steps[0].want is Zero
            }
            &&& helper is ExitingWorker <==> !leaves(steps.last())
        }),
{
}

/// What the worker that exits tries before that is all refused.
pub proof fn law_exiting_worker_is_refused(i: int, reply: CallReply)
    requires
        0 < i < helper_steps(Helper::ExitingWorker).len(),
        is_met(helper_steps(Helper::ExitingWorker)[i].want, reply),
    ensures
        reply.ret < 0,
        reply.errno == 22,
{
}

} // verus!
