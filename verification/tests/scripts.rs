use umcg::conformance::check::{
    umcg_ctxsw_assert_worker_event, umcg_wait_any_worker, umcg_yield, CallReply, Want,
    SYS_UMCG_CTL,
};
use umcg::conformance::script::{Helper, Script, Step, Todo};
use umcg::conformance::suites::{
    helper_script, run_basic_tests, umcg_test_basic, umcg_test_errors, umcg_test_server2server,
};
use umcg::umcg::{worker_id, UmcgCmd, UmcgEventType};

const OK: CallReply = CallReply { ret: 0, errno: 0, first: 0, second: 0 };

fn saw(tid: i32, kind: UmcgEventType) -> CallReply {
    CallReply { first: worker_id(tid) | kind.code(), ..OK }
}

fn minus_one(errno: i32) -> CallReply {
    CallReply { ret: -1, errno, ..OK }
}

fn call_of(todo: Todo) -> ([i64; 6], bool) {
    match todo {
        Todo::Call { call, buffer } => (call.args(0), buffer),
        other => panic!("{:?}", other),
    }
}

#[test]
fn replies_are_checked() {
    assert_eq!(SYS_UMCG_CTL, 450);
    assert!(Want::Zero.met(&OK));
    assert!(!Want::Zero.met(&minus_one(22)));
    assert!(Want::Negative { errno: 22 }.met(&CallReply { ret: -5, errno: 22, ..OK }));
    assert!(!Want::Negative { errno: 22 }.met(&minus_one(11)));
    assert!(Want::MinusOne { errno: 22 }.met(&minus_one(22)));
    assert!(!Want::MinusOne { errno: 22 }.met(&CallReply { ret: -5, errno: 22, ..OK }));
    assert!(Want::ZeroOrNegative { errno: 110 }.met(&OK));
    assert!(!Want::ZeroOrNegative { errno: 110 }.met(&minus_one(22)));
    let wake = saw(4, UmcgEventType::Wake);
    assert_eq!(umcg_wait_any_worker(&wake, UmcgEventType::Wake), Some(128));
    assert_eq!(umcg_wait_any_worker(&wake, UmcgEventType::Wait), None);
    assert_eq!(
        umcg_wait_any_worker(&CallReply { second: 1, ..wake }, UmcgEventType::Wake),
        None
    );
    assert_eq!(
        umcg_wait_any_worker(&CallReply { ret: -1, ..wake }, UmcgEventType::Wake),
        None
    );
    assert!(umcg_ctxsw_assert_worker_event(&wake, 128, UmcgEventType::Wake));
    assert!(!umcg_ctxsw_assert_worker_event(&wake, 160, UmcgEventType::Wake));
    assert!(umcg_yield(0));
    assert!(!umcg_yield(-1));
}

/// Goes through a script with these replies, and returns what was to be done.
fn go(steps: Vec<Step>, tid: i32, replies: &[CallReply]) -> Vec<Todo> {
    let mut script = Script::new(steps, tid, 0);
    let mut list = vec![script.step(&OK, 1000)];
    for reply in replies {
        list.push(script.step(reply, 1000));
    }
    list
}

#[test]
fn basic_script_passes() {
    let replies = [
        OK,
        OK,
        saw(10, UmcgEventType::Wake),
        saw(10, UmcgEventType::Block),
        OK,
        saw(10, UmcgEventType::Wake),
        saw(10, UmcgEventType::Exit),
        OK,
        OK,
        saw(11, UmcgEventType::Wake),
        saw(11, UmcgEventType::Wait),
        saw(11, UmcgEventType::Timeout),
        saw(11, UmcgEventType::Exit),
        OK,
        OK,
        saw(12, UmcgEventType::Wake),
        OK,
        saw(13, UmcgEventType::Wake),
        saw(12, UmcgEventType::Exit),
        CallReply { second: worker_id(13) | UmcgEventType::Timeout.code(), ..saw(13, UmcgEventType::Wait) },
        saw(13, UmcgEventType::Exit),
        OK,
        OK,
        OK,
        saw(14, UmcgEventType::Wake),
        saw(14, UmcgEventType::Preempt),
        OK,
        saw(14, UmcgEventType::Exit),
        OK,
        OK,
        saw(15, UmcgEventType::Wake),
        saw(15, UmcgEventType::Exit),
        OK,
        OK,
    ];
    let list = go(umcg_test_basic(), 3, &replies);
    assert_eq!(list.len(), 35);
    assert_eq!(list[34], Todo::Pass);
    assert!(list.iter().take(34).all(|todo| !matches!(todo, Todo::Pass | Todo::Fail { .. })));
    assert_eq!(call_of(list[0]), ([0, 2, 0, 0, 0, 0], false));
    assert_eq!(list[1], Todo::Start { helper: Helper::BlockingWorker, worker_id: 0 });
    assert_eq!(list[2], Todo::WaitRetry { worker_id: 0, buffer: true });
    assert_eq!(call_of(list[3]), ([0, 6, 10, 0, 0, 2], true));
    assert_eq!(list[4], Todo::WaitRetry { worker_id: 320, buffer: false });
    assert_eq!(list[7], Todo::Join);
    assert_eq!(
        list[16],
        Todo::Start { helper: Helper::SwitchTimeoutWorker, worker_id: 384 }
    );
    assert_eq!(call_of(list[18]), ([0, 6, 13, 0, 0, 2], true));
    assert_eq!(list[26], Todo::Release);
    assert_eq!(call_of(list[33]), ([0, 3, 0, 0, 0, 0], false));
}

#[test]
fn wrong_replies_fail_for_good() {
    let mut script = Script::new(umcg_test_basic(), 3, 0);
    script.step(&OK, 0);
    script.step(&OK, 0);
    script.step(&OK, 0);
    script.step(&saw(10, UmcgEventType::Wake), 0);
    assert_eq!(
        script.step(&saw(11, UmcgEventType::Block), 0),
        Todo::Fail { step: 4 }
    );
    assert_eq!(
        script.step(&saw(10, UmcgEventType::Block), 0),
        Todo::Fail { step: 4 }
    );
    assert!(matches!(
        go(run_basic_tests(), 3, &[minus_one(1)])[1],
        Todo::Fail { step: 1 }
    ));
}

#[test]
fn server_script_passes() {
    let list = go(
        run_basic_tests(),
        3,
        &[OK, CallReply { ret: -22, errno: libc::EINVAL, ..OK }, minus_one(libc::EINVAL), OK],
    );
    assert_eq!(call_of(list[1]), ([0, 1, 0, 31, 0, 0], false));
    assert_eq!(call_of(list[2]), ([0, 6, 3, 0, 0, 2], true));
    assert_eq!(list[4], Todo::Pass);
}

#[test]
fn error_script_passes() {
    let replies = [
        minus_one(libc::EINVAL),
        OK,
        minus_one(libc::EINVAL),
        minus_one(libc::EINVAL),
        minus_one(libc::ETIMEDOUT),
        minus_one(libc::ETIMEDOUT),
        minus_one(libc::EINVAL),
        minus_one(libc::EINVAL),
        minus_one(libc::ESRCH),
        minus_one(libc::ESRCH),
        minus_one(libc::EAGAIN),
        OK,
    ];
    let list = go(umcg_test_errors(), 3, &replies);
    assert_eq!(list[12], Todo::Pass);
    assert_eq!(call_of(list[3]), ([0, 5, 0, 0, 0, 1], true));
    assert_eq!(call_of(list[4]), ([0, 5, 0, 1000, 0, 2], true));
    assert_eq!(call_of(list[5]), ([0, 5, 0, 1, 0, 2], true));
    assert_eq!(call_of(list[6]), ([0, 5, 1, 0, 0, 0], true));
    assert_eq!(call_of(list[7]), ([0, 5, 1, 0, 0, 2], false));
    assert_eq!(call_of(list[8]), ([0, 6, 1, 1, 0, 2], true));
    assert_eq!(call_of(list[9]), ([0, 6, 999999, 0, 0, 2], true));
    assert_eq!(call_of(list[10]), ([0, 4, 0, 0, 0, 0], false));
}

#[test]
fn waking_is_patient() {
    let busy = minus_one(libc::EAGAIN);
    let list = go(umcg_test_server2server(), 3, &[OK, OK, busy, busy, OK, OK, OK]);
    assert_eq!(list[1], Todo::Start { helper: Helper::IdleServer, worker_id: 0 });
    for todo in &list[2..5] {
        assert_eq!(call_of(*todo).0[1], UmcgCmd::Wake.code() as i64);
    }
    assert_eq!(list[5], Todo::Join);
    assert_eq!(list[7], Todo::Pass);
    assert!(matches!(
        go(umcg_test_server2server(), 3, &[OK, OK, minus_one(libc::EINVAL)])[3],
        Todo::Fail { step: 3 }
    ));
}

#[test]
fn helpers_pass() {
    let invalid = minus_one(libc::EINVAL);
    let late = minus_one(libc::ETIMEDOUT);
    let sets: Vec<(Helper, Vec<CallReply>)> = vec![
        (Helper::BlockingWorker, vec![OK, OK, OK]),
        (Helper::WaitTimeoutWorker, vec![OK, late, OK]),
        (Helper::DummyWorker, vec![OK, OK]),
        (Helper::SwitchTimeoutWorker, vec![OK, late, OK]),
        (Helper::SwitchTimeoutWorker, vec![OK, OK, OK]),
        (Helper::PreemptedWorker, vec![OK, OK, OK]),
        (
            Helper::ExitingWorker,
            vec![OK, invalid, invalid, invalid, invalid, invalid],
        ),
        (Helper::IdleServer, vec![OK, OK, OK]),
    ];
    for (helper, replies) in sets {
        let list = go(helper_script(helper), 6, &replies);
        assert_eq!(list[list.len() - 1], Todo::Pass);
        if helper != Helper::IdleServer {
            assert_eq!(call_of(list[0]), ([0, 1, 0, 192, 0, 0], false));
        }
    }
    let sleep = go(helper_script(Helper::BlockingWorker), 6, &[OK]);
    assert_eq!(sleep[1], Todo::Sleep { micros: 16384 });
    let spin = go(helper_script(Helper::PreemptedWorker), 6, &[OK]);
    assert_eq!(spin[1], Todo::Spin);
    let mut script = Script::new(helper_script(Helper::SwitchTimeoutWorker), 6, 384);
    script.step(&OK, 0);
    assert_eq!(call_of(script.step(&OK, 55)), ([0, 6, 12, 55, 0, 0], false));
}
