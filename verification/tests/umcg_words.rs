use umcg::conformance::check::umcg_assert_worker_event;
use umcg::error::ServerError;
use umcg::text::log_line;
use umcg::umcg::{
    debug_worker_id, event_kind, event_tid, event_worker, worker_id, UmcgCall, UmcgCmd,
    UmcgEventType, EVENT_BUFFER_SIZE, SYS_UMCG_CTL, UMCG_WAIT_FLAG_INTERRUPTED,
    UMCG_WORKER_EVENT_MASK, UMCG_WORKER_ID_SHIFT, WORKER_REGISTRATION_TIMEOUT_MS,
};

const KINDS: [UmcgEventType; 6] = [
    UmcgEventType::Block,
    UmcgEventType::Wake,
    UmcgEventType::Wait,
    UmcgEventType::Exit,
    UmcgEventType::Timeout,
    UmcgEventType::Preempt,
];

#[test]
fn worker_id_is_shown() {
    assert_eq!(debug_worker_id((3u64 << 32) | 128), "server:3 tid:128 (raw:12884902016)");
    assert_eq!(event_kind(130), 2);
}

#[test]
fn constants_are_those_of_the_call() {
    assert_eq!(SYS_UMCG_CTL, 449);
    assert_eq!(UMCG_WORKER_ID_SHIFT, 5);
    assert_eq!(UMCG_WORKER_EVENT_MASK, 31);
    assert_eq!(UMCG_WAIT_FLAG_INTERRUPTED, 1);
    assert_eq!(WORKER_REGISTRATION_TIMEOUT_MS, 5000);
    assert_eq!(EVENT_BUFFER_SIZE, 2);
}

#[test]
fn commands_and_kinds_have_their_numbers() {
    assert_eq!(UmcgCmd::RegisterWorker.code(), 1);
    assert_eq!(UmcgCmd::RegisterServer.code(), 2);
    assert_eq!(UmcgCmd::Unregister.code(), 3);
    assert_eq!(UmcgCmd::Wake.code(), 4);
    assert_eq!(UmcgCmd::Wait.code(), 5);
    assert_eq!(UmcgCmd::CtxSwitch.code(), 6);
    for (index, kind) in KINDS.iter().enumerate() {
        assert_eq!(kind.code(), index as u64 + 1);
        assert_eq!(UmcgEventType::from_u64(kind.code()), Some(*kind));
    }
    assert_eq!(UmcgEventType::from_u64(0), None);
    assert_eq!(UmcgEventType::from_u64(7), None);
}

#[test]
fn event_words_round_trip() {
    for tid in [0, 1, 4, 5, 31, 32, 1234, i32::MAX, -1, i32::MIN] {
        let id = worker_id(tid);
        assert_eq!(id, (tid as u64) << 5);
        for kind in KINDS {
            let word = id | kind.code();
            assert_eq!(event_kind(word), kind.code());
            assert_eq!(event_worker(word), id);
            assert_eq!(event_tid(word), tid);
            assert!(umcg_assert_worker_event(word, id, kind));
        }
    }
    assert_eq!(worker_id(4), 128);
    assert_eq!(event_tid(u64::MAX), -1);
}

#[test]
fn call_arguments_are_in_order() {
    let call = UmcgCall {
        flags: 7,
        cmd: UmcgCmd::CtxSwitch,
        next_tid: -3,
        abs_timeout: u64::MAX,
        event_sz: 2,
    };
    assert_eq!(call.args(99), [7, 6, -3, -1, 99, 2]);
    assert_eq!(UmcgCall::plain(UmcgCmd::Wake).args(0), [0, 4, 0, 0, 0, 0]);
}

#[test]
fn errors_have_their_messages() {
    assert_eq!(
        ServerError::RegistrationFailed(-1).message(""),
        "Server registration failed: -1"
    );
    assert_eq!(
        ServerError::WorkerRegistrationTimeout { worker_id: 12 }.message(""),
        "Worker 12 registration timed out"
    );
    assert_eq!(
        ServerError::WorkerRegistrationFailed { worker_id: 2, error: -22 }.message(""),
        "Worker 2 registration failed: -22"
    );
    assert_eq!(
        ServerError::InvalidWorkerEvent { worker_id: 4, event: 135 }.message(""),
        "Invalid event 135 from worker 4"
    );
    assert_eq!(
        ServerError::SystemError(22).message("Invalid argument (os error 22)"),
        "System error: Invalid argument (os error 22)"
    );
    assert_eq!(
        ServerError::ContextSwitchFailed { worker_id: 128, ret_code: -1, errno: 3 }.message(""),
        "Context switch failed: -1 (errno: 3)"
    );
}

#[test]
fn log_lines_are_aligned() {
    assert_eq!(log_line(1_700_000_897, 5, "Creating Server 0"), "[897.005] Creating Server 0");
    assert_eq!(log_line(7, 60, "x"), "[  7.060] x");
    assert_eq!(log_line(42, 999, ""), "[ 42.999] ");
    assert_eq!(log_line(3000, 0, "a"), format!("[{:>3}.{:03}] {}", 0, 0, "a"));
}

#[test]
fn basic_worker_test_succeeds() {
    assert_eq!(umcg::run_basic_worker_test(), 0);
}
