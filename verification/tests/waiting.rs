use umcg::umcg::{UmcgCall, UmcgCmd};
use umcg::wait::{
    classify_timed_wait, classify_wait, deadline, single_wait, WaitNoTimeoutResult, WaitResult,
    WaitRetry,
};

#[test]
fn interrupted_wait_is_entered_again() {
    let mut wait = WaitRetry::new(128, 2);
    let first = UmcgCall {
        flags: 0,
        cmd: UmcgCmd::Wait,
        next_tid: 4,
        abs_timeout: 0,
        event_sz: 2,
    };
    assert_eq!(wait.call(), first);
    assert_eq!(wait.step(-1, libc::EINTR), None);
    assert_eq!(wait.call(), UmcgCall { flags: 1, ..first });
    assert_eq!(wait.step(-1, libc::EINTR), None);
    assert_eq!(wait.step(-1, libc::EAGAIN), Some(-1));
    assert_eq!(WaitRetry::new(0, 2).step(0, libc::EINTR), Some(0));
    assert_eq!(WaitRetry::new(0, 2).step(-4, libc::EINTR), Some(-4));
}

#[test]
fn waits_are_classified() {
    assert_eq!(classify_wait(0, 0), WaitNoTimeoutResult::Events(0));
    assert_eq!(classify_wait(3, libc::EINTR), WaitNoTimeoutResult::ProcessForwarded);
    assert_eq!(classify_wait(-1, libc::EINTR), WaitNoTimeoutResult::ProcessForwarded);
    assert_eq!(classify_wait(-1, libc::EAGAIN), WaitNoTimeoutResult::ResourceBusy);
    assert_eq!(classify_wait(-1, libc::EINVAL), WaitNoTimeoutResult::Events(-1));
    assert_eq!(classify_timed_wait(0, 0), WaitResult::Events(0));
    assert_eq!(classify_timed_wait(-1, libc::EINTR), WaitResult::ProcessForwarded);
    assert_eq!(classify_timed_wait(-1, libc::EAGAIN), WaitResult::ResourceBusy);
    assert_eq!(classify_timed_wait(-1, libc::ETIMEDOUT), WaitResult::Timeout);
}

#[test]
fn time_limit_is_absolute() {
    let now: u128 = 1_700_000_000_000_000_000;
    assert_eq!(deadline(now, 5), 1_700_000_000_000_000_005);
    assert_eq!(single_wait(160, 77, 6).args(1), [0, 5, 5, 77, 1, 6]);
}
