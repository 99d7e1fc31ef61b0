use umcg::conformance::check::CallReply;
use umcg::demo::{
    event_line, event_lines, poll_completion, progress_due, DemoChore, DemoJob, DemoKind,
    DemoServer, DemoWorker, PollStep,
};
use umcg::echo::{
    handle_connection, next_accept, response, AcceptStep, Attempt, ConnectionStep, ServerStats,
    StatsReport,
};
use umcg::perf::{FutexEcho, FutexJob, FutexRun, PerfJob, PerfRun, PerfWorker};
use umcg::showcase::{
    dynamic_plan, echo_plan, multi_server_plan, queued_plan, Act, Ending, Showcase, Sight,
};
use umcg::sysinfo::{allowed_cpus, get_current_cpu, get_process_state, get_thread_count};
use umcg::umcg::{worker_id, UmcgCall, UmcgCmd, UmcgEventType};

const SECOND: u64 = 1_000_000_000;

#[test]
fn completion_is_polled() {
    assert_eq!(poll_completion(true, 99 * SECOND), PollStep::Done);
    assert_eq!(poll_completion(false, 30 * SECOND), PollStep::Wait);
    assert_eq!(poll_completion(false, 30 * SECOND + 1), PollStep::TimedOut);
    assert!(progress_due(0));
    assert!(progress_due(SECOND - 1));
    assert!(!progress_due(SECOND));
    assert!(progress_due(5 * SECOND));
}

#[test]
fn demo_worker_beats() {
    let mut worker = DemoWorker::new(DemoKind::A, 6);
    match worker.step(0, false) {
        DemoChore::Call(call) => assert_eq!(call.args(0), [0, 1, 0, 192, 0, 0]),
        other => panic!("{:?}", other),
    }
    assert_eq!(worker.step(0, false), DemoChore::CountUp);
    assert_eq!(worker.step(0, false), DemoChore::Spin { dot: true, yields: true });
    assert_eq!(worker.step(0, false), DemoChore::Spin { dot: false, yields: false });
    worker.beats = 1_000_000;
    assert_eq!(worker.step(0, false), DemoChore::Spin { dot: true, yields: false });
    assert_eq!(worker.step(0, true), DemoChore::CountDown);
    assert_eq!(
        worker.step(0, true),
        DemoChore::Call(UmcgCall::plain(UmcgCmd::Unregister))
    );
    assert_eq!(worker.step(0, true), DemoChore::Finish);
    for (kind, seconds) in [(DemoKind::B, 1), (DemoKind::C, 2)] {
        let mut worker = DemoWorker::new(kind, 6);
        worker.step(0, false);
        worker.step(0, false);
        assert_eq!(worker.step(0, false), DemoChore::Sleep { seconds });
        assert_eq!(worker.step(-1, false), DemoChore::Fail { ret: -1 });
    }
}

#[test]
fn demo_events_are_told() {
    let wake = worker_id(4) | 2;
    let exit = worker_id(4) | 4;
    assert_eq!(event_line(wake), "Worker event: 2");
    assert_eq!(event_line(exit), "Worker tid 4, event 4");
    assert_eq!(
        event_lines(&[wake, exit, 0, wake, 0, 0]),
        vec!["Worker event: 2".to_string(), "Worker tid 4, event 4".to_string()]
    );
    assert_eq!(event_lines(&[wake; 6]).len(), 6);
}

#[test]
fn demo_server_waits_for_its_workers() {
    let none = [0u64; 6];
    let mut server = DemoServer::new();
    assert!(matches!(server.step(0, none, 0, 0), DemoJob::Register(_)));
    assert!(matches!(server.step(0, none, 0, 0), DemoJob::Start(DemoKind::A)));
    assert!(matches!(server.step(0, none, 0, 0), DemoJob::Start(DemoKind::B)));
    assert!(matches!(server.step(0, none, 0, 0), DemoJob::Start(DemoKind::C)));
    assert!(matches!(server.step(0, none, 0, 0), DemoJob::Wait));
    match server.step(0, none, 3, 10 * SECOND - 1) {
        DemoJob::Tell { lines, done } => assert!(lines.is_empty() && !done),
        other => panic!("{:?}", other),
    }
    assert!(matches!(server.step(0, none, 0, 0), DemoJob::Wait));
    match server.step(0, [worker_id(4) | 3, 0, 0, 0, 0, 0], 3, 10 * SECOND) {
        DemoJob::Tell { lines, done } => {
            assert_eq!(lines, vec!["Worker event: 3".to_string()]);
            assert!(done);
        }
        other => panic!("{:?}", other),
    }
    assert!(matches!(server.step(0, none, 1, 0), DemoJob::Wait));
    assert!(matches!(server.step(0, none, 1, 0), DemoJob::Tell { done: true, .. }));
    assert!(matches!(server.step(0, none, 0, 0), DemoJob::Join));
    assert!(matches!(server.step(0, none, 0, 0), DemoJob::Finish { code: 0 }));

    let mut server = DemoServer::new();
    server.step(0, none, 0, 0);
    assert!(matches!(server.step(-1, none, 0, 0), DemoJob::Fail { ret: -1 }));
    let mut server = DemoServer::new();
    for _ in 0..5 {
        server.step(0, none, 0, 0);
    }
    assert!(matches!(server.step(-1, none, 0, 0), DemoJob::Finish { code: -1 }));
}

fn saw(kind: UmcgEventType) -> CallReply {
    CallReply { ret: 0, errno: 0, first: worker_id(4) | kind.code(), second: 0 }
}

#[test]
fn measurement_counts_switches() {
    let ok = CallReply { ret: 0, errno: 0, first: 0, second: 0 };
    let mut run = PerfRun::new(false);
    assert_eq!(run.step(&ok, 0), PerfJob::Start);
    assert_eq!(
        run.step(&ok, 0),
        PerfJob::Call(UmcgCall::plain(UmcgCmd::RegisterServer))
    );
    assert_eq!(run.step(&ok, 0), PerfJob::AwaitWorker);
    match run.step(&saw(UmcgEventType::Wake), 0) {
        PerfJob::Switch(call) => assert_eq!(call.args(0), [0, 6, 4, 0, 0, 2]),
        other => panic!("{:?}", other),
    }
    for _ in 0..3 {
        assert!(matches!(run.step(&saw(UmcgEventType::Wait), 5), PerfJob::Switch(_)));
    }
    assert_eq!(
        run.step(&saw(UmcgEventType::Wait), 10 * SECOND),
        PerfJob::Tell { cycles: 4 }
    );
    assert!(matches!(run.step(&ok, 0), PerfJob::Switch(_)));
    assert_eq!(run.step(&saw(UmcgEventType::Exit), 0), PerfJob::Join);
    assert_eq!(run.step(&ok, 0), PerfJob::Finish);

    let mut run = PerfRun::new(false);
    for _ in 0..3 {
        run.step(&ok, 0);
    }
    assert_eq!(run.step(&saw(UmcgEventType::Block), 0), PerfJob::Fail);

    let mut worker = PerfWorker::Fresh { tid: 4 };
    assert!(matches!(worker.step(0, false), PerfJob::Call(_)));
    assert_eq!(
        worker.step(0, false),
        PerfJob::Call(UmcgCall::plain(UmcgCmd::Wait))
    );
    assert_eq!(
        worker.step(0, true),
        PerfJob::Call(UmcgCall::plain(UmcgCmd::Unregister))
    );
    assert_eq!(worker.step(0, true), PerfJob::Finish);
    let mut worker = PerfWorker::Going;
    assert_eq!(worker.step(-1, false), PerfJob::Fail);
}

#[test]
fn futex_measurement_goes_round() {
    let mut run = FutexRun::new();
    for _ in 0..2 {
        assert_eq!(run.step(0), FutexJob::Store(1));
        assert_eq!(run.step(0), FutexJob::Wake);
        assert_eq!(run.step(0), FutexJob::Wait(1));
    }
    assert_eq!(run.step(10 * SECOND), FutexJob::Tell { cycles: 2 });
    assert_eq!(run.step(0), FutexJob::Store(1));
    assert_eq!(run.step(0), FutexJob::Wake);
    assert_eq!(run.step(0), FutexJob::Join);
    assert_eq!(run.step(0), FutexJob::Finish);
    let mut echo = FutexEcho::AtHead;
    assert_eq!(echo.step(false), FutexJob::Wait(0));
    assert_eq!(echo.step(true), FutexJob::Store(0));
    assert_eq!(echo.step(true), FutexJob::Wake);
    assert_eq!(echo.step(true), FutexJob::Finish);
}

#[test]
fn echo_statistics_average() {
    let mut stats = ServerStats::new();
    assert_eq!(stats.report(), None);
    stats.accepted(10);
    stats.accepted(15);
    stats.taken_up(7);
    stats.finished(9);
    assert_eq!(
        stats.report(),
        Some(StatsReport {
            accepts: 2,
            current_connections: 1,
            completed_requests: 1,
            average_accept_wait: 12,
            average_processing_time: 4,
            average_queue_wait: 3,
        })
    );
}

#[test]
fn connections_are_answered_once() {
    assert_eq!(handle_connection(Attempt::Got(0)), ConnectionStep::Close);
    assert_eq!(handle_connection(Attempt::Got(5)), ConnectionStep::Respond);
    assert_eq!(
        handle_connection(Attempt::WouldBlock),
        ConnectionStep::Retry { micros: 100 }
    );
    assert_eq!(handle_connection(Attempt::Failed), ConnectionStep::Close);
    assert_eq!(next_accept(Attempt::Got(0)), AcceptStep::Serve);
    assert_eq!(next_accept(Attempt::WouldBlock), AcceptStep::Retry { millis: 1 });
    assert_eq!(next_accept(Attempt::Failed), AcceptStep::Stop);
    assert_eq!(
        response(),
        "HTTP/1.1 200 OK\r\n\
         Content-Type: text/plain\r\n\
         Content-Length: 13\r\n\
         Connection: close\r\n\
         \r\n\
         Hello, World!\n"
    );
}

#[test]
fn process_information_is_read() {
    assert_eq!(get_current_cpu(&vec![false, false, true, true]), 2);
    assert_eq!(get_current_cpu(&vec![false; 4]), -1);
    assert_eq!(allowed_cpus(&vec![true, false, true]), vec![0, 2]);
    let text = "Name:\tState:x\nState:\tS (sleeping)\r\nThreads:\t 12 3\nState:\tR\n";
    let chars: Vec<char> = text.chars().collect();
    let line: String = get_process_state(&chars).unwrap().into_iter().collect();
    assert_eq!(line, "State:\tS (sleeping)");
    assert_eq!(get_thread_count(&chars), 12);
    let count = |text: &str| get_thread_count(&text.chars().collect());
    assert_eq!(count("Threads:"), 0);
    assert_eq!(count("Threads:\tx"), 0);
    assert_eq!(count("Threads:\t+7"), 7);
    assert_eq!(count("Threads:\t+"), 0);
    assert_eq!(count("Threads:\t18446744073709551615"), usize::MAX);
    assert_eq!(count("Threads:\t18446744073709551616"), 0);
    assert_eq!(count("a\n Threads:\t5"), 0);
    assert_eq!(count(""), 0);
    assert_eq!(get_process_state(&Vec::new()), None);
}

const NOTHING: Sight = Sight { ready: 0, all_done: false, elapsed: 0 };

#[test]
fn showcase_waits_for_its_tasks() {
    let mut show = Showcase::new(dynamic_plan());
    assert_eq!(show.step(NOTHING), Act::StartAll);
    assert_eq!(show.step(NOTHING), Act::Rest { millis: 50 });
    for number in 0..6 {
        assert_eq!(show.step(NOTHING), Act::Submit { number });
    }
    assert_eq!(show.step(NOTHING), Act::Look);
    assert_eq!(show.step(NOTHING), Act::Linger { report: true, millis: 100 });
    assert_eq!(show.step(NOTHING), Act::Look);
    let later = Sight { elapsed: SECOND, ..NOTHING };
    assert_eq!(show.step(later), Act::Linger { report: false, millis: 100 });
    assert_eq!(show.step(NOTHING), Act::Look);
    let mut late = show;
    assert_eq!(
        show.step(Sight { all_done: true, ..later }),
        Act::Stop { in_time: true }
    );
    assert_eq!(show.step(NOTHING), Act::Finish { code: 0 });
    assert_eq!(
        late.step(Sight { elapsed: 30 * SECOND + 1, ..NOTHING }),
        Act::Stop { in_time: false }
    );
    assert_eq!(late.step(NOTHING), Act::Finish { code: 1 });
}

#[test]
fn showcase_starts_servers_one_by_one() {
    let mut show = Showcase::new(echo_plan());
    for server_id in 0..4 {
        let ready = Sight { ready: 100, ..NOTHING };
        let start = if server_id == 0 { NOTHING } else { ready };
        assert_eq!(show.step(start), Act::Start { server_id });
        assert_eq!(show.step(NOTHING), Act::CountReady { server_id });
        assert_eq!(
            show.step(Sight { ready: 99, ..NOTHING }),
            Act::Rest { millis: 10 }
        );
        assert_eq!(show.step(NOTHING), Act::CountReady { server_id });
    }
    assert_eq!(show.step(Sight { ready: 100, ..NOTHING }), Act::Release);
    assert_eq!(show.step(NOTHING), Act::Submit { number: 0 });
    assert_eq!(show.step(NOTHING), Act::ShowStats);
    assert_eq!(show.step(NOTHING), Act::ShowStats);
}

#[test]
fn other_plans() {
    let plan = queued_plan();
    assert_eq!((plan.servers, plan.workers, plan.tasks), (1, 10, 30));
    assert_eq!(plan.capacity, 100_000);
    let mut show = Showcase::new(multi_server_plan());
    assert_eq!(show.plan.ending, Ending::Pause { millis: 15_000 });
    assert_eq!(show.step(NOTHING), Act::StartAll);
    assert_eq!(show.step(NOTHING), Act::Rest { millis: 100 });
    for number in 0..9 {
        assert_eq!(show.step(NOTHING), Act::Submit { number });
    }
    assert_eq!(show.step(NOTHING), Act::Rest { millis: 15_000 });
    assert_eq!(show.step(NOTHING), Act::Finish { code: 0 });
}
