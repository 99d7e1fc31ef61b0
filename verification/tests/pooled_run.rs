use umcg::error::ServerError;
use umcg::pooled::run::{Job, JobReply, Phase, ServerRun, EVENT_WAIT_NS};
use umcg::pooled::server::{Request, Server};
use umcg::pooled::task::Task;
use umcg::pooled::worker_thread::{Answer, Chore, FailedCall, Inbox, WorkerPhase, WorkerThread};
use umcg::status::WorkerStatus;
use umcg::umcg::{worker_id, UmcgCall, UmcgCmd, UmcgEventType};

/// The time since the epoch, in nanoseconds.
const EPOCH: u64 = 1_700_000_000_000_000_000;

const OK: JobReply = JobReply { ret: 0, errno: 0, events: [0; 6] };

fn event(tid: i32, kind: UmcgEventType) -> u64 {
    worker_id(tid) | kind.code()
}

fn with_event(word: u64) -> JobReply {
    JobReply { events: [word, 0, 0, 0, 0, 0], ..OK }
}

fn failed(ret: i32, errno: i32) -> JobReply {
    JobReply { ret, errno, events: [0; 6] }
}

/// A server with one worker, whose thread id is 4, at the head of its loop.
fn started() -> (ServerRun, Server) {
    let mut run = ServerRun::new();
    let mut server = Server::new(2, 7, 1);
    assert!(matches!(run.step(&mut server, OK, 0, EPOCH), Job::SetAffinity { cpu_id: 7 }));
    match run.step(&mut server, OK, 0, EPOCH) {
        Job::Call(call) => assert_eq!(call, UmcgCall::plain(UmcgCmd::RegisterServer)),
        other => panic!("{:?}", other),
    }
    assert!(matches!(
        run.step(&mut server, OK, 0, EPOCH),
        Job::StartWorker { worker_id: 2, server_id: 2, cpu_id: 7 }
    ));
    assert!(matches!(
        run.step(&mut server, JobReply { ret: 4, ..OK }, 100, EPOCH),
        Job::AwaitWorker
    ));
    assert_eq!(
        server.worker_pool.get_worker_state(4),
        Some((WorkerStatus::Registering, None))
    );
    assert!(matches!(
        run.step(&mut server, with_event(event(4, UmcgEventType::Block)), 200, EPOCH),
        Job::AwaitWorker
    ));
    assert!(matches!(
        run.step(&mut server, with_event(event(4, UmcgEventType::Wake)), 300, EPOCH),
        Job::Proceed
    ));
    assert_eq!(
        server.worker_pool.get_worker_state(4),
        Some((WorkerStatus::Waiting, None))
    );
    (run, server)
}

#[test]
fn server_starts_its_workers_and_serves() {
    let (mut run, mut server) = started();
    server.add_task_as(Task::Function(70), 1, 0);
    assert!(matches!(
        run.step(&mut server, OK, 400, EPOCH),
        Job::Serve(Request::Send { tid: 4, function: 70 })
    ));
    assert!(matches!(
        run.step(&mut server, OK, 500, EPOCH),
        Job::Serve(Request::Switch { tid: 4 })
    ));
    match run.step(&mut server, OK, 600, EPOCH) {
        Job::WaitForEvents(call) => {
            assert_eq!(call.args(0), [0, 5, 0, 1_700_000_000_100_000_000, 0, 6]);
            assert_eq!(EVENT_WAIT_NS, 100_000_000);
        }
        other => panic!("{:?}", other),
    }
    let reply = with_event(event(4, UmcgEventType::Wait));
    assert!(matches!(run.step(&mut server, reply, 700, EPOCH), Job::Proceed));
    assert!(matches!(run.step(&mut server, OK, 800, EPOCH), Job::Proceed));
    assert!(matches!(run.phase, Phase::AfterEvent { index: 0, .. }));
    assert!(matches!(run.step(&mut server, OK, 900, EPOCH), Job::Proceed));
    assert!(matches!(run.phase, Phase::BeforeEvent { index: 1, .. }));
    assert!(matches!(run.step(&mut server, OK, 1000, EPOCH), Job::Proceed));
    assert!(matches!(run.phase, Phase::AtHead));
}

#[test]
fn loop_begins_fully_staffed() {
    let mut run = ServerRun::new();
    let mut server = Server::new(2, 7, 3);
    for _ in 0..3 {
        run.step(&mut server, OK, 0, EPOCH);
    }
    for tid in [40, 30, 50] {
        assert!(matches!(
            run.step(&mut server, JobReply { ret: tid, ..OK }, 0, EPOCH),
            Job::AwaitWorker
        ));
        run.step(&mut server, with_event(event(tid, UmcgEventType::Wake)), 0, EPOCH);
    }
    assert!(matches!(run.phase, Phase::AtHead));
    assert_eq!(server.worker_pool.len(), 3);
    for (index, tid) in [40, 30, 50].iter().enumerate() {
        let worker = server.worker_pool.get(*tid).unwrap();
        assert_eq!(worker.id, 6 + index);
        assert_eq!(worker.server_id, 2);
        assert_eq!(worker.status, WorkerStatus::Waiting);
        assert_eq!(worker.current_task, None);
    }
}

#[test]
fn server_stops_in_order() {
    let (mut run, mut server) = started();
    server.add_task(Task::Shutdown, 0);
    match run.step(&mut server, OK, 400, EPOCH) {
        Job::StopWorkers(tids) => assert_eq!(tids, vec![4]),
        other => panic!("{:?}", other),
    }
    match run.step(&mut server, OK, 400, EPOCH) {
        Job::Call(call) => assert_eq!(call, UmcgCall::plain(UmcgCmd::Unregister)),
        other => panic!("{:?}", other),
    }
    assert!(matches!(
        run.step(&mut server, failed(-1, 22), 400, EPOCH),
        Job::Finish(Ok(()))
    ));
}

#[test]
fn setting_up_can_fail() {
    let mut run = ServerRun::new();
    let mut server = Server::new(0, 0, 1);
    run.step(&mut server, OK, 0, EPOCH);
    assert!(matches!(
        run.step(&mut server, failed(-1, 22), 0, EPOCH),
        Job::Finish(Err(ServerError::SystemError(22)))
    ));

    let mut run = ServerRun::new();
    run.step(&mut server, OK, 0, EPOCH);
    run.step(&mut server, OK, 0, EPOCH);
    assert!(matches!(
        run.step(&mut server, failed(-5, 0), 0, EPOCH),
        Job::Finish(Err(ServerError::RegistrationFailed(-5)))
    ));

    let mut run = ServerRun::new();
    for _ in 0..3 {
        run.step(&mut server, OK, 0, EPOCH);
    }
    run.step(&mut server, JobReply { ret: 4, ..OK }, 0, EPOCH);
    assert!(matches!(
        run.step(&mut server, failed(-1, 11), 0, EPOCH),
        Job::Finish(Err(ServerError::WorkerRegistrationFailed { worker_id: 0, error: -1 }))
    ));
}

#[test]
fn failed_registration_keeps_the_started() {
    let mut run = ServerRun::new();
    let mut server = Server::new(0, 0, 3);
    for _ in 0..3 {
        run.step(&mut server, OK, 0, EPOCH);
    }
    run.step(&mut server, JobReply { ret: 40, ..OK }, 0, EPOCH);
    run.step(&mut server, with_event(event(40, UmcgEventType::Wake)), 0, EPOCH);
    run.step(&mut server, JobReply { ret: 41, ..OK }, 0, EPOCH);
    assert!(matches!(
        run.step(&mut server, failed(-1, 11), 0, EPOCH),
        Job::Finish(Err(ServerError::WorkerRegistrationFailed { worker_id: 1, error: -1 }))
    ));
    assert_eq!(server.worker_pool.len(), 2);
    assert_eq!(
        server.worker_pool.get_worker_state(40),
        Some((WorkerStatus::Waiting, None))
    );
    assert_eq!(
        server.worker_pool.get_worker_state(41),
        Some((WorkerStatus::Registering, None))
    );
}

#[test]
fn registration_of_a_worker_times_out() {
    let mut run = ServerRun::new();
    let mut server = Server::new(0, 0, 1);
    for _ in 0..3 {
        run.step(&mut server, OK, 0, EPOCH);
    }
    run.step(&mut server, JobReply { ret: 4, ..OK }, 1_000, EPOCH);
    assert!(matches!(
        run.step(&mut server, OK, 5_000_001_000, EPOCH),
        Job::AwaitWorker
    ));
    assert!(matches!(
        run.step(&mut server, OK, 5_000_001_001, EPOCH),
        Job::Finish(Err(ServerError::WorkerRegistrationTimeout { worker_id: 0 }))
    ));
}

#[test]
fn waits_of_the_loop_can_time_out_but_not_fail() {
    let (mut run, mut server) = started();
    assert!(matches!(run.step(&mut server, OK, 400, EPOCH), Job::WaitForEvents(_)));
    assert!(matches!(
        run.step(&mut server, failed(-1, libc::ETIMEDOUT), 500, EPOCH),
        Job::Proceed
    ));
    assert!(matches!(run.step(&mut server, OK, 500, EPOCH), Job::Proceed));
    assert!(matches!(run.step(&mut server, OK, 600, EPOCH), Job::WaitForEvents(_)));
    assert!(matches!(
        run.step(&mut server, failed(-1, libc::EINTR), 700, EPOCH),
        Job::Finish(Err(ServerError::SystemError(libc::EINTR)))
    ));
}

#[test]
fn bad_event_is_reported() {
    let (mut run, mut server) = started();
    run.step(&mut server, OK, 400, EPOCH);
    let word = event(4, UmcgEventType::Preempt);
    run.step(&mut server, with_event(word), 500, EPOCH);
    match run.step(&mut server, OK, 500, EPOCH) {
        Job::Report(error) => assert_eq!(
            error,
            ServerError::InvalidWorkerEvent { worker_id: 4, event: word }
        ),
        other => panic!("{:?}", other),
    }
    assert!(matches!(run.step(&mut server, OK, 500, EPOCH), Job::Proceed));
}

#[test]
fn failed_scheduling_ends_the_server() {
    let (mut run, mut server) = started();
    server.add_task_as(Task::Function(70), 1, 0);
    run.step(&mut server, OK, 400, EPOCH);
    run.step(&mut server, OK, 400, EPOCH);
    assert!(matches!(
        run.step(&mut server, failed(-1, 3), 400, EPOCH),
        Job::Finish(Err(ServerError::SystemError(3)))
    ));
}

fn answer(value: i32) -> Answer {
    Answer { value, inbox: Inbox::Empty }
}

fn found(inbox: Inbox) -> Answer {
    Answer { value: 0, inbox }
}

#[test]
fn worker_thread_runs_and_waits() {
    let mut thread = WorkerThread::new(3, 9, 1);
    assert_eq!(thread.step(answer(0)), Chore::SetAffinity { cpu_id: 1 });
    assert_eq!(thread.step(answer(-1)), Chore::AskTid);
    assert_eq!(thread.step(answer(6)), Chore::Announce { tid: 6 });
    match thread.step(answer(0)) {
        Chore::Call(call) => assert_eq!(call.args(0), [0, 1, 0, 192, 0, 0]),
        other => panic!("{:?}", other),
    }
    assert_eq!(thread.step(answer(0)), Chore::Poll);
    assert_eq!(thread.step(found(Inbox::Function(8))), Chore::Run { function: 8 });
    match thread.step(answer(0)) {
        Chore::Call(call) => assert_eq!(call.args(0), [9, 5, 0, 0, 0, 0]),
        other => panic!("{:?}", other),
    }
    assert_eq!(thread.step(answer(0)), Chore::Poll);
    assert!(matches!(thread.step(found(Inbox::Empty)), Chore::Call(_)));
    assert_eq!(thread.phase, WorkerPhase::Waiting);
    assert_eq!(thread.step(answer(0)), Chore::Poll);
    match thread.step(found(Inbox::Shutdown)) {
        Chore::Call(call) => assert_eq!(call.args(0), [9, 3, 0, 0, 0, 0]),
        other => panic!("{:?}", other),
    }
    assert_eq!(thread.step(answer(0)), Chore::Finish);
    assert_eq!(thread.step(answer(7)), Chore::Finish);
    assert_eq!((thread.id, thread.server_id, thread.cpu_id, thread.tid), (3, 9, 1, 6));
}

#[test]
fn worker_thread_gives_up_on_failures() {
    let at = |phase| WorkerThread { id: 0, tid: 6, server_id: 0, cpu_id: 0, phase };
    assert_eq!(
        at(WorkerPhase::Registering).step(answer(-1)),
        Chore::Fail { call: FailedCall::Registration, ret: -1 }
    );
    assert_eq!(
        at(WorkerPhase::Waiting).step(answer(-2)),
        Chore::Fail { call: FailedCall::Wait, ret: -2 }
    );
    assert_eq!(
        at(WorkerPhase::Unregistering).step(answer(-3)),
        Chore::Fail { call: FailedCall::Unregistration, ret: -3 }
    );
    assert!(matches!(
        at(WorkerPhase::Polling).step(found(Inbox::Disconnected)),
        Chore::Call(_)
    ));
}
